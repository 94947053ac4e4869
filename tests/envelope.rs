use signal_viewer::envelope::{decode_blob_text, decode_payload, prepare_plot_data_with_order};
use signal_viewer::{
    prepare_plot_data, ByteOrder, DecodeError, Dimension, EncodedBlob, Metadata, PlotError,
    Sample, SignalEnvelope,
};

fn blob(element_type: &str, bytes: &[u8]) -> EncodedBlob {
    EncodedBlob {
        element_type: element_type.to_string(),
        encoding: "base64".to_string(),
        value: base64::encode_config(bytes, base64::URL_SAFE),
    }
}

fn dim(data: EncodedBlob) -> Dimension {
    Dimension {
        kind_tag: "Dimension".to_string(),
        data,
        label: "time".to_string(),
        units: "s".to_string(),
    }
}

fn meta() -> Metadata {
    Metadata {
        exp_number: 30420,
        filename: "amc030420.nc".to_string(),
        format: "netcdf".to_string(),
        pass: -1,
        pass_date: "2023-01-01".to_string(),
        path: "/data".to_string(),
        signal_alias: "amc".to_string(),
        signal_name: "plasma_current".to_string(),
    }
}

fn signal(dims: Vec<Dimension>, data: EncodedBlob) -> SignalEnvelope {
    SignalEnvelope {
        kind_tag: "Signal".to_string(),
        data,
        dims,
        label: "Ip".to_string(),
        meta: meta(),
        units: "A".to_string(),
    }
}

fn to_f64(s: &Sample) -> f64 {
    match s {
        Sample::Int16(v) => *v as f64,
        Sample::Float32(bits) => f32::from_bits(*bits) as f64,
    }
}

#[test]
fn rank_zero_is_unsupported() {
    let s = signal(vec![], blob("int16", &[5, 0]));
    assert_eq!(prepare_plot_data(&s), Err(PlotError::UnsupportedRank(0)));
}

#[test]
fn rank_two_is_unsupported() {
    // The axes are not even valid payloads: no decode is attempted.
    let bad = EncodedBlob {
        element_type: "nonsense".to_string(),
        encoding: "rot13".to_string(),
        value: "***".to_string(),
    };
    let s = signal(vec![dim(bad.clone()), dim(bad)], blob("int16", &[5, 0]));
    assert_eq!(prepare_plot_data(&s), Err(PlotError::UnsupportedRank(2)));
}

#[test]
fn float_axis_with_int_values() {
    let s = signal(vec![dim(blob("float32", &[0, 0, 128, 63]))], blob("int16", &[5, 0]));
    let (x, y) = prepare_plot_data_with_order(&s, ByteOrder::Little).unwrap();
    assert_eq!(x, vec![Sample::Float32(0x3f80_0000)]);
    assert_eq!(y, vec![Sample::Int16(5)]);
    let xs: Vec<f64> = x.iter().map(to_f64).collect();
    let ys: Vec<f64> = y.iter().map(to_f64).collect();
    assert_eq!((xs, ys), (vec![1.0], vec![5.0]));
}

#[test]
fn float_axis_with_int_values_native() {
    let axis: Vec<u8> = 1.0f32.to_ne_bytes().to_vec();
    let values: Vec<u8> = 5i16.to_ne_bytes().to_vec();
    let s = signal(vec![dim(blob("float32", &axis))], blob("int16", &values));
    let (x, y) = prepare_plot_data(&s).unwrap();
    let xs: Vec<f64> = x.iter().map(to_f64).collect();
    let ys: Vec<f64> = y.iter().map(to_f64).collect();
    assert_eq!((xs, ys), (vec![1.0], vec![5.0]));
}

#[test]
fn unknown_value_type_is_reported() {
    let s = signal(vec![dim(blob("float32", &[0, 0, 128, 63]))], blob("complex128", &[0; 16]));
    assert_eq!(
        prepare_plot_data(&s),
        Err(PlotError::UnknownDataType("complex128".to_string()))
    );
}

#[test]
fn axis_is_checked_before_values() {
    let s = signal(vec![dim(blob("float64", &[0; 8]))], blob("complex128", &[0; 16]));
    assert_eq!(
        prepare_plot_data(&s),
        Err(PlotError::UnknownDataType("float64".to_string()))
    );
    let s = signal(vec![dim(blob("float32", &[0, 0, 128]))], blob("complex128", &[0; 16]));
    assert_eq!(
        prepare_plot_data(&s),
        Err(PlotError::Decode(DecodeError::MisalignedLength { length: 3, width: 4 }))
    );
}

#[test]
fn other_encodings_are_rejected() {
    let mut data = blob("int16", &[5, 0]);
    data.encoding = "hex".to_string();
    let s = signal(vec![dim(blob("float32", &[0, 0, 128, 63]))], data);
    assert_eq!(
        prepare_plot_data(&s),
        Err(PlotError::UnsupportedEncoding("hex".to_string()))
    );
    let mut axis = blob("float32", &[0, 0, 128, 63]);
    axis.encoding = "base64url".to_string();
    let s = signal(vec![dim(axis)], blob("int16", &[5, 0]));
    assert!(prepare_plot_data(&s).is_ok());
}

#[test]
fn invalid_base64_is_an_encoding_error() {
    let mut data = blob("int16", &[5, 0]);
    data.value = "B$QA".to_string();
    let s = signal(vec![dim(blob("float32", &[0, 0, 128, 63]))], data);
    assert_eq!(prepare_plot_data(&s), Err(PlotError::EncodingError));
}

#[test]
fn misaligned_payload_is_a_decode_error() {
    let s = signal(vec![dim(blob("float32", &[0, 0, 128, 63]))], blob("int16", &[5, 0, 1]));
    assert_eq!(
        prepare_plot_data(&s),
        Err(PlotError::Decode(DecodeError::MisalignedLength { length: 3, width: 2 }))
    );
}

#[test]
fn lengths_must_agree() {
    let s = signal(
        vec![dim(blob("float32", &[0, 0, 128, 63, 0, 0, 0, 64]))],
        blob("int16", &[5, 0]),
    );
    assert_eq!(
        prepare_plot_data(&s),
        Err(PlotError::LengthMismatch { axis: 2, values: 1 })
    );
}

#[test]
fn blob_text_is_base64_decoded() {
    let b = EncodedBlob {
        element_type: "int16".to_string(),
        encoding: "base64".to_string(),
        value: "BQD__w==".to_string(),
    };
    assert_eq!(decode_blob_text(&b), Ok(vec![5, 0, 255, 255]));
    let empty = EncodedBlob { value: String::new(), ..b };
    assert_eq!(decode_blob_text(&empty), Ok(vec![]));
}

#[test]
fn both_texts_are_decoded_before_elements() {
    let mut data = blob("int16", &[5, 0]);
    data.value = "B!QA".to_string();
    let s = signal(vec![dim(blob("float32", &[0, 0, 128]))], data);
    assert_eq!(prepare_plot_data(&s), Err(PlotError::EncodingError));
    let mut data = blob("int16", &[5, 0]);
    data.encoding = "hex".to_string();
    let s = signal(vec![dim(blob("nonsense", &[0, 0, 128]))], data);
    assert_eq!(
        prepare_plot_data(&s),
        Err(PlotError::UnsupportedEncoding("hex".to_string()))
    );
}

#[test]
fn invalid_axis_is_reported_before_unknown_value_type() {
    let mut axis = blob("float32", &[0, 0, 128, 63]);
    axis.value = "A+AC".to_string();
    let s = signal(vec![dim(axis)], blob("complex128", &[0; 16]));
    assert_eq!(prepare_plot_data(&s), Err(PlotError::EncodingError));
    let s = signal(vec![dim(blob("uint8", &[1]))], blob("complex128", &[0; 16]));
    assert_eq!(
        prepare_plot_data(&s),
        Err(PlotError::UnknownDataType("uint8".to_string()))
    );
}

#[test]
fn payload_bytes_by_tag() {
    assert_eq!(
        decode_payload("int16", &[5, 0], ByteOrder::Little),
        Ok(vec![Sample::Int16(5)])
    );
    assert_eq!(
        decode_payload("uint8", &[5, 0], ByteOrder::Little),
        Err(PlotError::UnknownDataType("uint8".to_string()))
    );
}

#[test]
fn metadata_rows_in_field_order() {
    let rows = meta().rows();
    let expected: Vec<(String, String)> = vec![
        ("exp_number", "30420"),
        ("filename", "amc030420.nc"),
        ("format", "netcdf"),
        ("pass", "-1"),
        ("pass_date", "2023-01-01"),
        ("path", "/data"),
        ("signal_alias", "amc"),
        ("signal_name", "plasma_current"),
    ]
    .into_iter()
    .map(|(a, b)| (a.to_string(), b.to_string()))
    .collect();
    assert_eq!(rows, expected);
}
