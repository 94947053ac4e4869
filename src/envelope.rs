//! The signal envelope and the dispatch that turns it into a pair of sample
//! sequences ready to plot.
use vstd::prelude::*;

use crate::decode::{
    decode_with_order, decoded, element_type_of, ByteOrder, DecodeError, ElementType, Sample,
};
use crate::text::{decimal, decimal_string, str_equals};

verus! {

/// A binary payload carried as text: its element format, the name of its
/// text encoding, and the encoded bytes.
#[derive(Clone, Debug)]
pub struct EncodedBlob {
    pub element_type: String,
    pub encoding: String,
    pub value: String,
}

/// One coordinate axis of a signal, with its own sample values.
#[derive(Clone, Debug)]
pub struct Dimension {
    pub kind_tag: String,
    pub data: EncodedBlob,
    pub label: String,
    pub units: String,
}

/// Provenance of a signal, shown as it is.
#[derive(Clone, Debug)]
pub struct Metadata {
    pub exp_number: i32,
    pub filename: String,
    pub format: String,
    pub pass: i32,
    pub pass_date: String,
    pub path: String,
    pub signal_alias: String,
    pub signal_name: String,
}

/// The rows in which metadata is shown: each field's name beside its value,
/// integers in decimal.
pub open spec fn metadata_rows(m: Metadata) -> Seq<(Seq<char>, Seq<char>)> {
    seq![
        ("exp_number"@, decimal(m.exp_number as int)),
        ("filename"@, m.filename@),
        ("format"@, m.format@),
        ("pass"@, decimal(m.pass as int)),
        ("pass_date"@, m.pass_date@),
        ("path"@, m.path@),
        ("signal_alias"@, m.signal_alias@),
        ("signal_name"@, m.signal_name@),
    ]
}

impl Metadata {
    /// The metadata as (field name, value) rows, in field order.
    pub fn rows(&self) -> (r: Vec<(String, String)>)
        ensures
            r.deep_view() == metadata_rows(*self),
    {
        let mut r: Vec<(String, String)> = Vec::new();
        r.push(("exp_number".to_owned(), decimal_string(self.exp_number)));
        r.push(("filename".to_owned(), self.filename.clone()));
        r.push(("format".to_owned(), self.format.clone()));
        r.push(("pass".to_owned(), decimal_string(self.pass)));
        r.push(("pass_date".to_owned(), self.pass_date.clone()));
        r.push(("path".to_owned(), self.path.clone()));
        r.push(("signal_alias".to_owned(), self.signal_alias.clone()));
        r.push(("signal_name".to_owned(), self.signal_name.clone()));
        assert(r.deep_view() =~= metadata_rows(*self));
        r
    }
}

/// One signal: its dependent values in `data`, one entry of `dims` per
/// independent axis, and its metadata.
#[derive(Clone, Debug)]
pub struct SignalEnvelope {
    pub kind_tag: String,
    pub data: EncodedBlob,
    pub dims: Vec<Dimension>,
    pub label: String,
    pub meta: Metadata,
    pub units: String,
}

#[derive(Clone, Debug, PartialEq, Eq)]
pub enum PlotError {
    /// The signal does not have exactly one axis; holds the number it has.
    UnsupportedRank(usize),
    /// A payload names a text encoding other than URL-safe base64.
    UnsupportedEncoding(String),
    /// A payload's text is not valid URL-safe base64.
    EncodingError,
    /// A payload names an element format that is not known.
    UnknownDataType(String),
    /// A payload's bytes do not split into whole elements.
    Decode(DecodeError),
    /// The axis and the values have different numbers of elements.
    LengthMismatch { axis: usize, values: usize },
}

/// `PlotError` with its strings seen as character sequences.
pub enum PlotErrorView {
    UnsupportedRank(nat),
    UnsupportedEncoding(Seq<char>),
    EncodingError,
    UnknownDataType(Seq<char>),
    Decode(DecodeError),
    LengthMismatch { axis: nat, values: nat },
}

impl View for PlotError {
    type V = PlotErrorView;

    open spec fn view(&self) -> PlotErrorView {
        match self {
            PlotError::UnsupportedRank(n) => PlotErrorView::UnsupportedRank(*n as nat),
            PlotError::UnsupportedEncoding(t) => PlotErrorView::UnsupportedEncoding(t@),
            PlotError::EncodingError => PlotErrorView::EncodingError,
            PlotError::UnknownDataType(t) => PlotErrorView::UnknownDataType(t@),
            PlotError::Decode(e) => PlotErrorView::Decode(*e),
            PlotError::LengthMismatch { axis, values } => PlotErrorView::LengthMismatch {
                axis: *axis as nat,
                values: *values as nat,
            },
        }
    }
}

/// The bytes that URL-safe base64 text decodes to, or `None` where the text
/// is not valid URL-safe base64.
pub uninterp spec fn url_safe_base64_decoded(text: Seq<char>) -> Option<Seq<u8>>;

/// Relies on `base64::decode_config` with `base64::URL_SAFE`: it decodes the
/// text, or fails, depending on the text alone; empty text decodes to no
/// bytes.
#[verifier::external_body]
fn decode_url_safe_base64(text: &str) -> (r: Option<Vec<u8>>)
    ensures
        r is Some <==> url_safe_base64_decoded(text@) is Some,
        r matches Some(b) ==> url_safe_base64_decoded(text@) == Some(b@),
        r matches Some(b) ==> (text@.len() == 0 ==> b@.len() == 0),
        text@.len() == 0 ==> r is Some,
{
    base64::decode_config(text, base64::URL_SAFE).ok()
}

/// The encoding names under which a payload is read as URL-safe base64.
pub open spec fn is_url_safe_base64_tag(tag: Seq<char>) -> bool {
    tag == "base64"@ || tag == "base64url"@
}

/// The samples that `bytes` hold as elements of the format named `tag`.
pub open spec fn payload_samples(tag: Seq<char>, bytes: Seq<u8>, order: ByteOrder) -> Result<
    Seq<Sample>,
    PlotErrorView,
> {
    match element_type_of(tag) {
        None => Err(PlotErrorView::UnknownDataType(tag)),
        Some(t) => match decoded(bytes, t, order) {
            Ok(s) => Ok(s),
            Err(e) => Err(PlotErrorView::Decode(e)),
        },
    }
}

/// The bytes that a blob's text stands for: its encoding name is checked
/// first, then its text is decoded.
pub open spec fn blob_bytes(blob: EncodedBlob) -> Result<Seq<u8>, PlotErrorView> {
    if !is_url_safe_base64_tag(blob.encoding@) {
        Err(PlotErrorView::UnsupportedEncoding(blob.encoding@))
    } else {
        match url_safe_base64_decoded(blob.value@) {
            None => Err(PlotErrorView::EncodingError),
            Some(bytes) => Ok(bytes),
        }
    }
}

/// The plot data of a signal. Only a signal with exactly one axis is
/// plotted. The text of the axis and then that of the values is decoded to
/// bytes; after that the axis bytes and then the value bytes are read as
/// elements of their formats; the two must have the same length.
pub open spec fn plot_data(signal: SignalEnvelope, order: ByteOrder) -> Result<
    (Seq<Sample>, Seq<Sample>),
    PlotErrorView,
> {
    if signal.dims@.len() != 1 {
        Err(PlotErrorView::UnsupportedRank(signal.dims@.len()))
    } else {
        let axis = signal.dims@[0].data;
        match blob_bytes(axis) {
            Err(e) => Err(e),
            Ok(ab) => match blob_bytes(signal.data) {
                Err(e) => Err(e),
                Ok(vb) => match payload_samples(axis.element_type@, ab, order) {
                    Err(e) => Err(e),
                    Ok(x) => match payload_samples(signal.data.element_type@, vb, order) {
                        Err(e) => Err(e),
                        Ok(y) => if x.len() != y.len() {
                            Err(PlotErrorView::LengthMismatch { axis: x.len(), values: y.len() })
                        } else {
                            Ok((x, y))
                        },
                    },
                },
            },
        }
    }
}

/// `r` is the executable form of the sample result `m`.
pub open spec fn samples_result_is(
    r: Result<Vec<Sample>, PlotError>,
    m: Result<Seq<Sample>, PlotErrorView>,
) -> bool {
    match r {
        Ok(v) => m == Ok::<Seq<Sample>, PlotErrorView>(v@),
        Err(e) => m == Err::<Seq<Sample>, PlotErrorView>(e@),
    }
}

/// `r` is the executable form of the byte result `m`.
pub open spec fn bytes_result_is(
    r: Result<Vec<u8>, PlotError>,
    m: Result<Seq<u8>, PlotErrorView>,
) -> bool {
    match r {
        Ok(v) => m == Ok::<Seq<u8>, PlotErrorView>(v@),
        Err(e) => m == Err::<Seq<u8>, PlotErrorView>(e@),
    }
}

/// `r` is the executable form of the plot result `m`.
pub open spec fn plot_result_is(
    r: Result<(Vec<Sample>, Vec<Sample>), PlotError>,
    m: Result<(Seq<Sample>, Seq<Sample>), PlotErrorView>,
) -> bool {
    match r {
        Ok((x, y)) => m == Ok::<(Seq<Sample>, Seq<Sample>), PlotErrorView>((x@, y@)),
        Err(e) => m == Err::<(Seq<Sample>, Seq<Sample>), PlotErrorView>(e@),
    }
}

/// Reads already decoded payload bytes as elements of the format named
/// `tag`, stored in `order`.
pub fn decode_payload(tag: &str, bytes: &[u8], order: ByteOrder) -> (r: Result<
    Vec<Sample>,
    PlotError,
>)
    ensures
        samples_result_is(r, payload_samples(tag@, bytes@, order)),
{
    match ElementType::from_tag(tag) {
        None => Err(PlotError::UnknownDataType(tag.to_owned())),
        Some(t) => match decode_with_order(bytes, t, order) {
            Ok(v) => Ok(v),
            Err(e) => Err(PlotError::Decode(e)),
        },
    }
}

/// Decodes the text of one blob to the bytes it stands for.
pub fn decode_blob_text(blob: &EncodedBlob) -> (r: Result<Vec<u8>, PlotError>)
    ensures
        bytes_result_is(r, blob_bytes(*blob)),
{
    proof {
        reveal_strlit("base64");
        reveal_strlit("base64url");
    }
    if !(str_equals(blob.encoding.as_str(), "base64") || str_equals(
        blob.encoding.as_str(),
        "base64url",
    )) {
        return Err(PlotError::UnsupportedEncoding(blob.encoding.clone()));
    }
    match decode_url_safe_base64(blob.value.as_str()) {
        None => Err(PlotError::EncodingError),
        Some(bytes) => Ok(bytes),
    }
}

/// Turns a signal into its axis samples and value samples, elements stored
/// in `order`.
pub fn prepare_plot_data_with_order(signal: &SignalEnvelope, order: ByteOrder) -> (r: Result<
    (Vec<Sample>, Vec<Sample>),
    PlotError,
>)
    ensures
        plot_result_is(r, plot_data(*signal, order)),
{
    let rank = signal.dims.len();
    if rank != 1 {
        return Err(PlotError::UnsupportedRank(rank));
    }
    let axis = &signal.dims[0].data;
    let axis_bytes = match decode_blob_text(axis) {
        Ok(b) => b,
        Err(e) => return Err(e),
    };
    let value_bytes = match decode_blob_text(&signal.data) {
        Ok(b) => b,
        Err(e) => return Err(e),
    };
    let x = match decode_payload(axis.element_type.as_str(), axis_bytes.as_slice(), order) {
        Ok(x) => x,
        Err(e) => return Err(e),
    };
    let y = match decode_payload(signal.data.element_type.as_str(), value_bytes.as_slice(), order) {
        Ok(y) => y,
        Err(e) => return Err(e),
    };
    if x.len() != y.len() {
        return Err(PlotError::LengthMismatch { axis: x.len(), values: y.len() });
    }
    Ok((x, y))
}

/// Turns a signal into its axis samples and value samples, elements stored
/// in native byte order. Only a signal with exactly one axis is plotted.
pub fn prepare_plot_data(signal: &SignalEnvelope) -> (r: Result<
    (Vec<Sample>, Vec<Sample>),
    PlotError,
>)
    ensures
        exists|o: ByteOrder| plot_result_is(r, plot_data(*signal, o)),
        signal.dims@.len() != 1 ==> r == Err::<(Vec<Sample>, Vec<Sample>), PlotError>(
            PlotError::UnsupportedRank(signal.dims@.len() as usize),
        ),
        r matches Ok((x, y)) ==> x@.len() == y@.len(),
{
    let order = ByteOrder::native();
    let r = prepare_plot_data_with_order(signal, order);
    assert(plot_result_is(r, plot_data(*signal, order)));
    r
}

/// A signal with one axis whose value format is not known fails with
/// `UnknownDataType` naming that format, unless the axis fails first: once
/// both texts decode, the axis elements are read before the value format is
/// looked at, so an axis that does not read is reported instead.
pub proof fn lemma_unknown_value_type_reported(signal: SignalEnvelope, order: ByteOrder)
    requires
        signal.dims@.len() == 1,
        element_type_of(signal.data.element_type@) is None,
        blob_bytes(signal.dims@[0].data) is Ok,
        blob_bytes(signal.data) is Ok,
    ensures
        ({
            let axis = signal.dims@[0].data;
            let axis_samples = payload_samples(axis.element_type@, blob_bytes(axis)->Ok_0, order);
            &&& axis_samples is Ok ==> plot_data(signal, order) == Err::<
                (Seq<Sample>, Seq<Sample>),
                PlotErrorView,
            >(PlotErrorView::UnknownDataType(signal.data.element_type@))
            &&& axis_samples matches Err(e) ==> plot_data(signal, order) == Err::<
                (Seq<Sample>, Seq<Sample>),
                PlotErrorView,
            >(e)
        }),
{
}

} // verus!
