//! The byte decoder: fixed-width windows of a byte buffer read as numbers.
use vstd::prelude::*;

use crate::text::str_equals;

verus! {

/// The order in which the bytes of one element are stored.
#[derive(Clone, Copy, Debug, PartialEq, Eq, Structural)]
pub enum ByteOrder {
    Little,
    Big,
}

/// The element formats that a payload may declare. This enum, with
/// `from_tag`, `width` and `read_sample`, is the one place where a format is
/// registered.
#[derive(Clone, Copy, Debug, PartialEq, Eq, Structural)]
pub enum ElementType {
    /// 16-bit two's complement signed integer.
    Int16,
    /// 32-bit IEEE-754 float, held as its bit pattern.
    Float32,
}

/// One decoded element. A float is kept as its IEEE-754 bit pattern, so that
/// decoding is an exact reinterpretation of the bytes.
#[derive(Clone, Copy, Debug, PartialEq, Eq, Structural)]
pub enum Sample {
    Int16(i16),
    Float32(u32),
}

#[derive(Clone, Copy, Debug, PartialEq, Eq, Structural)]
pub enum DecodeError {
    /// The buffer's length is not a multiple of the element width.
    MisalignedLength { length: usize, width: usize },
}

/// The element type that a tag names, if any.
pub open spec fn element_type_of(tag: Seq<char>) -> Option<ElementType> {
    if tag == "int16"@ {
        Some(ElementType::Int16)
    } else if tag == "float32"@ {
        Some(ElementType::Float32)
    } else {
        None
    }
}

/// The number of bytes that one element occupies.
pub open spec fn width_of(t: ElementType) -> nat {
    match t {
        ElementType::Int16 => 2,
        ElementType::Float32 => 4,
    }
}

/// Two bytes, in storage order, read as an unsigned word.
pub open spec fn word16(b0: u8, b1: u8, order: ByteOrder) -> u16 {
    match order {
        ByteOrder::Little => (b0 as u16 | ((b1 as u16) << 8u16)) as u16,
        ByteOrder::Big => (b1 as u16 | ((b0 as u16) << 8u16)) as u16,
    }
}

/// Four bytes, in storage order, read as an unsigned word.
pub open spec fn word32(b0: u8, b1: u8, b2: u8, b3: u8, order: ByteOrder) -> u32 {
    match order {
        ByteOrder::Little => (b0 as u32 | ((b1 as u32) << 8u32) | ((b2 as u32) << 16u32) | ((b3 as u32)
            << 24u32)) as u32,
        ByteOrder::Big => (b3 as u32 | ((b2 as u32) << 8u32) | ((b1 as u32) << 16u32) | ((b0 as u32)
            << 24u32)) as u32,
    }
}

/// The `i`-th element of `bytes`, read from the window that starts at
/// `i * width_of(t)`.
pub open spec fn sample_at(bytes: Seq<u8>, t: ElementType, order: ByteOrder, i: int) -> Sample {
    match t {
        ElementType::Int16 => Sample::Int16(
            #[verifier::truncate] (word16(bytes[2 * i], bytes[2 * i + 1], order) as i16),
        ),
        ElementType::Float32 => Sample::Float32(
            word32(bytes[4 * i], bytes[4 * i + 1], bytes[4 * i + 2], bytes[4 * i + 3], order),
        ),
    }
}

/// What decoding `bytes` as elements of type `t` gives: the elements in the
/// order of their windows, or a failure when the length is not a multiple of
/// the width.
pub open spec fn decoded(bytes: Seq<u8>, t: ElementType, order: ByteOrder) -> Result<
    Seq<Sample>,
    DecodeError,
> {
    if bytes.len() % width_of(t) != 0 {
        Err(DecodeError::MisalignedLength { length: bytes.len() as usize, width: width_of(t) as usize })
    } else {
        Ok(Seq::new(bytes.len() / width_of(t), |i: int| sample_at(bytes, t, order, i)))
    }
}

impl ElementType {
    /// Looks up the element type that a tag such as `"int16"` names.
    pub fn from_tag(tag: &str) -> (r: Option<ElementType>)
        ensures
            r == element_type_of(tag@),
    {
        proof {
            reveal_strlit("int16");
            reveal_strlit("float32");
        }
        if str_equals(tag, "int16") {
            Some(ElementType::Int16)
        } else if str_equals(tag, "float32") {
            Some(ElementType::Float32)
        } else {
            None
        }
    }

    /// The number of bytes that one element occupies.
    pub fn width(self) -> (r: usize)
        ensures
            r == width_of(self),
    {
        match self {
            ElementType::Int16 => 2,
            ElementType::Float32 => 4,
        }
    }

    /// Reads the `i`-th element of `bytes`.
    pub fn read_sample(self, bytes: &[u8], i: usize, order: ByteOrder) -> (r: Sample)
        requires
            (i + 1) * width_of(self) <= bytes@.len(),
        ensures
            r == sample_at(bytes@, self, order, i as int),
    {
        let len = bytes.len();
        match self {
            ElementType::Int16 => {
                assert(width_of(self) == 2 && 2 * i + 1 < len);
                let p = 2 * i;
                let (b0, b1) = (bytes[p] as u16, bytes[p + 1] as u16);
                let w: u16 = match order {
                    ByteOrder::Little => b0 | (b1 << 8u16),
                    ByteOrder::Big => b1 | (b0 << 8u16),
                };
                Sample::Int16(#[verifier::truncate] (w as i16))
            },
            ElementType::Float32 => {
                assert(width_of(self) == 4 && 4 * i + 3 < len);
                let p = 4 * i;
                let (b0, b1, b2, b3) = (
                    bytes[p] as u32,
                    bytes[p + 1] as u32,
                    bytes[p + 2] as u32,
                    bytes[p + 3] as u32,
                );
                let w: u32 = match order {
                    ByteOrder::Little => b0 | (b1 << 8u32) | (b2 << 16u32) | (b3 << 24u32),
                    ByteOrder::Big => b3 | (b2 << 8u32) | (b1 << 16u32) | (b0 << 24u32),
                };
                Sample::Float32(w)
            },
        }
    }
}

/// Decodes `bytes` as a sequence of `element` values stored in `order`.
pub fn decode_with_order(bytes: &[u8], element: ElementType, order: ByteOrder) -> (r: Result<
    Vec<Sample>,
    DecodeError,
>)
    ensures
        decode_result_is(r, decoded(bytes@, element, order)),
{
    let w = element.width();
    if bytes.len() % w != 0 {
        return Err(DecodeError::MisalignedLength { length: bytes.len(), width: w });
    }
    let n = bytes.len() / w;
    let mut out: Vec<Sample> = Vec::new();
    let mut i: usize = 0;
    while i < n
        invariant
            w == width_of(element),
            n == bytes@.len() / width_of(element),
            i <= n,
            out@ =~= Seq::new(i as nat, |k: int| sample_at(bytes@, element, order, k)),
        decreases n - i,
    {
        proof {
            lemma_window_in_bounds(i as int, n as int, w as int, bytes@.len() as int);
        }
        let s = element.read_sample(bytes, i, order);
        out.push(s);
        i += 1;
    }
    Ok(out)
}

/// `r` is the executable form of the decoding result `d`.
pub open spec fn decode_result_is(
    r: Result<Vec<Sample>, DecodeError>,
    d: Result<Seq<Sample>, DecodeError>,
) -> bool {
    match r {
        Ok(v) => d == Ok::<Seq<Sample>, DecodeError>(v@),
        Err(e) => d == Err::<Seq<Sample>, DecodeError>(e),
    }
}

/// Relies on u16::from_ne_bytes: the bytes `[1, 0]` read in the target's
/// native byte order give 1 on a little-endian target and 256 on a big-endian
/// one.
#[verifier::external_body]
fn native_probe() -> (r: u16)
    ensures
        r == 1 || r == 256,
{
    u16::from_ne_bytes([1, 0])
}

impl ByteOrder {
    /// The byte order of the target this library runs on.
    pub fn native() -> (r: ByteOrder) {
        if native_probe() == 1 {
            ByteOrder::Little
        } else {
            ByteOrder::Big
        }
    }
}

/// Decodes `bytes` as a sequence of `element` values stored in native byte
/// order. The result has one element per window of `width` bytes; a length
/// that is not a multiple of the width fails, with no partial output.
pub fn decode(bytes: &[u8], element: ElementType) -> (r: Result<Vec<Sample>, DecodeError>)
    ensures
        exists|o: ByteOrder| decode_result_is(r, decoded(bytes@, element, o)),
        r is Ok <==> bytes@.len() % width_of(element) == 0,
        r matches Ok(v) ==> v@.len() == bytes@.len() / width_of(element),
        r matches Err(e) ==> e == (DecodeError::MisalignedLength {
            length: bytes@.len() as usize,
            width: width_of(element) as usize,
        }),
{
    let order = ByteOrder::native();
    let r = decode_with_order(bytes, element, order);
    assert(decode_result_is(r, decoded(bytes@, element, order)));
    r
}

proof fn lemma_window_in_bounds(i: int, n: int, w: int, len: int)
    requires
        0 <= i < n,
        w > 0,
        n == len / w,
        len >= 0,
    ensures
        (i + 1) * w <= len,
{
    assert((i + 1) * w <= n * w) by (nonlinear_arith)
        requires
            i + 1 <= n,
            w > 0,
    ;
    assert(n * w <= len) by (nonlinear_arith)
        requires
            n == len / w,
            w > 0,
            len >= 0,
    ;
}

/// The four bytes that store `x` in `order`.
pub open spec fn word32_bytes(x: u32, order: ByteOrder) -> Seq<u8> {
    let le = seq![
        (x & 0xff) as u8,
        ((x >> 8u32) & 0xff) as u8,
        ((x >> 16u32) & 0xff) as u8,
        ((x >> 24u32) & 0xff) as u8,
    ];
    match order {
        ByteOrder::Little => le,
        ByteOrder::Big => seq![le[3], le[2], le[1], le[0]],
    }
}

/// The bytes that store the float bit patterns `vals` one after the other,
/// each in `order`.
pub open spec fn float32_bytes(vals: Seq<u32>, order: ByteOrder) -> Seq<u8>
    decreases vals.len(),
{
    if vals.len() == 0 {
        Seq::empty()
    } else {
        float32_bytes(vals.drop_last(), order) + word32_bytes(vals.last(), order)
    }
}

proof fn lemma_word32_round_trip(x: u32)
    ensures
        word32(
            (x & 0xff) as u8,
            ((x >> 8u32) & 0xff) as u8,
            ((x >> 16u32) & 0xff) as u8,
            ((x >> 24u32) & 0xff) as u8,
            ByteOrder::Little,
        ) == x,
{
    assert((((x & 0xff) as u8) as u32 | ((((x >> 8u32) & 0xff) as u8) as u32) << 8u32 | ((((x
        >> 16u32) & 0xff) as u8) as u32) << 16u32 | ((((x >> 24u32) & 0xff) as u8) as u32)
        << 24u32) == x) by (bit_vector);
}

proof fn lemma_float32_bytes_layout(vals: Seq<u32>, order: ByteOrder)
    ensures
        float32_bytes(vals, order).len() == 4 * vals.len(),
        forall|k: int, j: int|
            0 <= k < vals.len() && 0 <= j < 4 ==> #[trigger] float32_bytes(vals, order)[4 * k + j]
                == word32_bytes(vals[k], order)[j],
    decreases vals.len(),
{
    if vals.len() > 0 {
        let init = vals.drop_last();
        lemma_float32_bytes_layout(init, order);
        assert forall|k: int, j: int| 0 <= k < vals.len() && 0 <= j < 4 implies #[trigger] float32_bytes(
            vals,
            order,
        )[4 * k + j] == word32_bytes(vals[k], order)[j] by {
            if k < init.len() {
                assert(float32_bytes(init, order)[4 * k + j] == word32_bytes(init[k], order)[j]);
            }
        }
    }
}

/// Storing float bit patterns one after another in a byte order and decoding
/// the bytes as `Float32` in that same order gives back exactly those bit
/// patterns, in their order.
pub proof fn lemma_float32_round_trip(vals: Seq<u32>, order: ByteOrder)
    ensures
        decoded(float32_bytes(vals, order), ElementType::Float32, order) == Ok::<
            Seq<Sample>,
            DecodeError,
        >(vals.map_values(|v: u32| Sample::Float32(v))),
{
    let bytes = float32_bytes(vals, order);
    lemma_float32_bytes_layout(vals, order);
    assert(bytes.len() % 4 == 0);
    let s = Seq::new(bytes.len() / 4, |i: int| sample_at(bytes, ElementType::Float32, order, i));
    assert forall|i: int| 0 <= i < vals.len() implies s[i] == Sample::Float32(vals[i]) by {
        let x = vals[i];
        assert(bytes[4 * i + 0] == word32_bytes(x, order)[0]);
        assert(bytes[4 * i + 1] == word32_bytes(x, order)[1]);
        assert(bytes[4 * i + 2] == word32_bytes(x, order)[2]);
        assert(bytes[4 * i + 3] == word32_bytes(x, order)[3]);
        lemma_word32_round_trip(x);
    }
    assert(s =~= vals.map_values(|v: u32| Sample::Float32(v)));
}

} // verus!
