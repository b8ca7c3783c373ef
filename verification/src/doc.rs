//! The document builder and the finished document.
//!
//! A `DocBuilder` owns a growing byte buffer whose first four bytes are
//! reserved for the length header. Each append writes one element: a tag
//! byte, the key's UTF-8 bytes with a zero terminator, then the payload.
//! `finish` appends the end-of-document byte, back-fills the header with the
//! total length (little-endian), and yields an immutable `Doc`.

use crate::element::ElementType;
use crate::element::tag_of;
use vstd::bytes::*;
use vstd::prelude::*;
use vstd::string::*;

verus! {

/// A byte string followed by its single zero terminator.
pub open spec fn spec_cstring(b: Seq<u8>) -> Seq<u8> {
    b + seq![0u8]
}

/// The two's-complement bit pattern of an `i32`, as a `u32`.
pub open spec fn u32_bits_of_i32(v: i32) -> u32 {
    if v >= 0 {
        v as u32
    } else {
        (v as int + 0x1_0000_0000) as u32
    }
}

/// The two's-complement bit pattern of an `i64`, as a `u64`.
pub open spec fn u64_bits_of_i64(v: i64) -> u64 {
    if v >= 0 {
        v as u64
    } else {
        (v as int + 0x1_0000_0000_0000_0000) as u64
    }
}

/// The four-byte little-endian encoding of an `i32`.
pub open spec fn spec_i32_le_bytes(v: i32) -> Seq<u8> {
    spec_u32_to_le_bytes(u32_bits_of_i32(v))
}

/// The eight-byte little-endian encoding of an `i64`.
pub open spec fn spec_i64_le_bytes(v: i64) -> Seq<u8> {
    spec_u64_to_le_bytes(u64_bits_of_i64(v))
}

/// One string element: tag, zero-terminated key, little-endian int32 holding
/// the value's byte length plus one, the value's bytes, one zero terminator.
pub open spec fn spec_string_elem(key: Seq<u8>, value: Seq<u8>) -> Seq<u8> {
    seq![tag_of(ElementType::String)] + spec_cstring(key)
        + spec_u32_to_le_bytes((value.len() + 1) as u32) + spec_cstring(value)
}

/// One boolean element: tag, zero-terminated key, one payload byte
/// (`0x01` for true, `0x00` for false).
pub open spec fn spec_bool_elem(key: Seq<u8>, value: bool) -> Seq<u8> {
    seq![tag_of(ElementType::Bool)] + spec_cstring(key) + seq![
        if value {
            1u8
        } else {
            0u8
        },
    ]
}

/// One null element: tag and zero-terminated key, empty payload.
pub open spec fn spec_null_elem(key: Seq<u8>) -> Seq<u8> {
    seq![tag_of(ElementType::Null)] + spec_cstring(key)
}

/// One 32-bit integer element: tag, zero-terminated key, four little-endian
/// payload bytes.
pub open spec fn spec_int32_elem(key: Seq<u8>, value: i32) -> Seq<u8> {
    seq![tag_of(ElementType::Int32)] + spec_cstring(key) + spec_i32_le_bytes(value)
}

/// One 64-bit integer element: tag, zero-terminated key, eight little-endian
/// payload bytes.
pub open spec fn spec_int64_elem(key: Seq<u8>, value: i64) -> Seq<u8> {
    seq![tag_of(ElementType::Int64)] + spec_cstring(key) + spec_i64_le_bytes(value)
}

/// One 64-bit float element, given as its IEEE 754 bit pattern: tag,
/// zero-terminated key, eight little-endian payload bytes.
pub open spec fn spec_float64_elem(key: Seq<u8>, bits: u64) -> Seq<u8> {
    seq![tag_of(ElementType::Float64)] + spec_cstring(key) + spec_u64_to_le_bytes(bits)
}

/// The two's-complement bit pattern of an `i32`.
fn i32_bits(v: i32) -> (r: u32)
    ensures
        r == u32_bits_of_i32(v),
{
    if v >= 0 {
        v as u32
    } else {
        ((v as i64) + 0x1_0000_0000i64) as u32
    }
}

/// The two's-complement bit pattern of an `i64`.
fn i64_bits(v: i64) -> (r: u64)
    ensures
        r == u64_bits_of_i64(v),
{
    if v >= 0 {
        v as u64
    } else {
        ((v as i128) + 0x1_0000_0000_0000_0000i128) as u64
    }
}

/// Append a single byte.
fn write_byte(v: &mut Vec<u8>, b: u8)
    ensures
        final(v)@ == old(v)@ + seq![b],
{
    v.push(b);
    proof {
        assert(final(v)@ =~= old(v)@ + seq![b]);
    }
}

/// Append an element type's tag byte.
fn write_type(v: &mut Vec<u8>, t: ElementType)
    ensures
        final(v)@ == old(v)@ + seq![tag_of(t)],
{
    write_byte(v, t.tag());
}

/// Append every byte of a slice, in order.
fn write_bytes(v: &mut Vec<u8>, b: &[u8])
    ensures
        final(v)@ == old(v)@ + b@,
{
    let n: usize = b.len();
    let mut i: usize = 0;
    while i < n
        invariant
            i <= n,
            n == b@.len(),
            v@ == old(v)@ + b@.subrange(0, i as int),
        decreases n - i,
    {
        let x = b[i];
        v.push(x);
        i += 1;
        proof {
            assert(v@ =~= old(v)@ + b@.subrange(0, i as int));
        }
    }
    proof {
        assert(b@.subrange(0, n as int) =~= b@);
    }
}

/// Append a key or string value as UTF-8 bytes followed by one zero byte.
fn write_cstring(v: &mut Vec<u8>, s: &str)
    ensures
        final(v)@ == old(v)@ + spec_cstring(s.spec_bytes()),
{
    write_bytes(v, s.as_bytes());
    write_byte(v, 0u8);
    proof {
        assert(final(v)@ =~= old(v)@ + spec_cstring(s.spec_bytes()));
    }
}

/// Append the four little-endian bytes of a `u32`.
fn write_uint32(v: &mut Vec<u8>, val: u32)
    ensures
        final(v)@ == old(v)@ + spec_u32_to_le_bytes(val),
{
    let bs = u32_to_le_bytes(val);
    write_bytes(v, bs.as_slice());
}

/// Append the four little-endian bytes of an `i32`.
fn write_int32(v: &mut Vec<u8>, val: i32)
    ensures
        final(v)@ == old(v)@ + spec_i32_le_bytes(val),
{
    write_uint32(v, i32_bits(val));
}

/// Append the eight little-endian bytes of a `u64`.
fn write_uint64(v: &mut Vec<u8>, val: u64)
    ensures
        final(v)@ == old(v)@ + spec_u64_to_le_bytes(val),
{
    let bs = u64_to_le_bytes(val);
    write_bytes(v, bs.as_slice());
}

/// Append the eight little-endian bytes of an `i64`.
fn write_int64(v: &mut Vec<u8>, val: i64)
    ensures
        final(v)@ == old(v)@ + spec_i64_le_bytes(val),
{
    write_uint64(v, i64_bits(val));
}

/// Reserve the length header: four zero bytes at the buffer's tail.
fn reserve_length(v: &mut Vec<u8>)
    ensures
        final(v)@ == old(v)@ + seq![0u8, 0u8, 0u8, 0u8],
{
    write_byte(v, 0u8);
    write_byte(v, 0u8);
    write_byte(v, 0u8);
    write_byte(v, 0u8);
    proof {
        assert(final(v)@ =~= old(v)@ + seq![0u8, 0u8, 0u8, 0u8]);
    }
}

/// Overwrite the first four bytes in place with the little-endian encoding
/// of `length`; every later byte is kept.
fn set_length(v: &mut Vec<u8>, length: usize)
    requires
        old(v)@.len() >= 4,
        length <= u32::MAX,
    ensures
        final(v)@ == spec_u32_to_le_bytes(length as u32) + old(v)@.subrange(
            4,
            old(v)@.len() as int,
        ),
{
    let bs = u32_to_le_bytes(length as u32);
    let b0 = bs[0];
    let b1 = bs[1];
    let b2 = bs[2];
    let b3 = bs[3];
    v[0] = b0;
    v[1] = b1;
    v[2] = b2;
    v[3] = b3;
    proof {
        assert(final(v)@ =~= spec_u32_to_le_bytes(length as u32) + old(v)@.subrange(
            4,
            old(v)@.len() as int,
        ));
    }
}

/// Why a byte buffer was rejected as a document.
#[derive(Clone, Copy, Debug, PartialEq, Eq, Structural)]
pub enum DocError {
    /// The buffer is shorter than the four-byte length header.
    TooShort,
    /// The length header does not equal the buffer's byte length.
    LengthMismatch,
}

/// A finished, immutable BSON document: one contiguous byte buffer whose
/// first four bytes, read as a little-endian `u32`, equal its byte length.
#[derive(Debug)]
pub struct Doc {
    data: Vec<u8>,
}

impl View for Doc {
    type V = Seq<u8>;

    closed spec fn view(&self) -> Seq<u8> {
        self.data@
    }
}

impl Doc {
    /// The framing invariant: the length header is present and equals the
    /// buffer's exact byte length. It holds of every `Doc` value.
    #[verifier::type_invariant]
    pub open spec fn wf(self) -> bool {
        &&& self@.len() >= 4
        &&& spec_u32_from_le_bytes(self@.subrange(0, 4)) == self@.len()
    }

    /// The document's total byte length.
    pub fn len(&self) -> (r: usize)
        ensures
            r == self@.len(),
    {
        self.data.len()
    }

    /// Read-only access to the document's bytes.
    pub fn as_slice(&self) -> (r: &[u8])
        ensures
            r@ == self@,
    {
        self.data.as_slice()
    }

    /// Wrap an externally supplied byte buffer, checking that its length
    /// header equals its actual byte length. Succeeds exactly on buffers
    /// that satisfy the framing invariant; no other structure is validated.
    pub fn from_bytes(v: Vec<u8>) -> (r: Result<Doc, DocError>)
        ensures
            r is Ok <==> v@.len() >= 4 && spec_u32_from_le_bytes(v@.subrange(0, 4)) == v@.len(),
            r matches Ok(d) ==> d@ == v@ && d.wf(),
            v@.len() < 4 ==> r == Err::<Doc, DocError>(DocError::TooShort),
            v@.len() >= 4 && spec_u32_from_le_bytes(v@.subrange(0, 4)) != v@.len() ==> r
                == Err::<Doc, DocError>(DocError::LengthMismatch),
    {
        if v.len() < 4 {
            return Err(DocError::TooShort);
        }
        let header = u32_from_le_bytes(vstd::slice::slice_subrange(v.as_slice(), 0, 4));
        if header as usize == v.len() {
            Ok(Doc { data: v })
        } else {
            Err(DocError::LengthMismatch)
        }
    }
}

/// An open, single-use accumulator for one BSON document. Created with the
/// four header bytes reserved as zeros; each append adds one encoded element
/// at the tail; `finish` consumes the builder, so no append and no second
/// `finish` can be issued on a finished builder — such misuse is rejected at
/// compile time.
pub struct DocBuilder {
    data: Vec<u8>,
}

impl View for DocBuilder {
    type V = Seq<u8>;

    closed spec fn view(&self) -> Seq<u8> {
        self.data@
    }
}

impl DocBuilder {
    /// An open builder always holds at least the reserved header bytes.
    #[verifier::type_invariant]
    pub open spec fn inv(self) -> bool {
        self@.len() >= 4
    }

    /// A fresh builder: an empty document buffer with the four-byte length
    /// header reserved as zeros.
    pub fn new() -> (r: DocBuilder)
        ensures
            r@ == seq![0u8, 0u8, 0u8, 0u8],
    {
        let mut data = Vec::new();
        reserve_length(&mut data);
        proof {
            assert(data@ =~= seq![0u8, 0u8, 0u8, 0u8]);
        }
        DocBuilder { data }
    }

    /// As `new`, with the buffer's capacity reserved up front.
    pub fn with_capacity(capacity: usize) -> (r: DocBuilder)
        ensures
            r@ == seq![0u8, 0u8, 0u8, 0u8],
    {
        let mut data = Vec::with_capacity(capacity);
        reserve_length(&mut data);
        proof {
            assert(data@ =~= seq![0u8, 0u8, 0u8, 0u8]);
        }
        DocBuilder { data }
    }

    /// Append one string element. The key's and value's bytes are written as
    /// given; a key holding a zero byte yields an ambiguous document, which
    /// is preserved, not rejected.
    pub fn append_string(self, key: &str, value: &str) -> (r: Self)
        requires
            value.spec_bytes().len() + 1 <= i32::MAX,
        ensures
            r@ == self@ + spec_string_elem(key.spec_bytes(), value.spec_bytes()),
    {
        proof {
            use_type_invariant(&self);
        }
        let mut data = self.data;
        write_type(&mut data, ElementType::String);
        write_cstring(&mut data, key);
        write_int32(&mut data, value.len() as i32 + 1);
        write_cstring(&mut data, value);
        proof {
            assert(data@ =~= self@ + spec_string_elem(key.spec_bytes(), value.spec_bytes()));
        }
        DocBuilder { data }
    }

    /// Append one boolean element: payload byte `0x01` for true, `0x00` for
    /// false.
    pub fn append_bool(self, key: &str, value: bool) -> (r: Self)
        ensures
            r@ == self@ + spec_bool_elem(key.spec_bytes(), value),
    {
        proof {
            use_type_invariant(&self);
        }
        let mut data = self.data;
        write_type(&mut data, ElementType::Bool);
        write_cstring(&mut data, key);
        if value {
            write_byte(&mut data, 1u8);
        } else {
            write_byte(&mut data, 0u8);
        }
        proof {
            assert(data@ =~= self@ + spec_bool_elem(key.spec_bytes(), value));
        }
        DocBuilder { data }
    }

    /// Append one null element: tag and key only, empty payload.
    pub fn append_null(self, key: &str) -> (r: Self)
        ensures
            r@ == self@ + spec_null_elem(key.spec_bytes()),
    {
        proof {
            use_type_invariant(&self);
        }
        let mut data = self.data;
        write_type(&mut data, ElementType::Null);
        write_cstring(&mut data, key);
        proof {
            assert(data@ =~= self@ + spec_null_elem(key.spec_bytes()));
        }
        DocBuilder { data }
    }

    /// Append one 32-bit integer element with a little-endian payload.
    pub fn append_int32(self, key: &str, value: i32) -> (r: Self)
        ensures
            r@ == self@ + spec_int32_elem(key.spec_bytes(), value),
    {
        proof {
            use_type_invariant(&self);
        }
        let mut data = self.data;
        write_type(&mut data, ElementType::Int32);
        write_cstring(&mut data, key);
        write_int32(&mut data, value);
        proof {
            assert(data@ =~= self@ + spec_int32_elem(key.spec_bytes(), value));
        }
        DocBuilder { data }
    }

    /// Append one 64-bit integer element with a little-endian payload.
    pub fn append_int64(self, key: &str, value: i64) -> (r: Self)
        ensures
            r@ == self@ + spec_int64_elem(key.spec_bytes(), value),
    {
        proof {
            use_type_invariant(&self);
        }
        let mut data = self.data;
        write_type(&mut data, ElementType::Int64);
        write_cstring(&mut data, key);
        write_int64(&mut data, value);
        proof {
            assert(data@ =~= self@ + spec_int64_elem(key.spec_bytes(), value));
        }
        DocBuilder { data }
    }

    /// Append one 64-bit float element, given as its IEEE 754 bit pattern
    /// (`f64::to_bits`); the eight payload bytes are the pattern written
    /// little-endian.
    pub fn append_float64_bits(self, key: &str, bits: u64) -> (r: Self)
        ensures
            r@ == self@ + spec_float64_elem(key.spec_bytes(), bits),
    {
        proof {
            use_type_invariant(&self);
        }
        let mut data = self.data;
        write_type(&mut data, ElementType::Float64);
        write_cstring(&mut data, key);
        write_uint64(&mut data, bits);
        proof {
            assert(data@ =~= self@ + spec_float64_elem(key.spec_bytes(), bits));
        }
        DocBuilder { data }
    }

    /// Close the document: append the single end-of-document zero byte,
    /// back-fill the length header with the total byte length, and yield the
    /// finished `Doc`. The builder is consumed.
    pub fn finish(self) -> (r: Doc)
        requires
            self@.len() + 1 <= u32::MAX,
        ensures
            r@.len() == self@.len() + 1,
            r@ == spec_u32_to_le_bytes((self@.len() + 1) as u32) + self@.subrange(
                4,
                self@.len() as int,
            ) + seq![0u8],
            spec_u32_from_le_bytes(r@.subrange(0, 4)) == r@.len(),
            r@.last() == 0u8,
            r.wf(),
    {
        proof {
            use_type_invariant(&self);
            lemma_auto_spec_u32_to_from_le_bytes();
        }
        let mut data = self.data;
        write_byte(&mut data, 0u8);
        let len = data.len();
        set_length(&mut data, len);
        proof {
            assert(data@ =~= spec_u32_to_le_bytes((self@.len() + 1) as u32) + self@.subrange(
                4,
                self@.len() as int,
            ) + seq![0u8]);
            assert(data@.subrange(0, 4) =~= spec_u32_to_le_bytes((self@.len() + 1) as u32));
        }
        Doc { data }
    }
}

} // verus!
