//! The closed set of BSON element type tags.
//!
//! Each variant stands for one canonical one-byte type code. The mapping in
//! both directions is total and proved to round-trip: `from_byte` recovers
//! exactly the variant whose tag was given, and returns `None` precisely on
//! the bytes that are not canonical tags.

use vstd::prelude::*;

verus! {

/// One BSON element type, identified on the wire by a single tag byte.
#[derive(Clone, Copy, Debug, PartialEq, Eq, Structural)]
pub enum ElementType {
    Float64,
    String,
    Bson,
    Array,
    Binary,
    Undefined,
    ObjectId,
    Bool,
    Date,
    Null,
    RegEx,
    DBPointer,
    Code,
    Symbol,
    CodeWScope,
    Int32,
    Timestamp,
    Int64,
    Decimal,
    MaxKey,
    MinKey,
}

/// The canonical one-byte tag of an element type.
pub open spec fn tag_of(e: ElementType) -> u8 {
    match e {
        ElementType::Float64 => 0x01,
        ElementType::String => 0x02,
        ElementType::Bson => 0x03,
        ElementType::Array => 0x04,
        ElementType::Binary => 0x05,
        ElementType::Undefined => 0x06,
        ElementType::ObjectId => 0x07,
        ElementType::Bool => 0x08,
        ElementType::Date => 0x09,
        ElementType::Null => 0x0A,
        ElementType::RegEx => 0x0B,
        ElementType::DBPointer => 0x0C,
        ElementType::Code => 0x0D,
        ElementType::Symbol => 0x0E,
        ElementType::CodeWScope => 0x0F,
        ElementType::Int32 => 0x10,
        ElementType::Timestamp => 0x11,
        ElementType::Int64 => 0x12,
        ElementType::Decimal => 0x64,
        ElementType::MaxKey => 0x7F,
        ElementType::MinKey => 0xFF,
    }
}

/// The element type whose tag is `b`, or `None` if `b` is not a canonical tag.
pub open spec fn from_byte(b: u8) -> Option<ElementType> {
    if b == 0x01 {
        Some(ElementType::Float64)
    } else if b == 0x02 {
        Some(ElementType::String)
    } else if b == 0x03 {
        Some(ElementType::Bson)
    } else if b == 0x04 {
        Some(ElementType::Array)
    } else if b == 0x05 {
        Some(ElementType::Binary)
    } else if b == 0x06 {
        Some(ElementType::Undefined)
    } else if b == 0x07 {
        Some(ElementType::ObjectId)
    } else if b == 0x08 {
        Some(ElementType::Bool)
    } else if b == 0x09 {
        Some(ElementType::Date)
    } else if b == 0x0A {
        Some(ElementType::Null)
    } else if b == 0x0B {
        Some(ElementType::RegEx)
    } else if b == 0x0C {
        Some(ElementType::DBPointer)
    } else if b == 0x0D {
        Some(ElementType::Code)
    } else if b == 0x0E {
        Some(ElementType::Symbol)
    } else if b == 0x0F {
        Some(ElementType::CodeWScope)
    } else if b == 0x10 {
        Some(ElementType::Int32)
    } else if b == 0x11 {
        Some(ElementType::Timestamp)
    } else if b == 0x12 {
        Some(ElementType::Int64)
    } else if b == 0x64 {
        Some(ElementType::Decimal)
    } else if b == 0x7F {
        Some(ElementType::MaxKey)
    } else if b == 0xFF {
        Some(ElementType::MinKey)
    } else {
        None
    }
}

/// Whether `b` is the tag of some element type.
pub open spec fn is_canonical_tag(b: u8) -> bool {
    exists|e: ElementType| tag_of(e) == b
}

impl ElementType {
    /// The tag byte written on the wire for this element type.
    pub fn tag(self) -> (r: u8)
        ensures
            r == tag_of(self),
    {
        match self {
            ElementType::Float64 => 0x01,
            ElementType::String => 0x02,
            ElementType::Bson => 0x03,
            ElementType::Array => 0x04,
            ElementType::Binary => 0x05,
            ElementType::Undefined => 0x06,
            ElementType::ObjectId => 0x07,
            ElementType::Bool => 0x08,
            ElementType::Date => 0x09,
            ElementType::Null => 0x0A,
            ElementType::RegEx => 0x0B,
            ElementType::DBPointer => 0x0C,
            ElementType::Code => 0x0D,
            ElementType::Symbol => 0x0E,
            ElementType::CodeWScope => 0x0F,
            ElementType::Int32 => 0x10,
            ElementType::Timestamp => 0x11,
            ElementType::Int64 => 0x12,
            ElementType::Decimal => 0x64,
            ElementType::MaxKey => 0x7F,
            ElementType::MinKey => 0xFF,
        }
    }

    /// Convert a tag byte back to its element type; `None` on a byte that is
    /// not a canonical tag.
    pub fn from(i: u8) -> (r: Option<ElementType>)
        ensures
            r == from_byte(i),
    {
        match i {
            0x01 => Some(ElementType::Float64),
            0x02 => Some(ElementType::String),
            0x03 => Some(ElementType::Bson),
            0x04 => Some(ElementType::Array),
            0x05 => Some(ElementType::Binary),
            0x06 => Some(ElementType::Undefined),
            0x07 => Some(ElementType::ObjectId),
            0x08 => Some(ElementType::Bool),
            0x09 => Some(ElementType::Date),
            0x0A => Some(ElementType::Null),
            0x0B => Some(ElementType::RegEx),
            0x0C => Some(ElementType::DBPointer),
            0x0D => Some(ElementType::Code),
            0x0E => Some(ElementType::Symbol),
            0x0F => Some(ElementType::CodeWScope),
            0x10 => Some(ElementType::Int32),
            0x11 => Some(ElementType::Timestamp),
            0x12 => Some(ElementType::Int64),
            0x64 => Some(ElementType::Decimal),
            0x7F => Some(ElementType::MaxKey),
            0xFF => Some(ElementType::MinKey),
            _ => None,
        }
    }
}

/// Law: converting a variant's own tag back yields exactly that variant.
pub proof fn lemma_from_byte_of_tag(e: ElementType)
    ensures
        from_byte(tag_of(e)) == Some(e),
{
}

/// Law: `from_byte` recognizes a byte if and only if it is the tag of some
/// variant; every non-canonical byte maps to `None`.
pub proof fn lemma_from_byte_canonical(b: u8)
    ensures
        from_byte(b) is Some <==> is_canonical_tag(b),
        from_byte(b) is Some ==> tag_of(from_byte(b).unwrap()) == b,
{
    if from_byte(b) is Some {
        assert(tag_of(from_byte(b).unwrap()) == b);
    }
    if is_canonical_tag(b) {
        let e = choose|e: ElementType| tag_of(e) == b;
        lemma_from_byte_of_tag(e);
    }
}

} // verus!
