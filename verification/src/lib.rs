//! A verified builder for BSON documents.
//!
//! A BSON document is a byte buffer framed as a 4-byte little-endian total
//! length, a sequence of elements (one type-tag byte, a zero-terminated key,
//! then a type-specific payload), and a single trailing zero byte. The
//! [`doc::DocBuilder`] accumulates elements and, on `finish`, back-fills the
//! length header and yields an immutable [`doc::Doc`] whose header is proved
//! to equal its byte length.

pub mod doc;
pub mod element;
