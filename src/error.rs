use vstd::prelude::*;

verus! {

/// Every way in which decoding a FIT stream can fail.
#[derive(Debug, Clone, Copy, PartialEq, Eq, Structural)]
pub enum Error {
    /// The stream ended before a record, header or trailing CRC was complete.
    UnexpectedEof,
    /// The file header does not carry the ASCII signature `.FIT`.
    BadSignature,
    /// The file header announces a size other than 12 or 14 bytes.
    BadHeaderSize(u8),
    /// A stored CRC differs from the one computed over the covered bytes.
    BadCrc { expected: u16, actual: u16 },
    /// A data record names a local message slot that holds no definition.
    MissingDefinition(u8),
    /// A definition's architecture byte is neither 0 nor 1.
    UnknownArchitecture(u8),
    /// A string field is not valid UTF-8.
    InvalidEncoding,
    /// A field's byte run is shorter than its profile base type.
    FieldTooShort { size: usize, width: usize },
}

} // verus!
