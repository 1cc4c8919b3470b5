//! Decoder for FIT (Flexible and Interoperable Data Transfer) activity files.
//!
//! The crate is organised leaves first: bit helpers, base-type codecs, the
//! profile's named types and message table, the record layer, the CRC, and
//! the file driver. Every decoding step is stated against a model of the wire
//! format, down to `file::parse_file`.
use vstd::prelude::*;

pub mod bits;
pub mod error;
pub mod base;
pub mod profile_types;
pub mod field;
pub mod messages;
pub mod crc;
pub mod record;
pub mod file;

verus! {

} // verus!
