//! The FIT base types: fixed-width integers (plain and "z" variants whose
//! invalid value is zero), floats kept as their IEEE-754 bit patterns, NUL
//! terminated UTF-8 strings, byte arrays and the boolean.
use vstd::prelude::*;
use vstd::slice::{slice_subrange, slice_to_vec};
use vstd::utf8::{valid_utf8, decode_utf8};
use byteorder::{ByteOrder, BigEndian, LittleEndian};
use crate::error::Error;

verus! {

/// Byte order of the multi-byte values of a data record, fixed by the
/// architecture byte of its definition.
#[derive(Debug, Clone, Copy, PartialEq, Eq, Structural)]
pub enum Endian {
    Little,
    Big,
}

/// The unsigned value of `b`, least significant byte first.
pub open spec fn uint_le(b: Seq<u8>) -> nat
    decreases b.len(),
{
    if b.len() == 0 {
        0
    } else {
        b[0] as nat + 256 * uint_le(b.drop_first())
    }
}

/// The unsigned value of `b`, most significant byte first.
pub open spec fn uint_be(b: Seq<u8>) -> nat
    decreases b.len(),
{
    if b.len() == 0 {
        0
    } else {
        uint_be(b.drop_last()) * 256 + b.last() as nat
    }
}

/// The unsigned value of `b` under the byte order `e`.
pub open spec fn uint_of(b: Seq<u8>, e: Endian) -> nat {
    match e {
        Endian::Little => uint_le(b),
        Endian::Big => uint_be(b),
    }
}

/// Relies on byteorder's `LittleEndian::read_u16`: the first two bytes, least significant first.
#[verifier::external_body]
fn read_u16_le(b: &[u8]) -> (r: u16)
    requires
        b@.len() >= 2,
    ensures
        r as int == uint_le(b@.take(2)),
{
    LittleEndian::read_u16(b)
}

/// Relies on byteorder's `BigEndian::read_u16`: the first two bytes, most significant first.
#[verifier::external_body]
fn read_u16_be(b: &[u8]) -> (r: u16)
    requires
        b@.len() >= 2,
    ensures
        r as int == uint_be(b@.take(2)),
{
    BigEndian::read_u16(b)
}

/// Relies on byteorder's `LittleEndian::read_u32`: the first four bytes, least significant first.
#[verifier::external_body]
fn read_u32_le(b: &[u8]) -> (r: u32)
    requires
        b@.len() >= 4,
    ensures
        r as int == uint_le(b@.take(4)),
{
    LittleEndian::read_u32(b)
}

/// Relies on byteorder's `BigEndian::read_u32`: the first four bytes, most significant first.
#[verifier::external_body]
fn read_u32_be(b: &[u8]) -> (r: u32)
    requires
        b@.len() >= 4,
    ensures
        r as int == uint_be(b@.take(4)),
{
    BigEndian::read_u32(b)
}

/// Relies on byteorder's `LittleEndian::read_u64`: the first eight bytes, least significant first.
#[verifier::external_body]
fn read_u64_le(b: &[u8]) -> (r: u64)
    requires
        b@.len() >= 8,
    ensures
        r as int == uint_le(b@.take(8)),
{
    LittleEndian::read_u64(b)
}

/// Relies on byteorder's `BigEndian::read_u64`: the first eight bytes, most significant first.
#[verifier::external_body]
fn read_u64_be(b: &[u8]) -> (r: u64)
    requires
        b@.len() >= 8,
    ensures
        r as int == uint_be(b@.take(8)),
{
    BigEndian::read_u64(b)
}

/// Relies on `std::str::from_utf8`: it accepts exactly the valid UTF-8
/// sequences, and the string it yields holds the decoded characters.
#[verifier::external_body]
fn utf8_to_string(b: &[u8]) -> (r: Option<String>)
    ensures
        r is Some <==> valid_utf8(b@),
        r is Some ==> r->0@ == decode_utf8(b@),
{
    match std::str::from_utf8(b) {
        Ok(s) => Some(s.to_owned()),
        Err(_) => None,
    }
}

/// The first two bytes of `b` as an unsigned integer in byte order `e`.
pub fn read_u16(b: &[u8], e: Endian) -> (r: u16)
    requires
        b@.len() >= 2,
    ensures
        r as int == uint_of(b@.take(2), e),
{
    match e {
        Endian::Little => read_u16_le(b),
        Endian::Big => read_u16_be(b),
    }
}

/// The first four bytes of `b` as an unsigned integer in byte order `e`.
pub fn read_u32(b: &[u8], e: Endian) -> (r: u32)
    requires
        b@.len() >= 4,
    ensures
        r as int == uint_of(b@.take(4), e),
{
    match e {
        Endian::Little => read_u32_le(b),
        Endian::Big => read_u32_be(b),
    }
}

/// The first eight bytes of `b` as an unsigned integer in byte order `e`.
pub fn read_u64(b: &[u8], e: Endian) -> (r: u64)
    requires
        b@.len() >= 8,
    ensures
        r as int == uint_of(b@.take(8), e),
{
    match e {
        Endian::Little => read_u64_le(b),
        Endian::Big => read_u64_be(b),
    }
}

/// The FIT base types, as named by the profile.
#[derive(Debug, Clone, Copy, PartialEq, Eq, Structural)]
pub enum BaseType {
    Enum,
    Sint8,
    Uint8,
    Sint16,
    Uint16,
    Sint32,
    Uint32,
    Utf8String,
    Float32,
    Float64,
    Uint8z,
    Uint16z,
    Uint32z,
    Bytes,
    Sint64,
    Uint64,
    Uint64z,
    Bool,
}

impl BaseType {
    /// Bytes taken by one value; zero for the variable-length string and byte array.
    pub open spec fn width(self) -> nat {
        match self {
            BaseType::Enum | BaseType::Sint8 | BaseType::Uint8 | BaseType::Uint8z | BaseType::Bool => 1,
            BaseType::Sint16 | BaseType::Uint16 | BaseType::Uint16z => 2,
            BaseType::Sint32 | BaseType::Uint32 | BaseType::Uint32z | BaseType::Float32 => 4,
            BaseType::Sint64 | BaseType::Uint64 | BaseType::Uint64z | BaseType::Float64 => 8,
            BaseType::Utf8String | BaseType::Bytes => 0,
        }
    }

    pub fn width_exec(&self) -> (r: usize)
        ensures
            r == self.width(),
    {
        match self {
            BaseType::Enum | BaseType::Sint8 | BaseType::Uint8 | BaseType::Uint8z | BaseType::Bool => 1,
            BaseType::Sint16 | BaseType::Uint16 | BaseType::Uint16z => 2,
            BaseType::Sint32 | BaseType::Uint32 | BaseType::Uint32z | BaseType::Float32 => 4,
            BaseType::Sint64 | BaseType::Uint64 | BaseType::Uint64z | BaseType::Float64 => 8,
            BaseType::Utf8String | BaseType::Bytes => 0,
        }
    }
}

/// A decoded base-type value. Floats are kept as their bit patterns; the
/// boolean keeps its raw byte so that the invalid value 0xFF survives.
#[derive(Debug, Clone)]
pub enum Value {
    Enum(u8),
    Sint8(i8),
    Uint8(u8),
    Sint16(i16),
    Uint16(u16),
    Sint32(i32),
    Uint32(u32),
    Utf8String(String),
    Float32(u32),
    Float64(u64),
    Uint8z(u8),
    Uint16z(u16),
    Uint32z(u32),
    Bytes(Vec<u8>),
    Sint64(i64),
    Uint64(u64),
    Uint64z(u64),
    Bool(u8),
}

/// The mathematical content of a [`Value`].
pub enum ValueModel {
    Enum(u8),
    Sint8(i8),
    Uint8(u8),
    Sint16(i16),
    Uint16(u16),
    Sint32(i32),
    Uint32(u32),
    Utf8String(Seq<char>),
    Float32(u32),
    Float64(u64),
    Uint8z(u8),
    Uint16z(u16),
    Uint32z(u32),
    Bytes(Seq<u8>),
    Sint64(i64),
    Uint64(u64),
    Uint64z(u64),
    Bool(u8),
}

impl View for Value {
    type V = ValueModel;

    open spec fn view(&self) -> ValueModel {
        match self {
            Value::Enum(v) => ValueModel::Enum(*v),
            Value::Sint8(v) => ValueModel::Sint8(*v),
            Value::Uint8(v) => ValueModel::Uint8(*v),
            Value::Sint16(v) => ValueModel::Sint16(*v),
            Value::Uint16(v) => ValueModel::Uint16(*v),
            Value::Sint32(v) => ValueModel::Sint32(*v),
            Value::Uint32(v) => ValueModel::Uint32(*v),
            Value::Utf8String(s) => ValueModel::Utf8String(s@),
            Value::Float32(v) => ValueModel::Float32(*v),
            Value::Float64(v) => ValueModel::Float64(*v),
            Value::Uint8z(v) => ValueModel::Uint8z(*v),
            Value::Uint16z(v) => ValueModel::Uint16z(*v),
            Value::Uint32z(v) => ValueModel::Uint32z(*v),
            Value::Bytes(d) => ValueModel::Bytes(d@),
            Value::Sint64(v) => ValueModel::Sint64(*v),
            Value::Uint64(v) => ValueModel::Uint64(*v),
            Value::Uint64z(v) => ValueModel::Uint64z(*v),
            Value::Bool(v) => ValueModel::Bool(*v),
        }
    }
}

/// Whether a float32 bit pattern is a NaN (all exponent bits set, non-zero mantissa).
pub open spec fn is_nan_f32(bits: u32) -> bool {
    bits & 0x7F80_0000 == 0x7F80_0000 && bits & 0x007F_FFFF != 0
}

/// Whether a float64 bit pattern is a NaN (all exponent bits set, non-zero mantissa).
pub open spec fn is_nan_f64(bits: u64) -> bool {
    bits & 0x7FF0_0000_0000_0000 == 0x7FF0_0000_0000_0000 && bits & 0x000F_FFFF_FFFF_FFFF != 0
}

/// Whether some byte of `d` differs from 0xFF.
pub open spec fn has_byte_other_than_ff(d: Seq<u8>) -> bool {
    exists|i: int| 0 <= i < d.len() && d[i] != 0xFF
}

impl ValueModel {
    /// A value is valid unless it is its type's invalid sentinel: all ones for
    /// the plain unsigned types, the largest value for the signed ones, zero for
    /// the "z" types, NaN for floats, the empty string, and a byte array made
    /// of 0xFF only.
    pub open spec fn is_valid(self) -> bool {
        match self {
            ValueModel::Enum(v) => v != 0xFF,
            ValueModel::Sint8(v) => v != 0x7F,
            ValueModel::Uint8(v) => v != 0xFF,
            ValueModel::Sint16(v) => v != 0x7FFF,
            ValueModel::Uint16(v) => v != 0xFFFF,
            ValueModel::Sint32(v) => v != 0x7FFF_FFFF,
            ValueModel::Uint32(v) => v != 0xFFFF_FFFF,
            ValueModel::Utf8String(s) => s.len() > 0,
            ValueModel::Float32(bits) => !is_nan_f32(bits),
            ValueModel::Float64(bits) => !is_nan_f64(bits),
            ValueModel::Uint8z(v) => v != 0,
            ValueModel::Uint16z(v) => v != 0,
            ValueModel::Uint32z(v) => v != 0,
            ValueModel::Bytes(d) => has_byte_other_than_ff(d),
            ValueModel::Sint64(v) => v != 0x7FFF_FFFF_FFFF_FFFF,
            ValueModel::Uint64(v) => v != 0xFFFF_FFFF_FFFF_FFFF,
            ValueModel::Uint64z(v) => v != 0,
            ValueModel::Bool(v) => v != 0xFF,
        }
    }

    /// The integer held by a value of an integer type.
    pub open spec fn integer(self) -> Option<int> {
        match self {
            ValueModel::Sint8(v) => Some(v as int),
            ValueModel::Uint8(v) => Some(v as int),
            ValueModel::Sint16(v) => Some(v as int),
            ValueModel::Uint16(v) => Some(v as int),
            ValueModel::Sint32(v) => Some(v as int),
            ValueModel::Uint32(v) => Some(v as int),
            ValueModel::Uint8z(v) => Some(v as int),
            ValueModel::Uint16z(v) => Some(v as int),
            ValueModel::Uint32z(v) => Some(v as int),
            ValueModel::Sint64(v) => Some(v as int),
            ValueModel::Uint64(v) => Some(v as int),
            ValueModel::Uint64z(v) => Some(v as int),
            _ => None,
        }
    }
}

impl Value {
    /// Whether the value differs from its type's invalid sentinel.
    pub fn is_valid(&self) -> (r: bool)
        ensures
            r == self@.is_valid(),
    {
        match self {
            Value::Enum(v) => *v != 0xFF,
            Value::Sint8(v) => *v != 0x7F,
            Value::Uint8(v) => *v != 0xFF,
            Value::Sint16(v) => *v != 0x7FFF,
            Value::Uint16(v) => *v != 0xFFFF,
            Value::Sint32(v) => *v != 0x7FFF_FFFF,
            Value::Uint32(v) => *v != 0xFFFF_FFFF,
            Value::Utf8String(s) => !s.as_str().is_empty(),
            Value::Float32(bits) => !(*bits & 0x7F80_0000 == 0x7F80_0000 && *bits & 0x007F_FFFF != 0),
            Value::Float64(bits) => !(*bits & 0x7FF0_0000_0000_0000 == 0x7FF0_0000_0000_0000
                && *bits & 0x000F_FFFF_FFFF_FFFF != 0),
            Value::Uint8z(v) => *v != 0,
            Value::Uint16z(v) => *v != 0,
            Value::Uint32z(v) => *v != 0,
            Value::Bytes(d) => {
                let mut i: usize = 0;
                while i < d.len()
                    invariant
                        self@ == ValueModel::Bytes(d@),
                        0 <= i <= d@.len(),
                        forall|j: int| 0 <= j < i ==> d@[j] == 0xFF,
                    decreases d@.len() - i,
                {
                    if d[i] != 0xFF {
                        assert(d@[i as int] != 0xFF);
                        return true;
                    }
                    i = i + 1;
                }
                false
            },
            Value::Sint64(v) => *v != 0x7FFF_FFFF_FFFF_FFFF,
            Value::Uint64(v) => *v != 0xFFFF_FFFF_FFFF_FFFF,
            Value::Uint64z(v) => *v != 0,
            Value::Bool(v) => *v != 0xFF,
        }
    }
}

/// Length of the longest prefix of `b` that holds no NUL byte.
pub open spec fn until_nul(b: Seq<u8>) -> nat
    decreases b.len(),
{
    if b.len() == 0 || b[0] == 0 {
        0
    } else {
        1 + until_nul(b.drop_first())
    }
}

proof fn lemma_until_nul(b: Seq<u8>, i: int)
    requires
        0 <= i <= b.len(),
        forall|j: int| 0 <= j < i ==> b[j] != 0,
        i == b.len() || b[i] == 0,
    ensures
        until_nul(b) == i,
    decreases i,
{
    if i > 0 {
        let t = b.drop_first();
        assert forall|j: int| 0 <= j < i - 1 implies t[j] != 0 by {
            assert(t[j] == b[j + 1]);
        }
        if i - 1 < t.len() {
            assert(t[i - 1] == b[i]);
        }
        lemma_until_nul(t, i - 1);
    }
}

/// What decoding `b` as base type `t` under byte order `e` yields. Integers
/// and floats read their first `width` bytes (a longer run is an array, of
/// which the first element is kept); a string ends at its first NUL byte and
/// must be valid UTF-8; a byte array keeps the whole run.
pub open spec fn decode_value_spec(t: BaseType, b: Seq<u8>, e: Endian) -> Result<ValueModel, Error> {
    if b.len() < t.width() {
        Err(Error::FieldTooShort { size: b.len() as usize, width: t.width() as usize })
    } else {
        match t {
            BaseType::Enum => Ok(ValueModel::Enum(b[0])),
            BaseType::Sint8 => Ok(ValueModel::Sint8(b[0] as i8)),
            BaseType::Uint8 => Ok(ValueModel::Uint8(b[0])),
            BaseType::Uint8z => Ok(ValueModel::Uint8z(b[0])),
            BaseType::Bool => Ok(ValueModel::Bool(b[0])),
            BaseType::Sint16 => Ok(ValueModel::Sint16(uint_of(b.take(2), e) as i16)),
            BaseType::Uint16 => Ok(ValueModel::Uint16(uint_of(b.take(2), e) as u16)),
            BaseType::Uint16z => Ok(ValueModel::Uint16z(uint_of(b.take(2), e) as u16)),
            BaseType::Sint32 => Ok(ValueModel::Sint32(uint_of(b.take(4), e) as i32)),
            BaseType::Uint32 => Ok(ValueModel::Uint32(uint_of(b.take(4), e) as u32)),
            BaseType::Uint32z => Ok(ValueModel::Uint32z(uint_of(b.take(4), e) as u32)),
            BaseType::Float32 => Ok(ValueModel::Float32(uint_of(b.take(4), e) as u32)),
            BaseType::Sint64 => Ok(ValueModel::Sint64(uint_of(b.take(8), e) as i64)),
            BaseType::Uint64 => Ok(ValueModel::Uint64(uint_of(b.take(8), e) as u64)),
            BaseType::Uint64z => Ok(ValueModel::Uint64z(uint_of(b.take(8), e) as u64)),
            BaseType::Float64 => Ok(ValueModel::Float64(uint_of(b.take(8), e) as u64)),
            BaseType::Bytes => Ok(ValueModel::Bytes(b)),
            BaseType::Utf8String => {
                let s = b.take(until_nul(b) as int);
                if valid_utf8(s) {
                    Ok(ValueModel::Utf8String(decode_utf8(s)))
                } else {
                    Err(Error::InvalidEncoding)
                }
            },
        }
    }
}

/// Whether an exec result agrees with a result over models.
pub open spec fn value_result_is(r: Result<Value, Error>, s: Result<ValueModel, Error>) -> bool {
    match r {
        Ok(v) => s == Ok::<ValueModel, Error>(v@),
        Err(e) => s == Err::<ValueModel, Error>(e),
    }
}

/// Decodes one value of base type `t` from the byte run `b`.
pub fn decode_value(t: BaseType, b: &[u8], e: Endian) -> (r: Result<Value, Error>)
    ensures
        value_result_is(r, decode_value_spec(t, b@, e)),
{
    let w = t.width_exec();
    if b.len() < w {
        return Err(Error::FieldTooShort { size: b.len(), width: w });
    }
    match t {
        BaseType::Enum => Ok(Value::Enum(b[0])),
        BaseType::Sint8 => Ok(Value::Sint8(b[0] as i8)),
        BaseType::Uint8 => Ok(Value::Uint8(b[0])),
        BaseType::Uint8z => Ok(Value::Uint8z(b[0])),
        BaseType::Bool => Ok(Value::Bool(b[0])),
        BaseType::Sint16 => Ok(Value::Sint16(read_u16(b, e) as i16)),
        BaseType::Uint16 => Ok(Value::Uint16(read_u16(b, e))),
        BaseType::Uint16z => Ok(Value::Uint16z(read_u16(b, e))),
        BaseType::Sint32 => Ok(Value::Sint32(read_u32(b, e) as i32)),
        BaseType::Uint32 => Ok(Value::Uint32(read_u32(b, e))),
        BaseType::Uint32z => Ok(Value::Uint32z(read_u32(b, e))),
        BaseType::Float32 => Ok(Value::Float32(read_u32(b, e))),
        BaseType::Sint64 => Ok(Value::Sint64(read_u64(b, e) as i64)),
        BaseType::Uint64 => Ok(Value::Uint64(read_u64(b, e))),
        BaseType::Uint64z => Ok(Value::Uint64z(read_u64(b, e))),
        BaseType::Float64 => Ok(Value::Float64(read_u64(b, e))),
        BaseType::Bytes => Ok(Value::Bytes(slice_to_vec(b))),
        BaseType::Utf8String => {
            let mut i: usize = 0;
            while i < b.len() && b[i] != 0
                invariant
                    0 <= i <= b@.len(),
                    forall|j: int| 0 <= j < i ==> b@[j] != 0,
                decreases b@.len() - i,
            {
                i = i + 1;
            }
            proof {
                lemma_until_nul(b@, i as int);
            }
            let s = slice_subrange(b, 0, i);
            assert(s@ == b@.take(i as int));
            match utf8_to_string(s) {
                Some(text) => Ok(Value::Utf8String(text)),
                None => Err(Error::InvalidEncoding),
            }
        },
    }
}

} // verus!
