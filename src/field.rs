//! A decoded field: its base-type value together with the profile's
//! annotations (named type, scale, offset and units).
use vstd::prelude::*;
use crate::base::{BaseType, Endian, Value, ValueModel, decode_value, decode_value_spec};
use crate::error::Error;
use crate::profile_types::ProfileType;

verus! {

/// A profile scale factor `num / den`. A raw value `v` reads as `v / scale`.
#[derive(Debug, Clone, Copy, PartialEq, Eq, Structural)]
pub struct Scale {
    pub num: u32,
    pub den: u32,
}

/// What the profile states of one field of one message.
#[derive(Debug, Clone, Copy)]
pub struct FieldProfile {
    pub base: BaseType,
    pub profile_type: Option<ProfileType>,
    pub scale: Option<Scale>,
    pub offset: Option<i32>,
    pub units: Option<&'static str>,
}

/// The actual data of a profile message field.
#[derive(Debug, Clone)]
pub struct Field {
    pub raw_value: Value,
    pub profile_type: Option<ProfileType>,
    pub scale: Option<Scale>,
    pub offset: Option<i32>,
    pub units: Option<&'static str>,
}

/// The mathematical content of a [`Field`].
pub struct FieldModel {
    pub value: ValueModel,
    pub profile_type: Option<ProfileType>,
    pub scale: Option<Scale>,
    pub offset: Option<i32>,
    pub units: Option<&'static str>,
}

impl View for Field {
    type V = FieldModel;

    open spec fn view(&self) -> FieldModel {
        FieldModel {
            value: self.raw_value@,
            profile_type: self.profile_type,
            scale: self.scale,
            offset: self.offset,
            units: self.units,
        }
    }
}

/// An exact rational number `num / den`.
#[derive(Debug, Clone, Copy, PartialEq, Eq, Structural)]
pub struct Rational {
    pub num: i128,
    pub den: u64,
}

impl FieldModel {
    pub open spec fn scale_num(self) -> int {
        match self.scale {
            Some(s) => s.num as int,
            None => 1,
        }
    }

    pub open spec fn scale_den(self) -> int {
        match self.scale {
            Some(s) => s.den as int,
            None => 1,
        }
    }

    pub open spec fn offset_value(self) -> int {
        match self.offset {
            Some(o) => o as int,
            None => 0,
        }
    }

    /// The physical reading `v / s - o` of an integer field, with `s` the
    /// scale (1 when absent) and `o` the offset (0 when absent). Writing
    /// `s = sn / sd`, it is the fraction `(v * sd - o * sn) / sn`, given here
    /// as (numerator, denominator). None for a non-integer value or a scale
    /// with a zero part.
    pub open spec fn observable(self) -> Option<(int, int)> {
        match self.value.integer() {
            Some(v) => if self.scale_num() > 0 && self.scale_den() > 0 {
                Some(
                    (
                        v * self.scale_den() - self.offset_value() * self.scale_num(),
                        self.scale_num(),
                    ),
                )
            } else {
                None
            },
            None => None,
        }
    }
}

impl Field {
    /// Whether the raw value differs from its base type's invalid sentinel.
    pub fn is_valid(&self) -> (r: bool)
        ensures
            r == self@.value.is_valid(),
    {
        self.raw_value.is_valid()
    }

    /// The reading `v / s - o` of an integer field, as an exact fraction whose
    /// denominator is the numerator of the scale.
    pub fn value(&self) -> (r: Option<Rational>)
        ensures
            match (r, self@.observable()) {
                (Some(q), Some(o)) => q.num as int == o.0 && q.den as int == o.1,
                (None, None) => true,
                _ => false,
            },
    {
        let v: i128 = match &self.raw_value {
            Value::Sint8(x) => *x as i128,
            Value::Uint8(x) => *x as i128,
            Value::Sint16(x) => *x as i128,
            Value::Uint16(x) => *x as i128,
            Value::Sint32(x) => *x as i128,
            Value::Uint32(x) => *x as i128,
            Value::Uint8z(x) => *x as i128,
            Value::Uint16z(x) => *x as i128,
            Value::Uint32z(x) => *x as i128,
            Value::Sint64(x) => *x as i128,
            Value::Uint64(x) => *x as i128,
            Value::Uint64z(x) => *x as i128,
            _ => {
                return None;
            },
        };
        assert(self@.value.integer() == Some(v as int));
        let (sn, sd): (u32, u32) = match self.scale {
            Some(s) => (s.num, s.den),
            None => (1, 1),
        };
        if sn == 0 || sd == 0 {
            return None;
        }
        let o: i128 = match self.offset {
            Some(o) => o as i128,
            None => 0,
        };
        let sni = sn as i128;
        let sdi = sd as i128;
        assert(-0x1_0000_0000_0000_0000 <= v < 0x1_0000_0000_0000_0000);
        assert(-0x8000_0000 <= o < 0x8000_0000);
        assert(0 < sdi < 0x1_0000_0000 && 0 < sni < 0x1_0000_0000);
        assert(-0x1_0000_0000_0000_0000_0000_0000 <= v * sdi <= 0x1_0000_0000_0000_0000_0000_0000)
            by (nonlinear_arith)
            requires
                -0x1_0000_0000_0000_0000 <= v < 0x1_0000_0000_0000_0000,
                0 < sdi < 0x1_0000_0000,
        ;
        assert(-0x1_0000_0000_0000_0000 <= o * sni <= 0x1_0000_0000_0000_0000) by (nonlinear_arith)
            requires
                -0x8000_0000 <= o < 0x8000_0000,
                0 < sni < 0x1_0000_0000,
        ;
        Some(Rational { num: v * sdi - o * sni, den: sn as u64 })
    }
}

/// The field that the profile entry `p` gives for the value `v`.
pub open spec fn field_from(p: FieldProfile, v: ValueModel) -> FieldModel {
    FieldModel {
        value: v,
        profile_type: p.profile_type,
        scale: p.scale,
        offset: p.offset,
        units: p.units,
    }
}

/// What decoding the byte run `b` under profile entry `p` yields.
pub open spec fn decode_field_spec(p: FieldProfile, b: Seq<u8>, e: Endian) -> Result<FieldModel, Error> {
    match decode_value_spec(p.base, b, e) {
        Ok(v) => Ok(field_from(p, v)),
        Err(x) => Err(x),
    }
}

/// One decoded field of a message, as the profile sees it: a field that the
/// profile knows, or the raw bytes of one that it does not.
pub enum FieldEntry {
    Known { num: u8, field: FieldModel },
    Unknown { num: u8, data: Seq<u8> },
}

/// What decoding the byte run `b` of field number `num` yields, given the
/// profile's entry `p` for that field (None when the profile has none).
pub open spec fn decode_entry(p: Option<FieldProfile>, num: u8, b: Seq<u8>, e: Endian) -> Result<FieldEntry, Error> {
    match p {
        None => Ok(FieldEntry::Unknown { num, data: b }),
        Some(p) => match decode_field_spec(p, b, e) {
            Ok(f) => Ok(FieldEntry::Known { num, field: f }),
            Err(x) => Err(x),
        },
    }
}

/// Decodes the byte run `b` as a field described by the profile entry `p`.
pub fn decode_field(b: &[u8], e: Endian, p: FieldProfile) -> (r: Result<Field, Error>)
    ensures
        match r {
            Ok(f) => decode_field_spec(p, b@, e) == Ok::<FieldModel, Error>(f@),
            Err(x) => decode_field_spec(p, b@, e) == Err::<FieldModel, Error>(x),
        },
{
    match decode_value(p.base, b, e) {
        Ok(v) => Ok(
            Field {
                raw_value: v,
                profile_type: p.profile_type,
                scale: p.scale,
                offset: p.offset,
                units: p.units,
            },
        ),
        Err(x) => Err(x),
    }
}

} // verus!
