//! Values as they arrive from the bus, reduced to what decoding reads.

use vstd::prelude::*;

verus! {

/// The tag of a wire value: which member of the bus's tagged union it is.
#[derive(Debug, Clone, Copy, PartialEq, Eq, Structural)]
pub enum WireKind {
    U8,
    Bool,
    I16,
    U16,
    I32,
    U32,
    I64,
    U64,
    Double,
    Str,
    Signature,
    ObjectPath,
    Variant,
    Array,
    Dict,
    Structure,
    Fd,
}

/// A double as the transport hands it over: its IEEE-754 bit pattern, and the
/// integer nearest to it (ties away from zero, saturated to the signed 64-bit
/// range, zero for a NaN).
#[derive(Debug, Clone, Copy, PartialEq, Eq, Structural)]
pub struct WireDouble {
    pub bits: u64,
    pub nearest: i64,
}

/// A value transported over the bus. Scalars, strings and variants carry their
/// payload; the remaining members carry none, because no decoder reads inside
/// them.
#[derive(Debug, PartialEq, Eq)]
pub enum WireValue {
    U8(u8),
    Bool(bool),
    I16(i16),
    U16(u16),
    I32(i32),
    U32(u32),
    I64(i64),
    U64(u64),
    Double(WireDouble),
    Str(String),
    Signature,
    ObjectPath,
    /// A variant, which holds another value.
    Variant(Box<WireValue>),
    Array,
    Dict,
    Structure,
    Fd,
}

/// Why a wire value could not become a typed value.
#[derive(Debug, Clone, Copy, PartialEq, Eq, Structural)]
pub enum ConversionError {
    /// The wire value has a tag that the target type does not accept.
    IncorrectType(WireKind),
    /// The wire value has an accepted tag but lies outside the target's range.
    OutOfBounds,
}

impl WireValue {
    /// A copy of this value.
    pub fn duplicate(&self) -> (copy: WireValue)
        ensures
            copy == *self,
        decreases *self,
    {
        match self {
            WireValue::U8(v) => WireValue::U8(*v),
            WireValue::Bool(v) => WireValue::Bool(*v),
            WireValue::I16(v) => WireValue::I16(*v),
            WireValue::U16(v) => WireValue::U16(*v),
            WireValue::I32(v) => WireValue::I32(*v),
            WireValue::U32(v) => WireValue::U32(*v),
            WireValue::I64(v) => WireValue::I64(*v),
            WireValue::U64(v) => WireValue::U64(*v),
            WireValue::Double(d) => WireValue::Double(*d),
            WireValue::Str(text) => WireValue::Str(text.clone()),
            WireValue::Signature => WireValue::Signature,
            WireValue::ObjectPath => WireValue::ObjectPath,
            WireValue::Variant(inner) => WireValue::Variant(Box::new(inner.duplicate())),
            WireValue::Array => WireValue::Array,
            WireValue::Dict => WireValue::Dict,
            WireValue::Structure => WireValue::Structure,
            WireValue::Fd => WireValue::Fd,
        }
    }

    /// The tag of this value.
    pub open spec fn spec_kind(&self) -> WireKind {
        match self {
            WireValue::U8(_) => WireKind::U8,
            WireValue::Bool(_) => WireKind::Bool,
            WireValue::I16(_) => WireKind::I16,
            WireValue::U16(_) => WireKind::U16,
            WireValue::I32(_) => WireKind::I32,
            WireValue::U32(_) => WireKind::U32,
            WireValue::I64(_) => WireKind::I64,
            WireValue::U64(_) => WireKind::U64,
            WireValue::Double(_) => WireKind::Double,
            WireValue::Str(_) => WireKind::Str,
            WireValue::Signature => WireKind::Signature,
            WireValue::ObjectPath => WireKind::ObjectPath,
            WireValue::Variant(_) => WireKind::Variant,
            WireValue::Array => WireKind::Array,
            WireValue::Dict => WireKind::Dict,
            WireValue::Structure => WireKind::Structure,
            WireValue::Fd => WireKind::Fd,
        }
    }

    /// The tag of this value.
    #[verifier::when_used_as_spec(spec_kind)]
    pub fn kind(&self) -> (k: WireKind)
        ensures
            k == self.spec_kind(),
    {
        match self {
            WireValue::U8(_) => WireKind::U8,
            WireValue::Bool(_) => WireKind::Bool,
            WireValue::I16(_) => WireKind::I16,
            WireValue::U16(_) => WireKind::U16,
            WireValue::I32(_) => WireKind::I32,
            WireValue::U32(_) => WireKind::U32,
            WireValue::I64(_) => WireKind::I64,
            WireValue::U64(_) => WireKind::U64,
            WireValue::Double(_) => WireKind::Double,
            WireValue::Str(_) => WireKind::Str,
            WireValue::Signature => WireKind::Signature,
            WireValue::ObjectPath => WireKind::ObjectPath,
            WireValue::Variant(_) => WireKind::Variant,
            WireValue::Array => WireKind::Array,
            WireValue::Dict => WireKind::Dict,
            WireValue::Structure => WireKind::Structure,
            WireValue::Fd => WireKind::Fd,
        }
    }

    /// The unsigned 32-bit number that this value carries, itself or inside
    /// one variant.
    pub open spec fn spec_as_u32(&self) -> Option<u32> {
        match self {
            WireValue::U32(n) => Some(*n),
            WireValue::Variant(inner) => match **inner {
                WireValue::U32(n) => Some(n),
                _ => None,
            },
            _ => None,
        }
    }

    /// The unsigned 32-bit number that this value carries, itself or inside
    /// one variant.
    #[verifier::when_used_as_spec(spec_as_u32)]
    pub fn as_u32(&self) -> (n: Option<u32>)
        ensures
            n == self.spec_as_u32(),
    {
        match self {
            WireValue::U32(n) => Some(*n),
            WireValue::Variant(inner) => match &**inner {
                WireValue::U32(n) => Some(*n),
                _ => None,
            },
            _ => None,
        }
    }

    /// The integer that an integer-like value stands for: the payload of an
    /// integer member, the nearest integer of a double, nothing otherwise.
    pub open spec fn spec_integer(&self) -> Option<int> {
        match self {
            WireValue::U8(v) => Some(*v as int),
            WireValue::I16(v) => Some(*v as int),
            WireValue::U16(v) => Some(*v as int),
            WireValue::I32(v) => Some(*v as int),
            WireValue::U32(v) => Some(*v as int),
            WireValue::I64(v) => Some(*v as int),
            WireValue::U64(v) => Some(*v as int),
            WireValue::Double(d) => Some(d.nearest as int),
            _ => None,
        }
    }

    /// The double that this value carries; any member but a double has the
    /// wrong type.
    pub open spec fn spec_as_double(&self) -> Result<WireDouble, ConversionError> {
        match self {
            WireValue::Double(d) => Ok(*d),
            _ => Err(ConversionError::IncorrectType(self.spec_kind())),
        }
    }

    /// The double that this value carries.
    #[verifier::when_used_as_spec(spec_as_double)]
    pub fn as_double(&self) -> (d: Result<WireDouble, ConversionError>)
        ensures
            d == self.spec_as_double(),
    {
        match self {
            WireValue::Double(d) => Ok(*d),
            _ => Err(ConversionError::IncorrectType(self.kind())),
        }
    }

    /// The string that this value carries; any member but a string has the
    /// wrong type.
    pub open spec fn spec_as_text(&self) -> Result<String, ConversionError> {
        match self {
            WireValue::Str(text) => Ok(*text),
            _ => Err(ConversionError::IncorrectType(self.spec_kind())),
        }
    }

    /// The string that this value carries.
    #[verifier::when_used_as_spec(spec_as_text)]
    pub fn as_text(&self) -> (text: Result<String, ConversionError>)
        ensures
            text == self.spec_as_text(),
    {
        match self {
            WireValue::Str(text) => Ok(text.clone()),
            _ => Err(ConversionError::IncorrectType(self.kind())),
        }
    }

    /// The boolean that this value carries; any member but a boolean has the
    /// wrong type.
    pub open spec fn spec_as_flag(&self) -> Result<bool, ConversionError> {
        match self {
            WireValue::Bool(flag) => Ok(*flag),
            _ => Err(ConversionError::IncorrectType(self.spec_kind())),
        }
    }

    /// The boolean that this value carries.
    #[verifier::when_used_as_spec(spec_as_flag)]
    pub fn as_flag(&self) -> (flag: Result<bool, ConversionError>)
        ensures
            flag == self.spec_as_flag(),
    {
        match self {
            WireValue::Bool(flag) => Ok(*flag),
            _ => Err(ConversionError::IncorrectType(self.kind())),
        }
    }

    /// The integer that an integer-like value stands for, if it is one.
    pub fn integer(&self) -> (n: Option<i128>)
        ensures
            n.is_some() == self.spec_integer().is_some(),
            n.is_some() ==> n.unwrap() as int == self.spec_integer().unwrap(),
            n.is_some() ==> i64::MIN <= n.unwrap() <= u64::MAX,
    {
        match self {
            WireValue::U8(v) => Some(*v as i128),
            WireValue::I16(v) => Some(*v as i128),
            WireValue::U16(v) => Some(*v as i128),
            WireValue::I32(v) => Some(*v as i128),
            WireValue::U32(v) => Some(*v as i128),
            WireValue::I64(v) => Some(*v as i128),
            WireValue::U64(v) => Some(*v as i128),
            WireValue::Double(d) => Some(d.nearest as i128),
            _ => None,
        }
    }
}

} // verus!
