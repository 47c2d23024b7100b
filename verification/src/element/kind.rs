//! The kinds of value and the rule that names the kind of an element.

use vstd::pervasive::unreached;
use vstd::prelude::*;
use crate::element::ConfigElement;
use crate::element::ConfigElementMap;

verus! {

/// The kinds of value that an element can be asked for.
#[derive(Clone, Copy, Debug, PartialEq, Eq, Structural)]
pub enum ConfigElementType {
    Null,
    Bool,
    I8,
    I16,
    I32,
    I64,
    U8,
    U16,
    U32,
    U64,
    F32,
    F64,
    Str,
    List,
    Dict,
}

/// The bit pattern of the largest finite single-precision number, written as
/// a double-precision number.
pub const F32_MAX_BITS: u64 = 0x47EF_FFFF_E000_0000;

/// The bits of a double-precision number without its sign.
pub const F64_MAGNITUDE_MASK: u64 = 0x7FFF_FFFF_FFFF_FFFF;

/// Whether the double-precision number with the bit pattern `bits` lies in
/// the range of single precision: from the smallest to the largest finite
/// single-precision number, both of them in it. Of two numbers that are not
/// NaN the one with the larger magnitude has the larger pattern once the
/// sign bit is cleared; infinities and NaN lie above every finite number.
pub open spec fn in_single_range(bits: u64) -> bool {
    (bits & F64_MAGNITUDE_MASK) <= F32_MAX_BITS
}

/// The kind of an integer of the value `value`: the narrowest signed kind
/// that holds it, or `u64` where it lies above the largest `i64`.
pub open spec fn integer_kind(value: int) -> ConfigElementType {
    if i8::MIN <= value <= i8::MAX {
        ConfigElementType::I8
    } else if i16::MIN <= value <= i16::MAX {
        ConfigElementType::I16
    } else if i32::MIN <= value <= i32::MAX {
        ConfigElementType::I32
    } else if value <= i64::MAX {
        ConfigElementType::I64
    } else {
        ConfigElementType::U64
    }
}

impl ConfigElement {
    /// The integer that this element holds, if it is one.
    pub open spec fn integer(&self) -> Option<int> {
        match self {
            ConfigElement::Integer(i) => Some(*i as int),
            ConfigElement::Unsigned(u) => Some(*u as int),
            _ => None,
        }
    }

    /// The integer that this element holds, if it is one and lies in
    /// `low..=high`.
    pub open spec fn integer_within(&self, low: int, high: int) -> Option<int> {
        match self.integer() {
            Some(i) => if low <= i <= high {
                Some(i)
            } else {
                None
            },
            None => None,
        }
    }

    /// Whether this element can be read as a value of kind `kind`.
    pub open spec fn is_kind(&self, kind: ConfigElementType) -> bool {
        match kind {
            ConfigElementType::Null => self is Null,
            ConfigElementType::Bool => self is Bool,
            ConfigElementType::I8 => self.integer_within(i8::MIN as int, i8::MAX as int) is Some,
            ConfigElementType::I16 => self.integer_within(i16::MIN as int, i16::MAX as int) is Some,
            ConfigElementType::I32 => self.integer_within(i32::MIN as int, i32::MAX as int) is Some,
            ConfigElementType::I64 => self.integer_within(i64::MIN as int, i64::MAX as int) is Some,
            ConfigElementType::U8 => self.integer_within(0, u8::MAX as int) is Some,
            ConfigElementType::U16 => self.integer_within(0, u16::MAX as int) is Some,
            ConfigElementType::U32 => self.integer_within(0, u32::MAX as int) is Some,
            ConfigElementType::U64 => self.integer_within(0, u64::MAX as int) is Some,
            ConfigElementType::F32 => self matches ConfigElement::Float(bits) && in_single_range(
                *bits,
            ),
            ConfigElementType::F64 => self is Float,
            ConfigElementType::Str => self is Str,
            ConfigElementType::List => self is List,
            ConfigElementType::Dict => self is Dict,
        }
    }

    /// The kind of this element. A scalar that is no number, a list and a
    /// map are of the kind of their own. An integer is of the narrowest of
    /// the kinds `i8`, `i16`, `i32` and `i64` that holds it, and a `u64`
    /// where it lies above all of them. A floating-point number is an `f32`
    /// where it lies in the range of single precision and an `f64` where it
    /// does not.
    ///
    /// This is the first kind that the element can be read as, in the order
    /// null, bool, i8, i16, i32, i64, u8, u16, u32, u64, f32, f64, str, list,
    /// map. The order decides where ranges overlap: a small positive integer
    /// can be read as every integer kind and is an `i8`.
    pub open spec fn kind(&self) -> ConfigElementType {
        match self {
            ConfigElement::Null => ConfigElementType::Null,
            ConfigElement::Bool(_) => ConfigElementType::Bool,
            ConfigElement::Integer(i) => integer_kind(*i as int),
            ConfigElement::Unsigned(u) => integer_kind(*u as int),
            ConfigElement::Float(bits) => if in_single_range(*bits) {
                ConfigElementType::F32
            } else {
                ConfigElementType::F64
            },
            ConfigElement::Str(_) => ConfigElementType::Str,
            ConfigElement::List(_) => ConfigElementType::List,
            ConfigElement::Dict(_) => ConfigElementType::Dict,
        }
    }

    pub fn is_null(&self) -> (b: bool)
        ensures
            b == self.is_kind(ConfigElementType::Null),
    {
        match self {
            ConfigElement::Null => true,
            _ => false,
        }
    }

    pub fn as_bool(&self) -> (r: Option<bool>)
        ensures
            r == match self {
                ConfigElement::Bool(b) => Some(*b),
                _ => None,
            },
    {
        match self {
            ConfigElement::Bool(b) => Some(*b),
            _ => None,
        }
    }

    pub fn as_i64(&self) -> (r: Option<i64>)
        ensures
            match self.integer_within(i64::MIN as int, i64::MAX as int) {
                Some(i) => r == Some(i as i64),
                None => r is None,
            },
    {
        match self {
            ConfigElement::Integer(i) => Some(*i),
            ConfigElement::Unsigned(u) => if *u <= i64::MAX as u64 {
                Some(*u as i64)
            } else {
                None
            },
            _ => None,
        }
    }

    pub fn as_i8(&self) -> (r: Option<i8>)
        ensures
            match self.integer_within(i8::MIN as int, i8::MAX as int) {
                Some(i) => r == Some(i as i8),
                None => r is None,
            },
    {
        match self.as_i64() {
            Some(i) => if i8::MIN as i64 <= i && i <= i8::MAX as i64 {
                Some(i as i8)
            } else {
                None
            },
            None => None,
        }
    }
    pub fn as_i16(&self) -> (r: Option<i16>)
        ensures
            match self.integer_within(i16::MIN as int, i16::MAX as int) {
                Some(i) => r == Some(i as i16),
                None => r is None,
            },
    {
        match self.as_i64() {
            Some(i) => if i16::MIN as i64 <= i && i <= i16::MAX as i64 {
                Some(i as i16)
            } else {
                None
            },
            None => None,
        }
    }

    pub fn as_i32(&self) -> (r: Option<i32>)
        ensures
            match self.integer_within(i32::MIN as int, i32::MAX as int) {
                Some(i) => r == Some(i as i32),
                None => r is None,
            },
    {
        match self.as_i64() {
            Some(i) => if i32::MIN as i64 <= i && i <= i32::MAX as i64 {
                Some(i as i32)
            } else {
                None
            },
            None => None,
        }
    }

    pub fn as_u8(&self) -> (r: Option<u8>)
        ensures
            match self.integer_within(0, u8::MAX as int) {
                Some(i) => r == Some(i as u8),
                None => r is None,
            },
    {
        match self.as_i64() {
            Some(i) => if 0 <= i && i <= u8::MAX as i64 {
                Some(i as u8)
            } else {
                None
            },
            None => None,
        }
    }

    pub fn as_u16(&self) -> (r: Option<u16>)
        ensures
            match self.integer_within(0, u16::MAX as int) {
                Some(i) => r == Some(i as u16),
                None => r is None,
            },
    {
        match self.as_i64() {
            Some(i) => if 0 <= i && i <= u16::MAX as i64 {
                Some(i as u16)
            } else {
                None
            },
            None => None,
        }
    }

    pub fn as_u32(&self) -> (r: Option<u32>)
        ensures
            match self.integer_within(0, u32::MAX as int) {
                Some(i) => r == Some(i as u32),
                None => r is None,
            },
    {
        match self.as_i64() {
            Some(i) => if 0 <= i && i <= u32::MAX as i64 {
                Some(i as u32)
            } else {
                None
            },
            None => None,
        }
    }

    pub fn as_u64(&self) -> (r: Option<u64>)
        ensures
            match self.integer_within(0, u64::MAX as int) {
                Some(i) => r == Some(i as u64),
                None => r is None,
            },
    {
        match self {
            ConfigElement::Integer(i) => if 0 <= *i {
                Some(*i as u64)
            } else {
                None
            },
            ConfigElement::Unsigned(u) => Some(*u),
            _ => None,
        }
    }

    /// The bit pattern of the floating-point number that this element holds,
    /// if it is one.
    pub fn as_f64_bits(&self) -> (r: Option<u64>)
        ensures
            r == match self {
                ConfigElement::Float(bits) => Some(*bits),
                _ => None,
            },
    {
        match self {
            ConfigElement::Float(bits) => Some(*bits),
            _ => None,
        }
    }

    pub fn as_str(&self) -> (r: Option<&str>)
        ensures
            match self {
                ConfigElement::Str(s) => r is Some && r->0@ == s@,
                _ => r is None,
            },
    {
        match self {
            ConfigElement::Str(s) => Some(s.as_str()),
            _ => None,
        }
    }

    pub fn as_list(&self) -> (r: Option<&Vec<ConfigElement>>)
        ensures
            r == match self {
                ConfigElement::List(items) => Some(items),
                _ => None,
            },
    {
        match self {
            ConfigElement::List(items) => Some(items),
            _ => None,
        }
    }

    pub fn as_map(&self) -> (r: Option<&ConfigElementMap>)
        ensures
            r == match self {
                ConfigElement::Dict(map) => Some(map),
                _ => None,
            },
    {
        match self {
            ConfigElement::Dict(map) => Some(map),
            _ => None,
        }
    }

    pub fn is_bool(&self) -> (b: bool)
        ensures
            b == self.is_kind(ConfigElementType::Bool),
    {
        self.as_bool().is_some()
    }

    pub fn is_i8(&self) -> (b: bool)
        ensures
            b == self.is_kind(ConfigElementType::I8),
    {
        self.as_i8().is_some()
    }

    pub fn is_i16(&self) -> (b: bool)
        ensures
            b == self.is_kind(ConfigElementType::I16),
    {
        self.as_i16().is_some()
    }

    pub fn is_i32(&self) -> (b: bool)
        ensures
            b == self.is_kind(ConfigElementType::I32),
    {
        self.as_i32().is_some()
    }

    pub fn is_i64(&self) -> (b: bool)
        ensures
            b == self.is_kind(ConfigElementType::I64),
    {
        self.as_i64().is_some()
    }

    pub fn is_u8(&self) -> (b: bool)
        ensures
            b == self.is_kind(ConfigElementType::U8),
    {
        self.as_u8().is_some()
    }

    pub fn is_u16(&self) -> (b: bool)
        ensures
            b == self.is_kind(ConfigElementType::U16),
    {
        self.as_u16().is_some()
    }

    pub fn is_u32(&self) -> (b: bool)
        ensures
            b == self.is_kind(ConfigElementType::U32),
    {
        self.as_u32().is_some()
    }

    pub fn is_u64(&self) -> (b: bool)
        ensures
            b == self.is_kind(ConfigElementType::U64),
    {
        self.as_u64().is_some()
    }

    pub fn is_f32(&self) -> (b: bool)
        ensures
            b == self.is_kind(ConfigElementType::F32),
    {
        match self.as_f64_bits() {
            Some(bits) => (bits & F64_MAGNITUDE_MASK) <= F32_MAX_BITS,
            None => false,
        }
    }

    pub fn is_f64(&self) -> (b: bool)
        ensures
            b == self.is_kind(ConfigElementType::F64),
    {
        self.as_f64_bits().is_some()
    }

    pub fn is_str(&self) -> (b: bool)
        ensures
            b == self.is_kind(ConfigElementType::Str),
    {
        self.as_str().is_some()
    }

    pub fn is_list(&self) -> (b: bool)
        ensures
            b == self.is_kind(ConfigElementType::List),
    {
        self.as_list().is_some()
    }

    pub fn is_map(&self) -> (b: bool)
        ensures
            b == self.is_kind(ConfigElementType::Dict),
    {
        self.as_map().is_some()
    }

    /// Names the kind of this element by asking the `is_*` questions in their
    /// fixed order and taking the first that holds. Every element is of one
    /// of the kinds, so there is always an answer.
    pub fn get_type(&self) -> (kind: ConfigElementType)
        ensures
            kind == self.kind(),
            self.is_kind(kind),
    {
        if self.is_null() {
            return ConfigElementType::Null;
        }
        if self.is_bool() {
            return ConfigElementType::Bool;
        }
        if self.is_i8() {
            return ConfigElementType::I8;
        }
        if self.is_i16() {
            return ConfigElementType::I16;
        }
        if self.is_i32() {
            return ConfigElementType::I32;
        }
        if self.is_i64() {
            return ConfigElementType::I64;
        }
        if self.is_u8() {
            return ConfigElementType::U8;
        }
        if self.is_u16() {
            return ConfigElementType::U16;
        }
        if self.is_u32() {
            return ConfigElementType::U32;
        }
        if self.is_u64() {
            return ConfigElementType::U64;
        }
        if self.is_f32() {
            return ConfigElementType::F32;
        }
        if self.is_f64() {
            return ConfigElementType::F64;
        }
        if self.is_str() {
            return ConfigElementType::Str;
        }
        if self.is_list() {
            return ConfigElementType::List;
        }
        if self.is_map() {
            return ConfigElementType::Dict;
        }
        unreached()
    }
}

} // verus!
