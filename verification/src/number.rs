//! Numbers of the intermediate value.
use vstd::prelude::*;
use vstd::std_specs::convert::TryFromSpecImpl;
use crate::error::Error;

verus! {

/// Number.
///
/// A floating-point number is held as the 64 bits of its IEEE 754 double
/// precision form, so that two numbers are equal exactly when they are the
/// same number written the same way.
#[derive(Debug, Clone, Copy, PartialEq, Eq, Structural)]
pub enum Number {
    /// A floating-point number, as its bits.
    Float(u64),
    /// A whole number with a sign.
    SignedInt(i64),
    /// A whole number without a sign.
    UnsignedInt(u64),
}

impl Number {
    /// The integer that the number holds; a floating-point number holds none.
    pub open spec fn as_int(self) -> Option<int> {
        match self {
            Number::Float(_) => None,
            Number::SignedInt(v) => Some(v as int),
            Number::UnsignedInt(v) => Some(v as int),
        }
    }

    /// The integer between two bounds that the number holds: a
    /// floating-point number holds none, and an integer has to be within
    /// the bounds.
    pub open spec fn integer_between(self, lo: int, hi: int) -> Result<int, Error> {
        match self.as_int() {
            None => Err(Error::UnsupportedConversion),
            Some(v) => if lo <= v <= hi {
                Ok(v)
            } else {
                Err(Error::OutOfBounds)
            },
        }
    }

    /// The integer between two bounds that the number holds.
    pub fn to_integer(self, lo: i128, hi: i128) -> (r: Result<i128, Error>)
        ensures
            match r {
                Ok(v) => self.integer_between(lo as int, hi as int) == Ok::<int, Error>(v as int),
                Err(e) => self.integer_between(lo as int, hi as int) == Err::<int, Error>(e),
            },
    {
        match self {
            Number::Float(_) => Err(Error::UnsupportedConversion),
            Number::SignedInt(v) => {
                let wide = v as i128;
                if lo <= wide && wide <= hi {
                    Ok(wide)
                } else {
                    Err(Error::OutOfBounds)
                }
            },
            Number::UnsignedInt(v) => {
                let wide = v as i128;
                if lo <= wide && wide <= hi {
                    Ok(wide)
                } else {
                    Err(Error::OutOfBounds)
                }
            },
        }
    }
}


impl TryFrom<Number> for i8 {
    type Error = Error;

    fn try_from(n: Number) -> (r: Result<Self, Error>) {
        match n.to_integer(i8::MIN as i128, i8::MAX as i128) {
            Ok(v) => Ok(v as i8),
            Err(e) => Err(e),
        }
    }
}

impl TryFromSpecImpl<Number> for i8 {
    open spec fn obeys_try_from_spec() -> bool {
        true
    }

    open spec fn try_from_spec(n: Number) -> Result<Self, Error> {
        match n.integer_between(i8::MIN as int, i8::MAX as int) {
            Ok(v) => Ok(v as i8),
            Err(e) => Err(e),
        }
    }
}

impl TryFrom<Number> for i16 {
    type Error = Error;

    fn try_from(n: Number) -> (r: Result<Self, Error>) {
        match n.to_integer(i16::MIN as i128, i16::MAX as i128) {
            Ok(v) => Ok(v as i16),
            Err(e) => Err(e),
        }
    }
}

impl TryFromSpecImpl<Number> for i16 {
    open spec fn obeys_try_from_spec() -> bool {
        true
    }

    open spec fn try_from_spec(n: Number) -> Result<Self, Error> {
        match n.integer_between(i16::MIN as int, i16::MAX as int) {
            Ok(v) => Ok(v as i16),
            Err(e) => Err(e),
        }
    }
}

impl TryFrom<Number> for i32 {
    type Error = Error;

    fn try_from(n: Number) -> (r: Result<Self, Error>) {
        match n.to_integer(i32::MIN as i128, i32::MAX as i128) {
            Ok(v) => Ok(v as i32),
            Err(e) => Err(e),
        }
    }
}

impl TryFromSpecImpl<Number> for i32 {
    open spec fn obeys_try_from_spec() -> bool {
        true
    }

    open spec fn try_from_spec(n: Number) -> Result<Self, Error> {
        match n.integer_between(i32::MIN as int, i32::MAX as int) {
            Ok(v) => Ok(v as i32),
            Err(e) => Err(e),
        }
    }
}

impl TryFrom<Number> for i64 {
    type Error = Error;

    fn try_from(n: Number) -> (r: Result<Self, Error>) {
        match n.to_integer(i64::MIN as i128, i64::MAX as i128) {
            Ok(v) => Ok(v as i64),
            Err(e) => Err(e),
        }
    }
}

impl TryFromSpecImpl<Number> for i64 {
    open spec fn obeys_try_from_spec() -> bool {
        true
    }

    open spec fn try_from_spec(n: Number) -> Result<Self, Error> {
        match n.integer_between(i64::MIN as int, i64::MAX as int) {
            Ok(v) => Ok(v as i64),
            Err(e) => Err(e),
        }
    }
}

impl TryFrom<Number> for isize {
    type Error = Error;

    fn try_from(n: Number) -> (r: Result<Self, Error>) {
        match n.to_integer(isize::MIN as i128, isize::MAX as i128) {
            Ok(v) => Ok(v as isize),
            Err(e) => Err(e),
        }
    }
}

impl TryFromSpecImpl<Number> for isize {
    open spec fn obeys_try_from_spec() -> bool {
        true
    }

    open spec fn try_from_spec(n: Number) -> Result<Self, Error> {
        match n.integer_between(isize::MIN as int, isize::MAX as int) {
            Ok(v) => Ok(v as isize),
            Err(e) => Err(e),
        }
    }
}

impl TryFrom<Number> for u8 {
    type Error = Error;

    fn try_from(n: Number) -> (r: Result<Self, Error>) {
        match n.to_integer(u8::MIN as i128, u8::MAX as i128) {
            Ok(v) => Ok(v as u8),
            Err(e) => Err(e),
        }
    }
}

impl TryFromSpecImpl<Number> for u8 {
    open spec fn obeys_try_from_spec() -> bool {
        true
    }

    open spec fn try_from_spec(n: Number) -> Result<Self, Error> {
        match n.integer_between(u8::MIN as int, u8::MAX as int) {
            Ok(v) => Ok(v as u8),
            Err(e) => Err(e),
        }
    }
}

impl TryFrom<Number> for u16 {
    type Error = Error;

    fn try_from(n: Number) -> (r: Result<Self, Error>) {
        match n.to_integer(u16::MIN as i128, u16::MAX as i128) {
            Ok(v) => Ok(v as u16),
            Err(e) => Err(e),
        }
    }
}

impl TryFromSpecImpl<Number> for u16 {
    open spec fn obeys_try_from_spec() -> bool {
        true
    }

    open spec fn try_from_spec(n: Number) -> Result<Self, Error> {
        match n.integer_between(u16::MIN as int, u16::MAX as int) {
            Ok(v) => Ok(v as u16),
            Err(e) => Err(e),
        }
    }
}

impl TryFrom<Number> for u32 {
    type Error = Error;

    fn try_from(n: Number) -> (r: Result<Self, Error>) {
        match n.to_integer(u32::MIN as i128, u32::MAX as i128) {
            Ok(v) => Ok(v as u32),
            Err(e) => Err(e),
        }
    }
}

impl TryFromSpecImpl<Number> for u32 {
    open spec fn obeys_try_from_spec() -> bool {
        true
    }

    open spec fn try_from_spec(n: Number) -> Result<Self, Error> {
        match n.integer_between(u32::MIN as int, u32::MAX as int) {
            Ok(v) => Ok(v as u32),
            Err(e) => Err(e),
        }
    }
}

impl TryFrom<Number> for u64 {
    type Error = Error;

    fn try_from(n: Number) -> (r: Result<Self, Error>) {
        match n.to_integer(u64::MIN as i128, u64::MAX as i128) {
            Ok(v) => Ok(v as u64),
            Err(e) => Err(e),
        }
    }
}

impl TryFromSpecImpl<Number> for u64 {
    open spec fn obeys_try_from_spec() -> bool {
        true
    }

    open spec fn try_from_spec(n: Number) -> Result<Self, Error> {
        match n.integer_between(u64::MIN as int, u64::MAX as int) {
            Ok(v) => Ok(v as u64),
            Err(e) => Err(e),
        }
    }
}

impl TryFrom<Number> for usize {
    type Error = Error;

    fn try_from(n: Number) -> (r: Result<Self, Error>) {
        match n.to_integer(usize::MIN as i128, usize::MAX as i128) {
            Ok(v) => Ok(v as usize),
            Err(e) => Err(e),
        }
    }
}

impl TryFromSpecImpl<Number> for usize {
    open spec fn obeys_try_from_spec() -> bool {
        true
    }

    open spec fn try_from_spec(n: Number) -> Result<Self, Error> {
        match n.integer_between(usize::MIN as int, usize::MAX as int) {
            Ok(v) => Ok(v as usize),
            Err(e) => Err(e),
        }
    }
}

} // verus!
