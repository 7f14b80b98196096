//! The tagged numeric union carried by sensor readings.
//!
//! The bridge reports sensor values as wire-format JSON numbers, which may
//! be integers, floating-point values, or (under arbitrary-precision
//! parsing) numerals that fit neither. The library keeps them as a tagged
//! union and never narrows implicitly: each metric kind asks for the one
//! representation it needs, and the request fails where the tag does not
//! match. A floating-point payload is held as its IEEE 754 bit pattern, so
//! that the value travels through the core unchanged and is only
//! reinterpreted at the sink boundary outside the library.

use vstd::prelude::*;

verus! {

/// A raw numeric sensor payload as received from the bridge.
#[derive(Debug, Clone, Copy, PartialEq, Eq, Hash, Structural)]
pub enum WireNumber {
    /// An integer payload representable in a 64-bit signed integer.
    Int(i64),
    /// An integer payload above the signed 64-bit range.
    Uint(u64),
    /// A floating-point payload, held as the bit pattern of a 64-bit
    /// IEEE 754 value.
    FloatBits(u64),
    /// A numeral that fits none of the numeric representations.
    NonNumeric,
}

impl WireNumber {
    /// Whether the payload carries any usable numeric value.
    pub open spec fn is_numeric(self) -> bool {
        !(self is NonNumeric)
    }

    /// Whether the payload is an exact signed 64-bit integer.
    pub open spec fn is_integer(self) -> bool {
        self is Int
    }

    /// The payload as a signed 64-bit integer, where it is one.
    pub fn as_integer(&self) -> (r: Option<i64>)
        ensures
            *self is Int ==> r == Some(self->Int_0),
            !(*self is Int) ==> r is None,
    {
        match self {
            WireNumber::Int(i) => Some(*i),
            _ => None,
        }
    }

    /// Whether the payload carries any usable numeric value.
    pub fn numeric(&self) -> (r: bool)
        ensures
            r == self.is_numeric(),
    {
        match self {
            WireNumber::NonNumeric => false,
            _ => true,
        }
    }
}

} // verus!
