//! Floating-point values by the bits of their IEEE 754 encoding, as far as
//! they are compared.

use vstd::prelude::*;

verus! {

/// A single-precision value.
#[derive(Clone, Copy, Debug, PartialEq, Eq, Structural)]
pub struct Real32 {
    pub bits: u32,
}

/// A double-precision value.
#[derive(Clone, Copy, Debug, PartialEq, Eq, Structural)]
pub struct Real64 {
    pub bits: u64,
}

pub const SIGN32: u32 = 0x8000_0000;

pub const INFINITY32: u32 = 0x7F80_0000;

pub const SIGN64: u64 = 0x8000_0000_0000_0000;

pub const INFINITY64: u64 = 0x7FF0_0000_0000_0000;

impl Real32 {
    /// The bits below the sign.
    pub open spec fn magnitude(self) -> int {
        if self.bits >= SIGN32 {
            self.bits - SIGN32
        } else {
            self.bits as int
        }
    }

    /// Whether it is no number.
    pub open spec fn nan(self) -> bool {
        self.magnitude() > INFINITY32
    }

    /// Whether it is a number that is not infinite.
    pub open spec fn finite(self) -> bool {
        self.magnitude() < INFINITY32
    }

    /// A place on the number line: of two numbers the smaller has the smaller
    /// place, and the two zeros share one.
    pub open spec fn place(self) -> int {
        if self.bits >= SIGN32 {
            -self.magnitude()
        } else {
            self.magnitude()
        }
    }

    /// Whether it is at most the other; no number is at most none.
    pub open spec fn at_most(self, other: Real32) -> bool {
        !self.nan() && !other.nan() && self.place() <= other.place()
    }

    /// Whether it is less than the other.
    pub open spec fn less(self, other: Real32) -> bool {
        !self.nan() && !other.nan() && self.place() < other.place()
    }

    fn exec_place(self) -> (r: i64)
        ensures
            r == self.place(),
    {
        if self.bits >= SIGN32 {
            0 - (self.bits - SIGN32) as i64
        } else {
            self.bits as i64
        }
    }

    fn is_nan(self) -> (r: bool)
        ensures
            r == self.nan(),
    {
        if self.bits >= SIGN32 {
            self.bits - SIGN32 > INFINITY32
        } else {
            self.bits > INFINITY32
        }
    }

    pub fn is_finite(self) -> (r: bool)
        ensures
            r == self.finite(),
    {
        if self.bits >= SIGN32 {
            self.bits - SIGN32 < INFINITY32
        } else {
            self.bits < INFINITY32
        }
    }

    pub fn le(self, other: Real32) -> (r: bool)
        ensures
            r == self.at_most(other),
    {
        !self.is_nan() && !other.is_nan() && self.exec_place() <= other.exec_place()
    }

    /// Whether it is not the same number; no number is different from all.
    pub open spec fn differs(self, other: Real32) -> bool {
        self.nan() || other.nan() || self.place() != other.place()
    }

    pub fn ne(self, other: Real32) -> (r: bool)
        ensures
            r == self.differs(other),
    {
        self.is_nan() || other.is_nan() || self.exec_place() != other.exec_place()
    }

    pub fn lt(self, other: Real32) -> (r: bool)
        ensures
            r == self.less(other),
    {
        !self.is_nan() && !other.is_nan() && self.exec_place() < other.exec_place()
    }
}

impl Real64 {
    /// The bits below the sign.
    pub open spec fn magnitude(self) -> int {
        if self.bits >= SIGN64 {
            self.bits - SIGN64
        } else {
            self.bits as int
        }
    }

    /// Whether it is no number.
    pub open spec fn nan(self) -> bool {
        self.magnitude() > INFINITY64
    }

    /// A place on the number line.
    pub open spec fn place(self) -> int {
        if self.bits >= SIGN64 {
            -self.magnitude()
        } else {
            self.magnitude()
        }
    }

    /// Whether it is at most the other; no number is at most none.
    pub open spec fn at_most(self, other: Real64) -> bool {
        !self.nan() && !other.nan() && self.place() <= other.place()
    }

    /// Whether it is not the same number; no number is different from all.
    pub open spec fn differs(self, other: Real64) -> bool {
        self.nan() || other.nan() || self.place() != other.place()
    }

    fn exec_place(self) -> (r: i128)
        ensures
            r == self.place(),
    {
        if self.bits >= SIGN64 {
            0 - (self.bits - SIGN64) as i128
        } else {
            self.bits as i128
        }
    }

    fn is_nan(self) -> (r: bool)
        ensures
            r == self.nan(),
    {
        if self.bits >= SIGN64 {
            self.bits - SIGN64 > INFINITY64
        } else {
            self.bits > INFINITY64
        }
    }

    pub fn le(self, other: Real64) -> (r: bool)
        ensures
            r == self.at_most(other),
    {
        !self.is_nan() && !other.is_nan() && self.exec_place() <= other.exec_place()
    }

    pub fn ne(self, other: Real64) -> (r: bool)
        ensures
            r == self.differs(other),
    {
        self.is_nan() || other.is_nan() || self.exec_place() != other.exec_place()
    }

    /// Whether it is zero or below; no number is neither.
    pub open spec fn not_positive(self) -> bool {
        !self.nan() && self.place() <= 0
    }

    pub fn is_not_positive(self) -> (r: bool)
        ensures
            r == self.not_positive(),
    {
        if self.bits >= SIGN64 {
            self.bits - SIGN64 <= INFINITY64
        } else {
            self.bits == 0
        }
    }
}

/// The order of single-precision numbers is total.
pub proof fn reals_are_ordered(a: Real32, b: Real32)
    requires
        !a.nan(),
        !b.nan(),
    ensures
        a.at_most(b) || b.less(a),
        !(a.at_most(b) && b.less(a)),
{
}

pub const ZERO32: u32 = 0;

/// One half.
pub const HALF32: u32 = 0x3F00_0000;

pub const ONE32: u32 = 0x3F80_0000;

pub const TWO32: u32 = 0x4000_0000;

pub const FIVE32: u32 = 0x40A0_0000;

/// Fourteen.
pub const FOURTEEN32: u32 = 0x4160_0000;

/// Twenty.
pub const TWENTY32: u32 = 0x41A0_0000;

/// One hundred.
pub const HUNDRED32: u32 = 0x42C8_0000;

/// Two hundred and twenty.
pub const KARAOKE_BAND32: u32 = 0x435C_0000;

pub const ZERO64: u64 = 0;

pub const ONE64: u64 = 0x3FF0_0000_0000_0000;

/// One quarter.
pub const QUARTER64: u64 = 0x3FD0_0000_0000_0000;

/// Four.
pub const FOUR64: u64 = 0x4010_0000_0000_0000;

} // verus!
