//! IEEE 754 values carried as bit patterns.
//!
//! Calibration and inertial numbers cross this library unchanged; what the rules ask of
//! them is only whether they are finite, zero, one, or on which side of a limit they lie.
//! All of that can be read off the encoding, so the numbers are held as their bits.

use vstd::prelude::*;

verus! {

/// A binary32 value, as its bit pattern (`to_bits` of the number).
#[derive(Debug, Clone, Copy, PartialEq, Eq, Structural)]
pub struct Float32 {
    pub bits: u32,
}

/// A binary64 value, as its bit pattern (`to_bits` of the number).
#[derive(Debug, Clone, Copy, PartialEq, Eq, Structural)]
pub struct Float64 {
    pub bits: u64,
}

/// The encoding of `1.0` in binary32.
pub const ONE_F32: u32 = 0x3f80_0000;

impl Float32 {
    /// The encoding without its sign bit.
    pub open spec fn magnitude(self) -> int {
        self.bits as int % 0x8000_0000
    }

    /// Not a number.
    pub open spec fn nan(self) -> bool {
        self.magnitude() > 0x7f80_0000
    }

    /// Neither infinite nor NaN.
    pub open spec fn finite(self) -> bool {
        self.magnitude() < 0x7f80_0000
    }

    /// The position of the value among all values that are not NaN: encodings of numbers of
    /// one sign are ordered like the numbers, and the two zeros share the position 0.
    pub open spec fn rank(self) -> int {
        if self.bits >= 0x8000_0000 {
            -self.magnitude()
        } else {
            self.magnitude()
        }
    }

    /// Numerically equal: no NaN equals anything, and the two zeros are equal.
    pub open spec fn same(self, other: Float32) -> bool {
        !self.nan() && !other.nan() && self.rank() == other.rank()
    }

    /// The same value with the other sign: the sign bit is flipped.
    pub open spec fn negated(self) -> Float32 {
        Float32 {
            bits: if self.bits >= 0x8000_0000 {
                (self.bits - 0x8000_0000) as u32
            } else {
                (self.bits + 0x8000_0000) as u32
            },
        }
    }

    /// `+0.0`.
    pub fn zero() -> (r: Self)
        ensures
            r.bits == 0,
    {
        Float32 { bits: 0 }
    }

    /// Whether the value is a NaN.
    pub fn is_nan(self) -> (r: bool)
        ensures
            r == self.nan(),
            r <==> 0x7f80_0000 < self.bits < 0x8000_0000 || self.bits > 0xff80_0000,
    {
        self.bits % 0x8000_0000 > 0x7f80_0000
    }

    /// Whether the value is finite.
    pub fn is_finite(self) -> (r: bool)
        ensures
            r == self.finite(),
            r <==> self.bits < 0x7f80_0000 || 0x8000_0000 <= self.bits < 0xff80_0000,
    {
        self.bits % 0x8000_0000 < 0x7f80_0000
    }

    /// The rank, for a value that is compared.
    fn rank_of(self) -> (r: i64)
        ensures
            r == self.rank(),
    {
        let magnitude: i64 = (self.bits % 0x8000_0000) as i64;
        if self.bits >= 0x8000_0000 {
            -magnitude
        } else {
            magnitude
        }
    }

    /// The numeric comparison `self > other`; false when either is NaN.
    pub fn exceeds(self, other: Self) -> (r: bool)
        ensures
            r == (!self.nan() && !other.nan() && self.rank() > other.rank()),
    {
        !self.is_nan() && !other.is_nan() && self.rank_of() > other.rank_of()
    }

    /// The numeric comparison `self == other`; false when either is NaN, true of the two zeros.
    pub fn equals(self, other: Self) -> (r: bool)
        ensures
            r == self.same(other),
    {
        !self.is_nan() && !other.is_nan() && self.rank_of() == other.rank_of()
    }

    /// The numeric comparison `self <= 0.0`; false of NaN.
    pub fn at_most_zero(self) -> (r: bool)
        ensures
            r == (!self.nan() && self.rank() <= 0),
            r <==> self.bits == 0 || 0x8000_0000 <= self.bits <= 0xff80_0000,
    {
        !self.is_nan() && self.rank_of() <= 0
    }
}

impl Float64 {
    /// The encoding without its sign bit.
    pub open spec fn magnitude(self) -> int {
        self.bits as int % 0x8000_0000_0000_0000
    }

    /// Not a number.
    pub open spec fn nan(self) -> bool {
        self.magnitude() > 0x7ff0_0000_0000_0000
    }

    /// The position of the value among all values that are not NaN.
    pub open spec fn rank(self) -> int {
        if self.bits >= 0x8000_0000_0000_0000 {
            -self.magnitude()
        } else {
            self.magnitude()
        }
    }

    /// Numerically equal: no NaN equals anything, and the two zeros are equal.
    pub open spec fn same(self, other: Float64) -> bool {
        !self.nan() && !other.nan() && self.rank() == other.rank()
    }

    /// Numerically zero: `+0.0` or `-0.0`.
    pub open spec fn zero_valued(self) -> bool {
        self.magnitude() == 0
    }

    /// Numerically at most zero, which a NaN is not.
    pub open spec fn non_positive(self) -> bool {
        !self.nan() && (self.bits >= 0x8000_0000_0000_0000 || self.zero_valued())
    }

    /// `+0.0`.
    pub fn zero() -> (r: Self)
        ensures
            r.bits == 0,
    {
        Float64 { bits: 0 }
    }

    /// The numeric comparison `self == other`; false when either is NaN, true of the two zeros.
    pub fn equals(self, other: Self) -> (r: bool)
        ensures
            r == self.same(other),
    {
        let a: u64 = self.bits % 0x8000_0000_0000_0000;
        let b: u64 = other.bits % 0x8000_0000_0000_0000;
        a <= 0x7ff0_0000_0000_0000 && a == b && (a == 0 || self.bits == other.bits)
    }

    /// The numeric comparison `self == 0.0`.
    pub fn is_zero(self) -> (r: bool)
        ensures
            r == self.zero_valued(),
            r <==> self.bits == 0 || self.bits == 0x8000_0000_0000_0000,
    {
        self.bits % 0x8000_0000_0000_0000 == 0
    }

    /// The numeric comparison `self <= 0.0`; false of NaN.
    pub fn at_most_zero(self) -> (r: bool)
        ensures
            r == self.non_positive(),
            r <==> self.bits == 0 || 0x8000_0000_0000_0000 <= self.bits <= 0xfff0_0000_0000_0000,
    {
        let magnitude: u64 = self.bits % 0x8000_0000_0000_0000;
        magnitude <= 0x7ff0_0000_0000_0000 && (self.bits >= 0x8000_0000_0000_0000 || magnitude == 0)
    }
}

/// Numerically equal, entry by entry.
pub open spec fn all_same32(a: Seq<Float32>, b: Seq<Float32>) -> bool {
    a.len() == b.len() && forall|i: int| 0 <= i < a.len() ==> (#[trigger] a[i]).same(b[i])
}

/// Numerically equal, entry by entry.
pub fn all_equal32(a: &[Float32], b: &[Float32]) -> (r: bool)
    ensures
        r == all_same32(a@, b@),
{
    if a.len() != b.len() {
        return false;
    }
    let mut i: usize = 0;
    while i < a.len()
        invariant
            i <= a@.len() == b@.len(),
            forall|j: int| 0 <= j < i ==> (#[trigger] a@[j]).same(b@[j]),
        decreases a@.len() - i,
    {
        if !a[i].equals(b[i]) {
            return false;
        }
        i += 1;
    }
    true
}

/// Numerically equal, entry by entry.
pub open spec fn all_same64(a: Seq<Float64>, b: Seq<Float64>) -> bool {
    a.len() == b.len() && forall|i: int| 0 <= i < a.len() ==> (#[trigger] a[i]).same(b[i])
}

/// Numerically equal, entry by entry.
pub fn all_equal64(a: &[Float64], b: &[Float64]) -> (r: bool)
    ensures
        r == all_same64(a@, b@),
{
    if a.len() != b.len() {
        return false;
    }
    let mut i: usize = 0;
    while i < a.len()
        invariant
            i <= a@.len() == b@.len(),
            forall|j: int| 0 <= j < i ==> (#[trigger] a@[j]).same(b@[j]),
        decreases a@.len() - i,
    {
        if !a[i].equals(b[i]) {
            return false;
        }
        i += 1;
    }
    true
}

/// What an encoding in binary32 stands for: the numbers run from `+0.0` up to infinity with the
/// sign bit clear and from `-0.0` down to minus infinity with it set; what lies beyond either
/// infinity is a NaN, and the infinities and NaNs alone are not finite.
pub proof fn law_encodings_of_numbers(x: Float32)
    ensures
        x.nan() <==> 0x7f80_0000 < x.bits < 0x8000_0000 || x.bits > 0xff80_0000,
        x.finite() <==> x.bits < 0x7f80_0000 || 0x8000_0000 <= x.bits < 0xff80_0000,
        x.bits < 0x8000_0000 ==> x.negated().bits == x.bits + 0x8000_0000,
        x.bits >= 0x8000_0000 ==> x.negated().bits == x.bits - 0x8000_0000,
        x.negated().negated() == x,
        x.nan() <==> x.negated().nan(),
        x.rank() == -x.negated().rank(),
{
}

/// Numbers are ordered by their encodings: upwards among those without a sign, downwards among
/// those with one, and one with a sign is below one without unless both are zero, in which case
/// they are equal.
pub proof fn law_numbers_are_ordered_by_their_encodings(a: Float32, b: Float32)
    requires
        !a.nan(),
        !b.nan(),
    ensures
        a.bits < 0x8000_0000 && b.bits < 0x8000_0000 ==> (a.rank() < b.rank() <==> a.bits < b.bits),
        a.bits >= 0x8000_0000 && b.bits >= 0x8000_0000 ==> (a.rank() < b.rank() <==> a.bits
            > b.bits),
        a.bits >= 0x8000_0000 && b.bits < 0x8000_0000 ==> a.rank() <= b.rank(),
        a.bits >= 0x8000_0000 && b.bits < 0x8000_0000 ==> (a.rank() == b.rank() <==> a.bits
            == 0x8000_0000 && b.bits == 0),
        a.same(b) <==> a.bits == b.bits || (a.bits == 0 && b.bits == 0x8000_0000) || (a.bits
            == 0x8000_0000 && b.bits == 0),
{
}

/// The same of binary64, as far as it is compared: what is zero, what is at most zero, and what
/// is equal.
pub proof fn law_wide_numbers_by_their_encodings(a: Float64, b: Float64)
    ensures
        a.nan() <==> 0x7ff0_0000_0000_0000 < a.bits < 0x8000_0000_0000_0000 || a.bits
            > 0xfff0_0000_0000_0000,
        a.zero_valued() <==> a.bits == 0 || a.bits == 0x8000_0000_0000_0000,
        a.non_positive() <==> a.bits == 0 || 0x8000_0000_0000_0000 <= a.bits
            <= 0xfff0_0000_0000_0000,
        a.same(b) <==> !a.nan() && (a.bits == b.bits || (a.zero_valued() && b.zero_valued())),
{
}

/// A NaN equals nothing, not even itself.
pub proof fn law_nan_equals_nothing(a: Float32, b: Float32)
    requires
        0x7f80_0000 < a.bits < 0x8000_0000 || a.bits > 0xff80_0000,
    ensures
        !a.same(b),
        !b.same(a),
{
}

/// Rows of numbers are equal exactly if they are equally long and each number equals the one in
/// its place.
pub proof fn law_rows_are_compared_place_by_place(
    a: Seq<Float32>,
    b: Seq<Float32>,
    c: Seq<Float64>,
    d: Seq<Float64>,
)
    ensures
        all_same32(a, b) <==> a.len() == b.len() && forall|i: int|
            0 <= i < a.len() ==> (#[trigger] a[i]).same(b[i]),
        all_same64(c, d) <==> c.len() == d.len() && forall|i: int|
            0 <= i < c.len() ==> (#[trigger] c[i]).same(d[i]),
{
}

} // verus!
