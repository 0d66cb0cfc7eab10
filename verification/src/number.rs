//! Order of binary floating-point numbers, decided on their bit patterns.

use vstd::prelude::*;

verus! {

/// The weight of the sign bit.
pub const SIGN_BIT: u64 = 0x8000_0000_0000_0000;

/// The magnitude of an infinity; larger magnitudes are not numbers.
pub const INFINITE_MAGNITUDE: u64 = 0x7FF0_0000_0000_0000;

/// The pattern of zero.
pub const ZERO: u64 = 0;

/// A binary64 number, carried by its bit pattern.
///
/// Nothing is calculated with such a number here. It is compared, clamped and
/// handed on, and the arithmetic is left to the caller.
#[derive(Clone, Copy, Debug)]
pub struct Number {
    /// The IEEE 754 pattern: one sign bit, eleven exponent bits, 52 fraction bits.
    pub bits: u64,
}

impl Number {
    /// The pattern without its sign bit.
    pub open spec fn spec_magnitude(self) -> int {
        self.bits as int % 0x8000_0000_0000_0000
    }

    /// Whether the sign bit is set.
    pub open spec fn spec_negative(self) -> bool {
        self.bits >= SIGN_BIT
    }

    /// Whether the pattern is that of no number.
    pub open spec fn spec_is_nan(self) -> bool {
        self.spec_magnitude() > INFINITE_MAGNITUDE
    }

    /// The place of the number on a line of integers. It grows with the number, and
    /// both zeros stand at 0.
    pub open spec fn place(self) -> int {
        if self.spec_negative() {
            -self.spec_magnitude()
        } else {
            self.spec_magnitude()
        }
    }

    /// `self < other`: false as soon as one of the two is no number.
    pub open spec fn below(self, other: Number) -> bool {
        !self.spec_is_nan() && !other.spec_is_nan() && self.place() < other.place()
    }

    /// `self <= other`: false as soon as one of the two is no number.
    pub open spec fn at_most(self, other: Number) -> bool {
        !self.spec_is_nan() && !other.spec_is_nan() && self.place() <= other.place()
    }

    /// `self == other`: the zeros are equal, and what is no number equals nothing.
    pub open spec fn equals(self, other: Number) -> bool {
        !self.spec_is_nan() && !other.spec_is_nan() && self.place() == other.place()
    }

    /// The same number with the sign bit cleared.
    pub open spec fn spec_abs(self) -> Number {
        Number { bits: self.spec_magnitude() as u64 }
    }

    /// The nearest number between `low` and `high`; what is no number is kept.
    pub open spec fn spec_clamp(self, low: Number, high: Number) -> Number {
        if self.below(low) {
            low
        } else if high.below(self) {
            high
        } else {
            self
        }
    }

    /// The number with the given pattern.
    pub fn from_bits(bits: u64) -> (r: Number)
        ensures
            r.bits == bits,
    {
        Number { bits }
    }

    /// Whether the pattern is that of no number.
    pub fn is_nan(&self) -> (r: bool)
        ensures
            r == self.spec_is_nan(),
    {
        self.bits % SIGN_BIT > INFINITE_MAGNITUDE
    }

    fn signed(&self) -> (r: i64)
        ensures
            r == self.place(),
    {
        let magnitude: i64 = (self.bits % SIGN_BIT) as i64;
        if self.bits >= SIGN_BIT {
            -magnitude
        } else {
            magnitude
        }
    }

    /// Compares two numbers with `<`.
    pub fn is_below(&self, other: Number) -> (r: bool)
        ensures
            r == self.below(other),
    {
        !self.is_nan() && !other.is_nan() && self.signed() < other.signed()
    }

    /// Compares two numbers with `<=`.
    pub fn is_at_most(&self, other: Number) -> (r: bool)
        ensures
            r == self.at_most(other),
    {
        !self.is_nan() && !other.is_nan() && self.signed() <= other.signed()
    }

    /// Compares two numbers with `==`.
    pub fn is_equal(&self, other: Number) -> (r: bool)
        ensures
            r == self.equals(other),
    {
        !self.is_nan() && !other.is_nan() && self.signed() == other.signed()
    }

    /// Clears the sign bit.
    pub fn abs(&self) -> (r: Number)
        ensures
            r == self.spec_abs(),
    {
        Number { bits: self.bits % SIGN_BIT }
    }

    /// Restricts the number to the range from `low` to `high`.
    pub fn clamp(&self, low: Number, high: Number) -> (r: Number)
        requires
            low.at_most(high),
        ensures
            r == self.spec_clamp(low, high),
    {
        if self.is_below(low) {
            low
        } else if high.is_below(*self) {
            high
        } else {
            *self
        }
    }
}

/// A clamped number lies in the range, and clamping it again changes nothing.
pub proof fn law_clamp_lands_in_range(value: Number, low: Number, high: Number)
    requires
        low.at_most(high),
        !value.spec_is_nan(),
    ensures
        low.at_most(value.spec_clamp(low, high)),
        value.spec_clamp(low, high).at_most(high),
        value.spec_clamp(low, high).spec_clamp(low, high) == value.spec_clamp(low, high),
{
}

/// A number that already lies in the range is kept as it is.
pub proof fn law_clamp_keeps_what_is_in_range(value: Number, low: Number, high: Number)
    requires
        low.at_most(value),
        value.at_most(high),
    ensures
        value.spec_clamp(low, high) == value,
{
}

/// `<` is a strict order of the numbers: of any two that are numbers, exactly one of
/// `<`, `==` and `>` holds, and `<` is transitive.
pub proof fn law_below_is_a_strict_order(a: Number, b: Number, c: Number)
    requires
        !a.spec_is_nan(),
        !b.spec_is_nan(),
    ensures
        a.below(b) || b.below(a) || a.equals(b),
        !(a.below(b) && b.below(a)),
        !(a.below(b) && a.equals(b)),
        !(b.below(a) && a.equals(b)),
        a.below(b) && b.below(c) ==> a.below(c),
{
}

/// What is no number is neither below, at most nor equal to anything.
pub proof fn law_not_a_number_is_unordered(a: Number, b: Number)
    requires
        a.spec_is_nan() || b.spec_is_nan(),
    ensures
        !a.below(b),
        !a.at_most(b),
        !a.equals(b),
{
}

/// The order of the numbers by their patterns: without a sign a larger pattern is a larger
/// number, with one it is a smaller number, and a number with a sign is below one without,
/// unless both are zeros.
pub proof fn law_order_of_patterns(a: Number, b: Number)
    requires
        !a.spec_is_nan(),
        !b.spec_is_nan(),
    ensures
        a.bits < 0x8000_0000_0000_0000 && b.bits < 0x8000_0000_0000_0000 ==> (a.below(b)
            <==> a.bits < b.bits),
        a.bits >= 0x8000_0000_0000_0000 && b.bits >= 0x8000_0000_0000_0000 ==> (a.below(b)
            <==> a.bits > b.bits),
        a.bits >= 0x8000_0000_0000_0000 && b.bits < 0x8000_0000_0000_0000 ==> (a.below(b) <==> !(
        a.bits == 0x8000_0000_0000_0000 && b.bits == 0)),
        a.bits < 0x8000_0000_0000_0000 && b.bits >= 0x8000_0000_0000_0000 ==> !a.below(b),
        a.at_most(b) <==> !b.below(a),
        a.equals(b) <==> a.bits == b.bits || (a.bits % 0x8000_0000_0000_0000 == 0 && b.bits
            % 0x8000_0000_0000_0000 == 0),
{
}

/// A pattern is that of no number if and only if it lies beyond that of an infinity, the
/// sign left aside.
pub proof fn law_patterns_of_no_number(a: Number)
    ensures
        a.bits < 0x8000_0000_0000_0000 ==> (a.spec_is_nan() <==> a.bits > 0x7FF0_0000_0000_0000),
        a.bits >= 0x8000_0000_0000_0000 ==> (a.spec_is_nan() <==> a.bits > 0xFFF0_0000_0000_0000),
{
}

/// The absolute value has no sign, and differs from the number in nothing else.
pub proof fn law_absolute_value_drops_the_sign(a: Number)
    ensures
        a.spec_abs().bits < 0x8000_0000_0000_0000,
        a.spec_abs().bits == a.bits || a.spec_abs().bits + 0x8000_0000_0000_0000 == a.bits,
{
}

/// A number outside a range is moved to the end that it is nearer to; what is no number is
/// kept.
pub proof fn law_clamp_moves_to_the_nearer_end(value: Number, low: Number, high: Number)
    requires
        low.at_most(high),
    ensures
        value.below(low) ==> value.spec_clamp(low, high) == low,
        high.below(value) ==> value.spec_clamp(low, high) == high,
        !value.below(low) && !high.below(value) ==> value.spec_clamp(low, high) == value,
        value.spec_is_nan() ==> value.spec_clamp(low, high) == value,
{
}

} // verus!
