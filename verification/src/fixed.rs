//! Exact fixed-point numbers.
//!
//! Every quantity the library computes with (statistic values, expected
//! damage, table entries) is a decimal with at most seven fractional
//! digits, held exactly as a count of `1 / SCALE` units in an `i64`.
//! Dice averages are multiples of one half, table entries are whole
//! numbers, and the two divisions in the library (interpolation and
//! proportional rescaling) round toward negative infinity, so every
//! value is pinned exactly by the contracts.

use vstd::prelude::*;

verus! {

/// Number of fixed-point units in one whole point.
pub const SCALE: i64 = 10_000_000;

/// Half a point: the expected-value granularity of a single die.
pub const HALF_SCALE: i64 = 5_000_000;

/// Largest magnitude, in fixed-point units, that the library computes
/// with: one billion whole points. Everything the domain produces is
/// far below this, and it leaves ample headroom in an `i64`.
pub const MAX_UNITS: i64 = 10_000_000_000_000_000;

/// A signed fixed-point decimal: `units / SCALE` points, held exactly.
#[derive(Clone, Copy, Debug, PartialEq, Eq, Structural)]
pub struct Fixed {
    pub units: i64,
}

impl View for Fixed {
    type V = int;

    open spec fn view(&self) -> int {
        self.units as int
    }
}

impl Fixed {
    /// The value is within the magnitude the library supports.
    pub open spec fn in_bounds(self) -> bool {
        -MAX_UNITS <= self.units <= MAX_UNITS
    }

    /// Build a value from a raw count of `1 / SCALE` units.
    pub fn from_units(units: i64) -> (r: Fixed)
        requires
            -MAX_UNITS <= units <= MAX_UNITS,
        ensures
            r@ == units,
            r.in_bounds(),
    {
        Fixed { units }
    }

    /// Build a whole-number value.
    pub fn from_int(n: i64) -> (r: Fixed)
        requires
            -1_000_000_000 <= n <= 1_000_000_000,
        ensures
            r@ == n * SCALE,
            r.in_bounds(),
    {
        proof {
            assert(-MAX_UNITS <= n * (SCALE as int) <= MAX_UNITS) by (nonlinear_arith)
                requires -1_000_000_000 <= n <= 1_000_000_000;
        }
        Fixed { units: n * SCALE }
    }

    /// The raw count of `1 / SCALE` units.
    pub fn units(self) -> (r: i64)
        ensures
            r == self@,
    {
        self.units
    }

    pub fn le(self, other: Fixed) -> (r: bool)
        ensures
            r == (self@ <= other@),
    {
        self.units <= other.units
    }

    pub fn lt(self, other: Fixed) -> (r: bool)
        ensures
            r == (self@ < other@),
    {
        self.units < other.units
    }

    /// Exact sum.
    pub fn add(self, other: Fixed) -> (r: Fixed)
        requires
            self.in_bounds(),
            other.in_bounds(),
        ensures
            r@ == self@ + other@,
    {
        Fixed { units: self.units + other.units }
    }

    /// Exact difference.
    pub fn sub(self, other: Fixed) -> (r: Fixed)
        requires
            self.in_bounds(),
            other.in_bounds(),
        ensures
            r@ == self@ - other@,
    {
        Fixed { units: self.units - other.units }
    }

    /// Exact product-then-quotient `self * num / den`, rounded toward
    /// negative infinity. Restricted to `self <= den`, which keeps the
    /// result at most `num`; that is the shape both interpolation and
    /// proportional rescaling need.
    pub fn mul_div(self, num: Fixed, den: Fixed) -> (r: Fixed)
        requires
            0 <= self@ <= den@,
            0 <= num@ <= MAX_UNITS,
            0 < den@,
        ensures
            r@ == self@ * num@ / den@,
            0 <= r@ <= num@,
    {
        proof {
            let a = self.units as int;
            let b = num.units as int;
            assert(a * b <= 9_223_372_036_854_775_807 * 10_000_000_000_000_000) by (nonlinear_arith)
                requires 0 <= a <= 9_223_372_036_854_775_807 && 0 <= b <= 10_000_000_000_000_000;
        }

        let p: u128 = (self.units as u128) * (num.units as u128);
        let d: u128 = den.units as u128;
        let q: u128 = p / d;

        proof {
            let a = self.units as int;
            let b = num.units as int;
            let c = den.units as int;
            assert(a * b <= c * b) by (nonlinear_arith)
                requires 0 <= a <= c && 0 <= b;
            vstd::arithmetic::div_mod::lemma_div_is_ordered(a * b, c * b, c);
            vstd::arithmetic::div_mod::lemma_div_multiples_vanish(b, c);
            assert(c * b == b * c) by (nonlinear_arith);
            assert(a * b >= 0) by (nonlinear_arith)
                requires 0 <= a && 0 <= b;
            vstd::arithmetic::div_mod::lemma_div_pos_is_pos(a * b, c);
        }

        Fixed { units: q as i64 }
    }

    /// The whole-number part, rounded toward negative infinity.
    /// Only needed for non-negative values.
    pub fn floor(self) -> (r: i64)
        requires
            self@ >= 0,
        ensures
            r == self@ / (SCALE as int),
            0 <= r,
            r * (SCALE as int) <= self@,
    {
        let r = self.units / SCALE;
        proof {
            vstd::arithmetic::div_mod::lemma_fundamental_div_mod(self.units as int, SCALE as int);
        }
        r
    }
}

} // verus!
