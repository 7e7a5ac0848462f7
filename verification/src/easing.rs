//! Easing curves: how the fraction of elapsed time becomes the fraction of
//! the way travelled. Both fractions are in millionths.

use vstd::prelude::*;
use crate::fixed::{clamp, UNIT};

verus! {

/// The square of `t` over one unit.
pub open spec fn square_over_unit(t: int) -> int {
    (t * t) / 1_000_000
}

/// The cube of `t` over the square of one unit.
pub open spec fn cube_over_unit(t: int) -> int {
    (t * t * t) / 1_000_000_000_000
}

/// A curve from the fraction of time to the fraction of the way.
#[derive(Clone, Copy, Debug, PartialEq, Eq, Structural)]
pub enum Easing {
    /// Constant speed.
    Linear,
    /// Starts slowly: the square of the time.
    QuadIn,
    /// Ends slowly.
    QuadOut,
    /// Starts slowly: the cube of the time.
    CubicIn,
    /// Ends slowly.
    CubicOut,
    /// Starts and ends slowly.
    CubicInOut,
}

impl Easing {
    /// The fraction of the way at the fraction `t` of the time, for `t` from
    /// nothing to one unit.
    pub open spec fn curve(self, t: int) -> int {
        match self {
            Easing::Linear => t,
            Easing::QuadIn => square_over_unit(t),
            Easing::QuadOut => UNIT - square_over_unit(UNIT - t),
            Easing::CubicIn => cube_over_unit(t),
            Easing::CubicOut => UNIT - cube_over_unit(UNIT - t),
            Easing::CubicInOut => if 2 * t < UNIT {
                4 * cube_over_unit(t)
            } else {
                UNIT - 4 * cube_over_unit(UNIT - t)
            },
        }
    }

    /// The curve on any number: times before the start count as the start,
    /// times after the end as the end.
    pub open spec fn eased(self, t: int) -> int {
        self.curve(clamp(t, 0, UNIT as int))
    }

    /// The fraction of the way travelled at the fraction `t` of the time.
    pub fn apply(&self, t: i64) -> (e: i64)
        ensures
            e == self.eased(t as int),
            0 <= e <= UNIT,
            t <= 0 ==> e == 0,
            t >= UNIT ==> e == UNIT,
    {
        let c: i64 = if t < 0 {
            0
        } else if t > UNIT {
            UNIT
        } else {
            t
        };
        let r: i64 = UNIT - c;
        proof {
            lemma_curve_bounds(*self, c as int);
            lemma_powers_bounded(c as int);
            lemma_powers_bounded(r as int);
        }
        match self {
            Easing::Linear => c,
            Easing::QuadIn => (c * c) / 1_000_000,
            Easing::QuadOut => UNIT - (r * r) / 1_000_000,
            Easing::CubicIn => (c * c * c) / 1_000_000_000_000,
            Easing::CubicOut => UNIT - (r * r * r) / 1_000_000_000_000,
            Easing::CubicInOut => if 2 * c < UNIT {
                4 * ((c * c * c) / 1_000_000_000_000)
            } else {
                UNIT - 4 * ((r * r * r) / 1_000_000_000_000)
            },
        }
    }
}

impl Default for Easing {
    /// The curve used where none is chosen: slow at both ends.
    fn default() -> (e: Easing)
        ensures
            e == Easing::CubicInOut,
    {
        Easing::CubicInOut
    }
}

/// Squares and cubes of a fraction stay under those of one unit.
pub proof fn lemma_powers_bounded(t: int)
    requires
        0 <= t <= UNIT,
    ensures
        0 <= t * t <= 1_000_000_000_000,
        0 <= t * t * t <= 1_000_000_000_000_000_000,
        0 <= square_over_unit(t) <= UNIT,
        0 <= cube_over_unit(t) <= UNIT,
        2 * t <= UNIT ==> 8 * (t * t * t) <= 1_000_000_000_000_000_000,
        2 * t <= UNIT ==> 4 * cube_over_unit(t) <= 500_000,
{
    assert(0 <= t * t <= 1_000_000_000_000) by (nonlinear_arith)
        requires
            0 <= t <= 1_000_000,
    ;
    let s = t * t;
    assert(0 <= s * t <= 1_000_000_000_000_000_000) by (nonlinear_arith)
        requires
            0 <= t <= 1_000_000,
            0 <= s <= 1_000_000_000_000,
    ;
    if 2 * t <= UNIT {
        assert(0 <= t * t <= 250_000_000_000) by (nonlinear_arith)
            requires
                0 <= t <= 500_000,
        ;
        assert(s * t <= 125_000_000_000_000_000) by (nonlinear_arith)
            requires
                0 <= t <= 500_000,
                0 <= s <= 250_000_000_000,
        ;
    }
}

/// Every curve starts at nothing, ends at one unit and stays between the two.
pub proof fn lemma_curve_bounds(easing: Easing, t: int)
    requires
        0 <= t <= UNIT,
    ensures
        0 <= easing.curve(t) <= UNIT,
        easing.curve(0) == 0,
        easing.curve(UNIT as int) == UNIT,
{
    lemma_powers_bounded(t);
    lemma_powers_bounded(UNIT - t);
    lemma_powers_bounded(0);
    lemma_powers_bounded(UNIT as int);
    assert(0int * 0int == 0);
    assert(0int * 0int * 0int == 0);
    assert(1_000_000int * 1_000_000int == 1_000_000_000_000int);
    assert(1_000_000int * 1_000_000int * 1_000_000int == 1_000_000_000_000_000_000int);
}

} // verus!
