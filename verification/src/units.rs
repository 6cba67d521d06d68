//! Fixed-point values, points, colours, and the arithmetic that keeps them in range.

use vstd::prelude::*;
use vstd::arithmetic::div_mod::lemma_fundamental_div_mod_converse;
use vstd::arithmetic::div_mod::lemma_fundamental_div_mod;
use vstd::arithmetic::div_mod::lemma_mod_bound;

verus! {

/// The fixed-point value that stands for 1: values count in steps of `1 / ONE`.
pub const ONE: i64 = 16_777_216;

/// The number of nanoseconds in a second.
pub const NANOS_PER_SECOND: u64 = 1_000_000_000;

/// A point or a displacement in the plane, in fixed-point steps per axis.
#[derive(Clone, Copy, Debug, PartialEq, Eq, Structural)]
pub struct Vec2 {
    pub x: i64,
    pub y: i64,
}

/// A colour with red, green, blue and alpha channels, in fixed-point steps.
#[derive(Clone, Copy, Debug, PartialEq, Eq, Structural)]
pub struct Color {
    pub r: i64,
    pub g: i64,
    pub b: i64,
    pub a: i64,
}

/// A fraction between 0 and 1, both included.
#[derive(Clone, Copy, Debug, PartialEq, Eq, Structural)]
pub struct Ratio {
    pub num: u64,
    pub den: u64,
}

impl Ratio {
    /// The fraction is defined and lies in the unit interval.
    pub open spec fn wf(self) -> bool {
        0 < self.den && self.num <= self.den
    }

    /// The fraction is 0.
    pub open spec fn is_zero(self) -> bool {
        self.num == 0
    }

    /// The fraction is 1.
    pub open spec fn is_one(self) -> bool {
        self.num == self.den
    }
}

/// The nearest value to `x` that an `i64` can hold.
pub open spec fn clamp(x: int) -> int {
    if x < i64::MIN {
        i64::MIN as int
    } else if x > i64::MAX {
        i64::MAX as int
    } else {
        x
    }
}

/// Rounds `x` to the range of `i64`.
pub fn saturate(x: i128) -> (r: i64)
    ensures
        r == clamp(x as int),
{
    if x < i64::MIN as i128 {
        i64::MIN
    } else if x > i64::MAX as i128 {
        i64::MAX
    } else {
        x as i64
    }
}

/// Divides rounding towards minus infinity.
pub fn div_floor(n: i128, d: i128) -> (q: i128)
    requires
        d > 0,
    ensures
        q == n as int / d as int,
{
    if n >= 0 {
        n / d
    } else {
        let m: i128 = -(n + 1);
        let k: i128 = m / d;
        proof {
            let r: int = m as int % d as int;
            lemma_fundamental_div_mod(m as int, d as int);
            lemma_mod_bound(m as int, d as int);
            assert(n as int == (-k - 1) * d + (d - r - 1)) by (nonlinear_arith)
                requires
                    m as int == d * k + r,
                    n as int == -(m as int) - 1,
            ;
            lemma_fundamental_div_mod_converse(n as int, d as int, -k - 1, d - r - 1);
        }
        -k - 1
    }
}

} // verus!
