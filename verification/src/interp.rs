//! Linear interpolation of values, points and colours.

use vstd::prelude::*;
use vstd::arithmetic::div_mod::lemma_div_is_ordered;
use vstd::arithmetic::div_mod::lemma_div_multiples_vanish;
use crate::units::Color;
use crate::units::Ratio;
use crate::units::Vec2;
use crate::units::div_floor;

verus! {

/// The value a fraction `t` of the way from `a` to `b`, rounded down to a whole step.
pub open spec fn lerp_value(a: int, b: int, t: Ratio) -> int {
    (a * (t.den - t.num) + b * t.num) / (t.den as int)
}

/// The point a fraction `t` of the way from `a` to `b`, axis by axis.
pub open spec fn lerp_point(a: Vec2, b: Vec2, t: Ratio) -> Vec2 {
    Vec2 {
        x: lerp_value(a.x as int, b.x as int, t) as i64,
        y: lerp_value(a.y as int, b.y as int, t) as i64,
    }
}

/// The colour a fraction `t` of the way from `a` to `b`, channel by channel.
pub open spec fn lerp_shade(a: Color, b: Color, t: Ratio) -> Color {
    Color {
        r: lerp_value(a.r as int, b.r as int, t) as i64,
        g: lerp_value(a.g as int, b.g as int, t) as i64,
        b: lerp_value(a.b as int, b.b as int, t) as i64,
        a: lerp_value(a.a as int, b.a as int, t) as i64,
    }
}

/// An interpolated value never leaves the interval between its two ends.
pub proof fn lemma_lerp_between(a: int, b: int, t: Ratio)
    requires
        t.wf(),
    ensures
        a <= b ==> a <= lerp_value(a, b, t) <= b,
        b <= a ==> b <= lerp_value(a, b, t) <= a,
{
    let d: int = t.den as int;
    let n: int = t.num as int;
    let s: int = a * (d - n) + b * n;
    let lo: int = if a <= b { a } else { b };
    let hi: int = if a <= b { b } else { a };
    assert(lo * d <= s <= hi * d) by (nonlinear_arith)
        requires
            0 <= n <= d,
            s == a * (d - n) + b * n,
            lo <= a <= hi,
            lo <= b <= hi,
    ;
    lemma_div_is_ordered(lo * d, s, d);
    lemma_div_is_ordered(s, hi * d, d);
    lemma_div_multiples_vanish(lo, d);
    lemma_div_multiples_vanish(hi, d);
    assert(lo * d == d * lo && hi * d == d * hi) by (nonlinear_arith);
}

/// Interpolating from a value to itself gives that value, whatever the fraction.
pub proof fn lemma_lerp_identity(a: int, t: Ratio)
    requires
        t.wf(),
    ensures
        lerp_value(a, a, t) == a,
{
    lemma_lerp_between(a, a, t);
}

/// At fraction 0 the interpolation gives its first end.
pub proof fn lemma_lerp_start(a: int, b: int, t: Ratio)
    requires
        t.wf(),
        t.is_zero(),
    ensures
        lerp_value(a, b, t) == a,
{
    let d: int = t.den as int;
    assert(a * (d - 0) + b * 0 == d * a) by (nonlinear_arith);
    lemma_div_multiples_vanish(a, d);
}

/// At fraction 1 the interpolation gives its second end.
pub proof fn lemma_lerp_end(a: int, b: int, t: Ratio)
    requires
        t.wf(),
        t.is_one(),
    ensures
        lerp_value(a, b, t) == b,
{
    let d: int = t.den as int;
    assert(a * (d - d) + b * d == d * b) by (nonlinear_arith);
    lemma_div_multiples_vanish(b, d);
}

/// Points and colours interpolate like values: from a point or a colour to
/// itself nothing changes, at fraction 0 the first end comes out, and at
/// fraction 1 the second.
pub proof fn lemma_lerp_ends(a: Vec2, b: Vec2, c: Color, d: Color, t: Ratio)
    requires
        t.wf(),
    ensures
        lerp_point(a, a, t) == a,
        lerp_shade(c, c, t) == c,
        t.is_zero() ==> lerp_point(a, b, t) == a && lerp_shade(c, d, t) == c,
        t.is_one() ==> lerp_point(a, b, t) == b && lerp_shade(c, d, t) == d,
{
    lemma_lerp_identity(a.x as int, t);
    lemma_lerp_identity(a.y as int, t);
    lemma_lerp_identity(c.r as int, t);
    lemma_lerp_identity(c.g as int, t);
    lemma_lerp_identity(c.b as int, t);
    lemma_lerp_identity(c.a as int, t);
    if t.is_zero() {
        lemma_lerp_start(a.x as int, b.x as int, t);
        lemma_lerp_start(a.y as int, b.y as int, t);
        lemma_lerp_start(c.r as int, d.r as int, t);
        lemma_lerp_start(c.g as int, d.g as int, t);
        lemma_lerp_start(c.b as int, d.b as int, t);
        lemma_lerp_start(c.a as int, d.a as int, t);
    }
    if t.is_one() {
        lemma_lerp_end(a.x as int, b.x as int, t);
        lemma_lerp_end(a.y as int, b.y as int, t);
        lemma_lerp_end(c.r as int, d.r as int, t);
        lemma_lerp_end(c.g as int, d.g as int, t);
        lemma_lerp_end(c.b as int, d.b as int, t);
        lemma_lerp_end(c.a as int, d.a as int, t);
    }
}

/// Interpolates between two values.
pub fn lerp(a: i64, b: i64, t: Ratio) -> (r: i64)
    requires
        t.wf(),
    ensures
        r == lerp_value(a as int, b as int, t),
{
    let rest: u64 = t.den - t.num;
    proof {
        let d: int = t.den as int;
        let n: int = t.num as int;
        assert(-0x8000_0000_0000_0000 * d <= a * (d - n) <= 0x8000_0000_0000_0000 * d
            && -0x8000_0000_0000_0000 * d <= b * n <= 0x8000_0000_0000_0000 * d
            && -0x8000_0000_0000_0000 * d <= a * (d - n) + b * n <= 0x8000_0000_0000_0000 * d)
            by (nonlinear_arith)
            requires
                0 <= n <= d,
                -0x8000_0000_0000_0000 <= a <= 0x8000_0000_0000_0000,
                -0x8000_0000_0000_0000 <= b <= 0x8000_0000_0000_0000,
        ;
        lemma_lerp_between(a as int, b as int, t);
    }
    let from_a: i128 = (a as i128) * (rest as i128);
    let from_b: i128 = (b as i128) * (t.num as i128);
    let q: i128 = div_floor(from_a + from_b, t.den as i128);
    q as i64
}

/// Interpolates between two points, each axis by itself.
pub fn lerp_vec2(a: Vec2, b: Vec2, t: Ratio) -> (r: Vec2)
    requires
        t.wf(),
    ensures
        r == lerp_point(a, b, t),
{
    Vec2 { x: lerp(a.x, b.x, t), y: lerp(a.y, b.y, t) }
}

/// Interpolates between two colours, each channel by itself.
pub fn lerp_color(a: Color, b: Color, t: Ratio) -> (r: Color)
    requires
        t.wf(),
    ensures
        r == lerp_shade(a, b, t),
{
    Color {
        r: lerp(a.r, b.r, t),
        g: lerp(a.g, b.g, t),
        b: lerp(a.b, b.b, t),
        a: lerp(a.a, b.a, t),
    }
}

} // verus!
