//! Fixed-point plane geometry.
//!
//! Positions and velocities are carried in milli-units: thousandths of one
//! physics unit.  All operations are exact integer arithmetic; component
//! arithmetic saturates at the `i32` range, which is stated precisely in
//! each contract and is far beyond the play area.

use vstd::prelude::*;

verus! {

/// A point or vector of the plane, in milli-units.
#[derive(Clone, Copy, Debug, PartialEq, Eq, Structural)]
pub struct Vec2 {
    pub x: i32,
    pub y: i32,
}

/// Clamp a mathematical integer into the `i32` range.
pub open spec fn sat32(v: int) -> int {
    if v > i32::MAX as int {
        i32::MAX as int
    } else if v < i32::MIN as int {
        i32::MIN as int
    } else {
        v
    }
}

/// `r` is the integer square root of `s`: the largest integer whose square
/// does not exceed `s`.
pub open spec fn is_floor_sqrt(s: int, r: int) -> bool {
    0 <= r && r * r <= s && s < (r + 1) * (r + 1)
}

/// The integer square root of a non-negative integer.
pub open spec fn floor_sqrt(s: int) -> int {
    choose|r: int| is_floor_sqrt(s, r)
}

/// The integer square root is unique.
pub proof fn lemma_floor_sqrt_unique(s: int, r1: int, r2: int)
    requires
        is_floor_sqrt(s, r1),
        is_floor_sqrt(s, r2),
    ensures
        r1 == r2,
{
    if r1 < r2 {
        assert((r1 + 1) * (r1 + 1) <= r2 * r2) by (nonlinear_arith)
            requires 0 <= r1, r1 < r2;
    }
    if r2 < r1 {
        assert((r2 + 1) * (r2 + 1) <= r1 * r1) by (nonlinear_arith)
            requires 0 <= r2, r2 < r1;
    }
}

/// A witness of `is_floor_sqrt` equals `floor_sqrt`.
pub proof fn lemma_floor_sqrt_of_witness(s: int, r: int)
    requires
        is_floor_sqrt(s, r),
    ensures
        floor_sqrt(s) == r,
{
    assert(is_floor_sqrt(s, floor_sqrt(s)));
    lemma_floor_sqrt_unique(s, floor_sqrt(s), r);
}

/// Truncating division of `x * 1000` by a positive `n`: the quotient is
/// rounded toward zero, as machine division does.
pub open spec fn scaled_quot(x: int, n: int) -> int
    recommends n > 0,
{
    if x >= 0 {
        (x * 1000) / n
    } else {
        -(((-x) * 1000) / n)
    }
}

/// Component-wise saturating sum.
pub open spec fn spec_plus(a: Vec2, b: Vec2) -> Vec2 {
    Vec2 { x: sat32(a.x + b.x) as i32, y: sat32(a.y + b.y) as i32 }
}

/// Component-wise saturating difference.
pub open spec fn spec_minus(a: Vec2, b: Vec2) -> Vec2 {
    Vec2 { x: sat32(a.x - b.x) as i32, y: sat32(a.y - b.y) as i32 }
}

/// The opposite vector, saturating.
pub open spec fn spec_negated(a: Vec2) -> Vec2 {
    Vec2 { x: sat32(-a.x) as i32, y: sat32(-a.y) as i32 }
}

/// The vector mirrored across the vertical axis, saturating.
pub open spec fn spec_mirrored_x(a: Vec2) -> Vec2 {
    Vec2 { x: sat32(-a.x) as i32, y: a.y }
}

/// The vector scaled by `k`, saturating.
pub open spec fn spec_scaled(a: Vec2, k: int) -> Vec2 {
    Vec2 { x: sat32(a.x * k) as i32, y: sat32(a.y * k) as i32 }
}

/// The exact squared length.
pub open spec fn spec_norm_sq(a: Vec2) -> int {
    (a.x as int) * (a.x as int) + (a.y as int) * (a.y as int)
}

/// The length in milli-units, rounded down.
pub open spec fn spec_magnitude(a: Vec2) -> int {
    floor_sqrt(spec_norm_sq(a))
}

/// The direction of the vector scaled to about a thousand: each component
/// is `c * 1000 / |a|` truncated toward zero; the zero vector maps to
/// zero.
pub open spec fn spec_unit_milli(a: Vec2) -> Vec2 {
    if spec_norm_sq(a) == 0 {
        Vec2 { x: 0, y: 0 }
    } else {
        Vec2 {
            x: scaled_quot(a.x as int, spec_magnitude(a)) as i32,
            y: scaled_quot(a.y as int, spec_magnitude(a)) as i32,
        }
    }
}

/// Saturating `i64 -> i32` narrowing.
pub(crate) fn clamp_to_i32(v: i64) -> (r: i32)
    ensures
        r as int == sat32(v as int),
{
    if v > i32::MAX as i64 {
        i32::MAX
    } else if v < i32::MIN as i64 {
        i32::MIN
    } else {
        v as i32
    }
}

impl Vec2 {
    /// The origin.
    pub fn zero() -> (r: Vec2)
        ensures
            r == (Vec2 { x: 0, y: 0 }),
    {
        Vec2 { x: 0, y: 0 }
    }

    pub fn new(x: i32, y: i32) -> (r: Vec2)
        ensures
            r == (Vec2 { x, y }),
    {
        Vec2 { x, y }
    }

    /// Component-wise sum, saturating at the `i32` range.
    pub fn plus(self, o: Vec2) -> (r: Vec2)
        ensures
            r == spec_plus(self, o),
            r.x as int == sat32(self.x + o.x),
            r.y as int == sat32(self.y + o.y),
    {
        Vec2 {
            x: clamp_to_i32(self.x as i64 + o.x as i64),
            y: clamp_to_i32(self.y as i64 + o.y as i64),
        }
    }

    /// Component-wise difference, saturating at the `i32` range.
    pub fn minus(self, o: Vec2) -> (r: Vec2)
        ensures
            r == spec_minus(self, o),
            r.x as int == sat32(self.x - o.x),
            r.y as int == sat32(self.y - o.y),
    {
        Vec2 {
            x: clamp_to_i32(self.x as i64 - o.x as i64),
            y: clamp_to_i32(self.y as i64 - o.y as i64),
        }
    }

    /// The opposite vector, saturating at the `i32` range.
    pub fn negated(self) -> (r: Vec2)
        ensures
            r == spec_negated(self),
            r.x as int == sat32(-self.x),
            r.y as int == sat32(-self.y),
    {
        Vec2 {
            x: clamp_to_i32(-(self.x as i64)),
            y: clamp_to_i32(-(self.y as i64)),
        }
    }

    /// The vector with its first component negated (mirrored across the
    /// vertical axis), saturating at the `i32` range.
    pub fn mirrored_x(self) -> (r: Vec2)
        ensures
            r == spec_mirrored_x(self),
            r.x as int == sat32(-self.x),
            r.y == self.y,
    {
        Vec2 { x: clamp_to_i32(-(self.x as i64)), y: self.y }
    }

    /// The vector scaled by `k`, each component saturating at `i32`.
    pub fn scaled(self, k: i32) -> (r: Vec2)
        ensures
            r == spec_scaled(self, k as int),
            r.x as int == sat32(self.x * k),
            r.y as int == sat32(self.y * k),
    {
        proof {
            assert((self.x as int) * (k as int) <= i64::MAX as int
                && (self.x as int) * (k as int) >= i64::MIN as int) by (nonlinear_arith)
                requires
                    i32::MIN as int <= self.x as int <= i32::MAX as int,
                    i32::MIN as int <= k as int <= i32::MAX as int;
            assert((self.y as int) * (k as int) <= i64::MAX as int
                && (self.y as int) * (k as int) >= i64::MIN as int) by (nonlinear_arith)
                requires
                    i32::MIN as int <= self.y as int <= i32::MAX as int,
                    i32::MIN as int <= k as int <= i32::MAX as int;
        }
        Vec2 {
            x: clamp_to_i32(self.x as i64 * k as i64),
            y: clamp_to_i32(self.y as i64 * k as i64),
        }
    }

    /// The squared length, exact: `x*x + y*y`.
    pub fn norm_sq(self) -> (s: u64)
        ensures
            s as int == spec_norm_sq(self),
    {
        proof {
            assert(0 <= (self.x as int) * (self.x as int) <= 0x4000_0000_0000_0000int)
                by (nonlinear_arith)
                requires i32::MIN as int <= self.x as int <= i32::MAX as int;
            assert(0 <= (self.y as int) * (self.y as int) <= 0x4000_0000_0000_0000int)
                by (nonlinear_arith)
                requires i32::MIN as int <= self.y as int <= i32::MAX as int;
        }
        let xx: i64 = self.x as i64 * self.x as i64;
        let yy: i64 = self.y as i64 * self.y as i64;
        (xx as u64) + (yy as u64)
    }

    /// The length in milli-units, rounded down to an integer.
    pub fn magnitude(self) -> (m: u64)
        ensures
            m as int == spec_magnitude(self),
            is_floor_sqrt(spec_norm_sq(self), m as int),
            m < 0x1_0000_0000u64,
    {
        let s = self.norm_sq();
        let r = int_sqrt(s);
        proof {
            lemma_floor_sqrt_of_witness(s as int, r as int);
            assert((r as int) < 4294967296) by (nonlinear_arith)
                requires
                    0 <= r as int,
                    (r as int) * (r as int) <= s as int,
                    (s as int) < 0x1_0000_0000_0000_0000int;
        }
        r
    }

    /// The direction of the vector, scaled so that a unit vector of the
    /// plane maps to about 1000: each component is `c * 1000 / |self|`,
    /// truncated toward zero.  The zero vector, which has no direction,
    /// maps to zero.
    pub fn unit_milli(self) -> (u: Vec2)
        ensures
            u == spec_unit_milli(self),
            -1000 <= u.x as int <= 1000,
            -1000 <= u.y as int <= 1000,
    {
        let m = self.magnitude();
        proof {
            let s = (self.x as int) * (self.x as int) + (self.y as int) * (self.y as int);
            assert(0 <= (self.x as int) * (self.x as int) <= 0x4000_0000_0000_0000int)
                by (nonlinear_arith)
                requires i32::MIN as int <= self.x as int <= i32::MAX as int;
            assert(0 <= (self.y as int) * (self.y as int) <= 0x4000_0000_0000_0000int)
                by (nonlinear_arith)
                requires i32::MIN as int <= self.y as int <= i32::MAX as int;
            if m == 0 {
                assert(is_floor_sqrt(s, 0));
                assert(s < (0 + 1) * (0 + 1));
                assert(s < 1);
                assert(self.x == 0 && self.y == 0) by (nonlinear_arith)
                    requires
                        (self.x as int) * (self.x as int) + (self.y as int) * (self.y as int) == 0;
            } else {
                assert(s >= 1) by (nonlinear_arith)
                    requires 1 <= m as int, (m as int) * (m as int) <= s;
                assert(-(m as int) <= self.x as int <= m as int) by (nonlinear_arith)
                    requires
                        (self.x as int) * (self.x as int) <= s,
                        s < (m as int + 1) * (m as int + 1),
                        0 <= m as int;
                assert(-(m as int) <= self.y as int <= m as int) by (nonlinear_arith)
                    requires
                        (self.y as int) * (self.y as int) <= s,
                        s < (m as int + 1) * (m as int + 1),
                        0 <= m as int;
                assert((m as int) < 4294967296) by (nonlinear_arith)
                    requires
                        0 <= m as int,
                        (m as int) * (m as int) <= s,
                        s < 0x1_0000_0000_0000_0000int;
            }
        }
        if m == 0 {
            Vec2 { x: 0, y: 0 }
        } else {
            Vec2 {
                x: div_scaled(self.x, m),
                y: div_scaled(self.y, m),
            }
        }
    }
}

/// `x * 1000 / n` truncated toward zero, for a positive divisor no smaller
/// than `|x|`; the quotient then stays within `[-1000, 1000]`.
fn div_scaled(x: i32, n: u64) -> (q: i32)
    requires
        1 <= n <= 0xFFFF_FFFFu64,
        -(n as int) <= x as int <= n as int,
    ensures
        q as int == scaled_quot(x as int, n as int),
        -1000 <= q as int <= 1000,
{
    if x >= 0 {
        proof {
            assert(0 <= (x as int) * 1000 <= 0xFFFF_FFFFi64 * 1000) by (nonlinear_arith)
                requires 0 <= x as int, x as int <= 0xFFFF_FFFFint;
            assert(0 <= (x as int) * 1000 / (n as int) <= 1000) by (nonlinear_arith)
                requires 0 <= x as int <= n as int, 1 <= n as int;
        }
        let wide: i64 = x as i64 * 1000;
        let qq: i64 = wide / (n as i64);
        qq as i32
    } else {
        let neg: i64 = -(x as i64);
        proof {
            assert(0 <= (neg as int) * 1000 <= 0x1_0000_0000i64 * 1000) by (nonlinear_arith)
                requires 0 <= neg as int, neg as int <= 0x1_0000_0000int;
            assert(0 <= (neg as int) * 1000 / (n as int) <= 1000) by (nonlinear_arith)
                requires 0 <= neg as int <= n as int, 1 <= n as int;
        }
        let wide: i64 = neg * 1000;
        let qq: i64 = wide / (n as i64);
        -(qq as i32)
    }
}

/// The integer square root of a `u64`, by bisection.
pub fn int_sqrt(s: u64) -> (r: u64)
    ensures
        is_floor_sqrt(s as int, r as int),
{
    if s == 0 {
        return 0;
    }
    let mut lo: u64 = 0;
    let mut hi: u64 = 0x1_0000_0000;
    while hi - lo > 1
        invariant
            lo < hi,
            hi <= 0x1_0000_0000,
            (lo as int) * (lo as int) <= s as int,
            (s as int) < (hi as int) * (hi as int),
        decreases hi - lo,
    {
        let mid: u64 = lo + (hi - lo) / 2;
        proof {
            assert((mid as int) * (mid as int) < 0x1_0000_0000_0000_0000int) by (nonlinear_arith)
                requires 0 <= mid as int, (mid as int) < 4294967296;
        }
        let sq: u64 = mid * mid;
        if sq <= s {
            lo = mid;
        } else {
            hi = mid;
        }
    }
    lo
}

} // verus!
