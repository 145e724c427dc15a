//! Fixed-point three-component vectors and the integer arithmetic the
//! locomotion rules are stated over: truncating division, integer square
//! roots, a magnitude clamp and normalization.

use vstd::prelude::*;

use crate::units::{COORD_LIMIT, SCALE};

verus! {

/// A point or direction in world space, each component in fixed-point
/// thousandths of a world unit. Directions meant as unit vectors have
/// magnitude close to `SCALE`.
#[derive(Clone, Copy, Debug, PartialEq, Eq, Structural)]
pub struct Vec3 {
    pub x: i64,
    pub y: i64,
    pub z: i64,
}

/// Absolute value over `int`.
pub open spec fn iabs(a: int) -> int {
    if a < 0 {
        -a
    } else {
        a
    }
}

/// A product of bounded factors is bounded by the product of the bounds.
pub proof fn lemma_mul_bound(a: int, b: int, am: int, bm: int)
    by (nonlinear_arith)
    requires
        -am <= a <= am,
        -bm <= b <= bm,
        0 <= am,
        0 <= bm,
    ensures
        -(am * bm) <= a * b <= am * bm,
{
}

/// Truncating (round-toward-zero) division, the rounding Rust's `/` uses on
/// signed integers. Spec-mode `/` on `int` rounds toward negative infinity,
/// so contracts about signed quotients are phrased with this instead.
pub open spec fn tdiv(a: int, b: int) -> int {
    if a >= 0 {
        a / b
    } else {
        -((-a) / b)
    }
}

impl Vec3 {
    /// The zero vector.
    pub open spec fn spec_zero() -> Vec3 {
        Vec3 { x: 0, y: 0, z: 0 }
    }

    /// All three components stay within the world bound.
    pub open spec fn in_world(self) -> bool {
        &&& -COORD_LIMIT <= self.x <= COORD_LIMIT
        &&& -COORD_LIMIT <= self.y <= COORD_LIMIT
        &&& -COORD_LIMIT <= self.z <= COORD_LIMIT
    }

    /// All three components stay within `b`.
    pub open spec fn bounded(self, b: int) -> bool {
        &&& -b <= self.x <= b
        &&& -b <= self.y <= b
        &&& -b <= self.z <= b
    }

    /// Squared magnitude of the horizontal (x, z) part.
    pub open spec fn norm_sq_xz(self) -> int {
        self.x * self.x + self.z * self.z
    }

    /// The zero vector, as a value.
    pub fn zero() -> (r: Vec3)
        ensures
            r == Vec3::spec_zero(),
    {
        Vec3 { x: 0, y: 0, z: 0 }
    }

    /// Componentwise sum.
    pub fn add(self, o: Vec3) -> (r: Vec3)
        requires
            self.in_world(),
            o.in_world(),
        ensures
            r.x == self.x + o.x,
            r.y == self.y + o.y,
            r.z == self.z + o.z,
    {
        Vec3 { x: self.x + o.x, y: self.y + o.y, z: self.z + o.z }
    }

    /// Componentwise difference.
    pub fn sub(self, o: Vec3) -> (r: Vec3)
        requires
            self.in_world(),
            o.in_world(),
        ensures
            r.x == self.x - o.x,
            r.y == self.y - o.y,
            r.z == self.z - o.z,
    {
        Vec3 { x: self.x - o.x, y: self.y - o.y, z: self.z - o.z }
    }

    /// Dot product of two bounded vectors.
    pub fn dot(self, o: Vec3) -> (r: i64)
        requires
            self.in_world(),
            o.bounded(2 * SCALE),
        ensures
            r == self.x * o.x + self.y * o.y + self.z * o.z,
    {
        proof {
            lemma_mul_bound(self.x as int, o.x as int, COORD_LIMIT as int, 2 * SCALE);
            lemma_mul_bound(self.y as int, o.y as int, COORD_LIMIT as int, 2 * SCALE);
            lemma_mul_bound(self.z as int, o.z as int, COORD_LIMIT as int, 2 * SCALE);
        }
        self.x * o.x + self.y * o.y + self.z * o.z
    }
}

/// Integer square root rounded down: the largest `r` with `r * r <= n`.
pub closed spec fn sqrt_floor(n: nat) -> nat
    decreases n,
{
    if n == 0 {
        0
    } else {
        let r = sqrt_floor((n - 1) as nat);
        if (r + 1) * (r + 1) <= n {
            r + 1
        } else {
            r
        }
    }
}

/// `sqrt_floor(n)` squares to at most `n`, and the next integer squares past
/// it.
pub proof fn lemma_sqrt_floor_bounds(n: nat)
    ensures
        sqrt_floor(n) * sqrt_floor(n) <= n,
        n < (sqrt_floor(n) + 1) * (sqrt_floor(n) + 1),
    decreases n,
{
    if n == 0 {
        assert(sqrt_floor(n) == 0);
        assert((sqrt_floor(n) + 1) * (sqrt_floor(n) + 1) == 1) by (nonlinear_arith)
            requires
                sqrt_floor(n) == 0,
        ;
    } else {
        lemma_sqrt_floor_bounds((n - 1) as nat);
        let r = sqrt_floor((n - 1) as nat);
        if (r + 1) * (r + 1) <= n {
            assert(sqrt_floor(n) == r + 1);
            assert(n <= (r + 1) * (r + 1));
            assert((r + 1) * (r + 1) < (r + 2) * (r + 2)) by (nonlinear_arith);
        } else {
            assert(sqrt_floor(n) == r);
        }
    }
}

/// Any `r` whose square brackets `n` is the rounded-down square root.
pub proof fn lemma_sqrt_floor_unique(n: nat, r: nat)
    requires
        r * r <= n,
        n < (r + 1) * (r + 1),
    ensures
        r == sqrt_floor(n),
{
    lemma_sqrt_floor_bounds(n);
    let s = sqrt_floor(n);
    if r < s {
        assert((r + 1) * (r + 1) <= s * s) by (nonlinear_arith)
            requires
                r + 1 <= s,
        ;
    }
    if s < r {
        assert((s + 1) * (s + 1) <= r * r) by (nonlinear_arith)
            requires
                s + 1 <= r,
        ;
    }
}

/// Integer square root rounded up: the least `r` with `n <= r * r`.
pub open spec fn sqrt_ceil(n: nat) -> nat {
    if sqrt_floor(n) * sqrt_floor(n) == n {
        sqrt_floor(n)
    } else {
        sqrt_floor(n) + 1
    }
}

/// `sqrt_ceil(n)` squares to at least `n` and is positive for positive `n`.
pub proof fn lemma_sqrt_ceil_bounds(n: nat)
    ensures
        n <= sqrt_ceil(n) * sqrt_ceil(n),
        n > 0 ==> sqrt_ceil(n) > 0,
        sqrt_ceil(n) <= sqrt_floor(n) + 1,
{
    lemma_sqrt_floor_bounds(n);
}

/// Integer square root of `n`, rounded down, by bisection.
pub fn isqrt(n: u64) -> (r: u64)
    requires
        n < 0x4000_0000_0000_0000,
    ensures
        r == sqrt_floor(n as nat),
        r * r <= n,
{
    let mut lo: u64 = 0;
    let mut hi: u64 = 0x8000_0000;
    proof {
        assert((0x8000_0000 as int) * (0x8000_0000 as int) == 0x4000_0000_0000_0000)
            by (nonlinear_arith);
    }
    while lo + 1 < hi
        invariant
            lo < hi <= 0x8000_0000,
            (lo as int) * (lo as int) <= n as int,
            (n as int) < (hi as int) * (hi as int),
        decreases hi - lo,
    {
        let mid: u64 = lo + (hi - lo) / 2;
        proof {
            lemma_mul_bound(mid as int, mid as int, 0x8000_0000, 0x8000_0000);
        }
        if mid * mid <= n {
            lo = mid;
        } else {
            hi = mid;
        }
    }
    proof {
        lemma_sqrt_floor_unique(n as nat, lo as nat);
    }
    lo
}

/// A vector whose squared magnitude is bounded has bounded components.
pub proof fn lemma_component_bound(x: int, z: int, m: int)
    by (nonlinear_arith)
    requires
        x * x + z * z <= m * m,
        0 <= m,
    ensures
        -m <= x <= m,
        -m <= z <= m,
{
}

/// Dividing two legs of a bounded hypotenuse by `d` keeps the squared sum
/// under `cap * cap`.
pub proof fn lemma_scaled_norm_bound(a: int, b: int, d: int, cap: int)
    requires
        0 <= a,
        0 <= b,
        0 < d,
        0 <= cap,
        a * a + b * b <= (cap * cap) * (d * d),
    ensures
        (a / d) * (a / d) + (b / d) * (b / d) <= cap * cap,
{
    let qa = a / d;
    let qb = b / d;
    let ra = a % d;
    let rb = b % d;
    vstd::arithmetic::div_mod::lemma_fundamental_div_mod(a, d);
    vstd::arithmetic::div_mod::lemma_fundamental_div_mod(b, d);
    vstd::arithmetic::div_mod::lemma_mod_bound(a, d);
    vstd::arithmetic::div_mod::lemma_mod_bound(b, d);
    assert(qa * qa * (d * d) + qb * qb * (d * d) <= a * a + b * b) by (nonlinear_arith)
        requires
            a == d * qa + ra,
            b == d * qb + rb,
            0 <= ra < d,
            0 <= rb < d,
            0 <= a,
            0 <= b,
    ;
    assert(qa * qa + qb * qb <= cap * cap) by (nonlinear_arith)
        requires
            qa * qa * (d * d) + qb * qb * (d * d) <= (cap * cap) * (d * d),
            0 < d,
    ;
}

/// Truncating division is exact on multiples of the divisor.
pub proof fn lemma_tdiv_exact(k: int, m: int)
    requires
        0 < m,
    ensures
        tdiv(k * m, m) == k,
{
    vstd::arithmetic::div_mod::lemma_div_multiples_vanish(k, m);
    assert(m * k == k * m) by (nonlinear_arith);
    if k >= 0 {
        assert(k * m >= 0) by (nonlinear_arith)
            requires
                k >= 0,
                0 < m,
        ;
    } else {
        assert(k * m < 0) by (nonlinear_arith)
            requires
                k < 0,
                0 < m,
        ;
        assert(-(k * m) == (-k) * m) by (nonlinear_arith);
        vstd::arithmetic::div_mod::lemma_div_multiples_vanish(-k, m);
        assert(m * (-k) == (-k) * m) by (nonlinear_arith);
    }
}

/// `|a| * cap / d`, with the sign of `a` reattached (truncating division).
fn scale_component(a: i64, cap: i64, d: i64) -> (r: i64)
    requires
        -1_000_000 <= a <= 1_000_000,
        0 < cap <= 1_000_000,
        0 < d,
    ensures
        r == tdiv(a * cap, d as int),
        iabs(r as int) == (iabs(a as int) * cap) / (d as int),
{
    proof {
        lemma_mul_bound(a as int, cap as int, 1_000_000, 1_000_000);
    }
    let prod: i64 = a * cap;
    let r = div_trunc(prod, d);
    proof {
        let ai = a as int;
        let ci = cap as int;
        let di = d as int;
        assert(iabs(ai * ci) == iabs(ai) * ci) by (nonlinear_arith)
            requires
                0 < ci,
        ;
        if prod as int >= 0 {
            vstd::arithmetic::div_mod::lemma_div_pos_is_pos(prod as int, di);
        } else {
            vstd::arithmetic::div_mod::lemma_div_pos_is_pos(-(prod as int), di);
        }
    }
    r
}

/// Divides the horizontal part of a nonzero `v` by the rounded-up magnitude
/// of `v`, scaled by `cap`; the result's horizontal magnitude is at most
/// `cap`.
fn scale_xz_to_cap(v: Vec3, cap: i64) -> (r: Vec3)
    requires
        v.y == 0,
        0 < cap <= 1_000_000,
        v.bounded(1_000_000),
        v.norm_sq_xz() > 0,
    ensures
        r.y == 0,
        r.x == tdiv(v.x * cap, sqrt_ceil(v.norm_sq_xz() as nat) as int),
        r.z == tdiv(v.z * cap, sqrt_ceil(v.norm_sq_xz() as nat) as int),
        r.norm_sq_xz() <= cap * cap,
{
    proof {
        lemma_mul_bound(v.x as int, v.x as int, 1_000_000, 1_000_000);
        lemma_mul_bound(v.z as int, v.z as int, 1_000_000, 1_000_000);
    }
    let nsq: i64 = v.x * v.x + v.z * v.z;
    let f: u64 = isqrt(nsq as u64);
    proof {
        lemma_sqrt_floor_bounds(nsq as nat);
        assert(f <= 2_000_000) by (nonlinear_arith)
            requires
                (f as int) * (f as int) <= nsq as int,
                nsq as int <= 2_000_000_000_000,
                0 <= f,
        ;
    }
    let d: i64 = if f * f == (nsq as u64) {
        f as i64
    } else {
        (f as i64) + 1
    };
    proof {
        if f == 0 {
            assert(f * f == 0) by (nonlinear_arith)
                requires
                    f == 0,
            ;
        }
    }
    let rx = scale_component(v.x, cap, d);
    let rz = scale_component(v.z, cap, d);
    proof {
        let xi = v.x as int;
        let zi = v.z as int;
        let ci = cap as int;
        let di = d as int;
        let ax = iabs(xi);
        let az = iabs(zi);
        assert(d as int == sqrt_ceil(v.norm_sq_xz() as nat) as int);
        lemma_sqrt_ceil_bounds(nsq as nat);
        assert((ax * ci) * (ax * ci) + (az * ci) * (az * ci) <= (ci * ci) * (di * di))
            by (nonlinear_arith)
            requires
                ax == iabs(xi),
                az == iabs(zi),
                xi * xi + zi * zi <= di * di,
                0 <= ci,
        ;
        lemma_scaled_norm_bound(ax * ci, az * ci, di, ci);
        assert((rx as int) * (rx as int) + (rz as int) * (rz as int) <= ci * ci)
            by (nonlinear_arith)
            requires
                iabs(rx as int) == (ax * ci) / di,
                iabs(rz as int) == (az * ci) / di,
                ((ax * ci) / di) * ((ax * ci) / di) + ((az * ci) / di) * ((az * ci) / di) <= ci
                    * ci,
        ;
    }
    Vec3 { x: rx, y: 0, z: rz }
}

impl Vec3 {
    /// Shrinks the horizontal part so its magnitude is at most `max`; a
    /// vector already within the cap is returned unchanged. Diagonal input
    /// is scaled down, never sped up.
    pub fn clamp_len_max(self, max: i64) -> (r: Vec3)
        requires
            self.y == 0,
            0 < max <= 1_000_000,
            self.bounded(1_000_000),
        ensures
            r.y == 0,
            r.norm_sq_xz() <= max * max,
            r.bounded(max as int),
            self.norm_sq_xz() <= max * max ==> r == self,
            self.norm_sq_xz() > max * max ==> {
                let d = sqrt_ceil(self.norm_sq_xz() as nat) as int;
                r.x == tdiv(self.x * max, d) && r.z == tdiv(self.z * max, d)
            },
    {
        proof {
            lemma_mul_bound(self.x as int, self.x as int, 1_000_000, 1_000_000);
            lemma_mul_bound(self.z as int, self.z as int, 1_000_000, 1_000_000);
            lemma_mul_bound(max as int, max as int, 1_000_000, 1_000_000);
        }
        let nsq: i64 = self.x * self.x + self.z * self.z;
        let r = if nsq <= max * max {
            self
        } else {
            scale_xz_to_cap(self, max)
        };
        proof {
            lemma_component_bound(r.x as int, r.z as int, max as int);
        }
        r
    }

    /// Scales the horizontal part of a nonzero vector to (close to) unit
    /// magnitude; the zero vector stays zero, so the divisor is never zero.
    pub fn normalize_or_zero(self) -> (r: Vec3)
        requires
            self.y == 0,
            self.bounded(1_000_000),
        ensures
            r.y == 0,
            r.norm_sq_xz() <= SCALE * SCALE,
            r.bounded(SCALE as int),
            self.norm_sq_xz() == 0 ==> r == Vec3::spec_zero(),
            self.norm_sq_xz() > 0 ==> {
                let d = sqrt_ceil(self.norm_sq_xz() as nat) as int;
                r.x == tdiv(self.x * SCALE, d) && r.z == tdiv(self.z * SCALE, d)
            },
    {
        proof {
            lemma_mul_bound(self.x as int, self.x as int, 1_000_000, 1_000_000);
            lemma_mul_bound(self.z as int, self.z as int, 1_000_000, 1_000_000);
        }
        proof {
            assert((self.x as int) * (self.x as int) + (self.z as int) * (self.z as int) > 0
                <==> !(self.x == 0 && self.z == 0)) by (nonlinear_arith);
        }
        let r = if self.x == 0 && self.z == 0 {
            Vec3 { x: 0, y: 0, z: 0 }
        } else {
            scale_xz_to_cap(self, SCALE)
        };
        proof {
            lemma_component_bound(r.x as int, r.z as int, SCALE as int);
        }
        r
    }
}

/// Truncating signed division, matching `tdiv`.
pub fn div_trunc(a: i64, b: i64) -> (r: i64)
    requires
        b > 0,
        a > i64::MIN,
    ensures
        r == tdiv(a as int, b as int),
        iabs(r as int) == iabs(a as int) / (b as int),
        iabs(r as int) <= iabs(a as int),
{
    proof {
        vstd::arithmetic::div_mod::lemma_div_nonincreasing(iabs(a as int), b as int);
    }
    if a >= 0 {
        ((a as u64) / (b as u64)) as i64
    } else {
        let m: u64 = ((-a) as u64) / (b as u64);
        -(m as i64)
    }
}

} // verus!
