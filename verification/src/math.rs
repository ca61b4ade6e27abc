//! Fixed-point scalars and vectors.
//!
//! Every scalar quantity in this crate (world coordinates, angles, blend
//! factors, speeds, elapsed time) is a fixed-point number: an `i64` holding
//! the quantity multiplied by [`SCALE`].  One world unit is `SCALE`; angles
//! are held in micro-radians unless a module says otherwise.  All arithmetic
//! is exact integer arithmetic, so a sequence of updates is reproducible
//! bit for bit on every machine.

use vstd::prelude::*;

verus! {

use vstd::arithmetic::div_mod::{lemma_div_is_ordered, lemma_div_multiples_vanish, lemma_div_pos_is_pos, lemma_div_nonincreasing};
use vstd::arithmetic::mul::lemma_mul_inequality;

/// One whole unit, as a fixed-point value: all scalars carry six decimal places.
pub const SCALE: i64 = 1_000_000;

/// Largest magnitude a world coordinate may have (1000 units), chosen so that
/// sums, products with blend factors, and squared norms all fit in an `i64`.
pub const COORD_LIMIT: i64 = 1_000_000_000;

/// Largest magnitude accepted by [`mul_frac`]: the product with a blend
/// factor (at most `SCALE`) still fits in an `i64`.
pub const MUL_FRAC_LIMIT: i64 = 8_000_000_000_000;

/// A scalar is a valid world coordinate.
pub open spec fn in_coord(v: int) -> bool {
    -COORD_LIMIT <= v <= COORD_LIMIT
}

/// The magnitude of an integer.
pub open spec fn abs_i(a: int) -> int {
    if a >= 0 {
        a
    } else {
        -a
    }
}

/// The magnitude of a machine integer.
pub fn abs_fx(a: i64) -> (r: i64)
    requires
        i64::MIN < a,
    ensures
        r == abs_i(a as int),
{
    if a >= 0 {
        a
    } else {
        -a
    }
}

/// `v` forced into `[lo, hi]`.
pub open spec fn spec_clamp(v: int, lo: int, hi: int) -> int {
    if v < lo {
        lo
    } else if v > hi {
        hi
    } else {
        v
    }
}

/// `v` forced into `[lo, hi]`, on machine integers.
pub fn clamp_fx(v: i64, lo: i64, hi: i64) -> (r: i64)
    requires
        lo <= hi,
    ensures
        r == spec_clamp(v as int, lo as int, hi as int),
        lo <= r <= hi,
{
    if v < lo {
        lo
    } else if v > hi {
        hi
    } else {
        v
    }
}

/// Division truncating toward zero, the behaviour of `/` on machine integers.
pub open spec fn div_trunc(a: int, b: int) -> int {
    if a >= 0 {
        a / b
    } else {
        -((-a) / b)
    }
}

/// `d * f / SCALE`, truncated toward zero: the fraction `f / SCALE` of `d`.
pub open spec fn spec_mul_frac(d: int, f: int) -> int {
    div_trunc(d * f, SCALE as int)
}

/// Linear interpolation from `a` to `b` by the blend factor `t / SCALE`.
pub open spec fn spec_lerp(a: int, b: int, t: int) -> int {
    a + spec_mul_frac(b - a, t)
}

/// Division of a non-negative machine integer, Euclidean like the
/// mathematical `/`.
pub fn div_pos(a: i64, b: i64) -> (r: i64)
    requires
        0 <= a,
        0 < b,
    ensures
        r == a as int / b as int,
        0 <= r <= a,
{
    let q: u64 = (a as u64) / (b as u64);
    proof {
        lemma_div_nonincreasing(a as int, b as int);
        lemma_div_pos_is_pos(a as int, b as int);
    }
    q as i64
}

/// Division truncating toward zero, on machine integers.
pub fn div_i64(a: i64, b: i64) -> (r: i64)
    requires
        0 < b,
        i64::MIN < a,
    ensures
        r == div_trunc(a as int, b as int),
{
    if a >= 0 {
        let q: u64 = (a as u64) / (b as u64);
        proof {
            lemma_div_nonincreasing(a as int, b as int);
            lemma_div_pos_is_pos(a as int, b as int);
        }
        q as i64
    } else {
        let m: u64 = (-a) as u64;
        let q: u64 = m / (b as u64);
        proof {
            lemma_div_nonincreasing(m as int, b as int);
            lemma_div_pos_is_pos(m as int, b as int);
        }
        -(q as i64)
    }
}

/// The fraction `f / SCALE` of `d`, truncated toward zero.  The result never
/// exceeds `d` in magnitude and keeps its sign, so repeatedly moving by a
/// fraction of a remaining distance can never overshoot the goal.
pub fn mul_frac(d: i64, f: i64) -> (r: i64)
    requires
        0 <= f <= SCALE,
        -MUL_FRAC_LIMIT <= d <= MUL_FRAC_LIMIT,
    ensures
        r == spec_mul_frac(d as int, f as int),
        d >= 0 ==> 0 <= r <= d,
        d <= 0 ==> d <= r <= 0,
        f == 0 ==> r == 0,
        f == SCALE ==> r == d,
{
    proof {
        lemma_mul_frac_bounds(d as int, f as int);
    }
    let p: i64 = d * f;
    div_i64(p, SCALE)
}

/// Bounds of [`spec_mul_frac`]: a fraction of `d` lies between 0 and `d`,
/// and the whole of `d` (`f == SCALE`) is `d` itself.
pub proof fn lemma_mul_frac_bounds(d: int, f: int)
    requires
        0 <= f <= SCALE,
    ensures
        d >= 0 ==> 0 <= spec_mul_frac(d, f) <= d,
        d <= 0 ==> d <= spec_mul_frac(d, f) <= 0,
        f == 0 ==> spec_mul_frac(d, f) == 0,
        f == SCALE ==> spec_mul_frac(d, f) == d,
{
    let s = SCALE as int;
    if d >= 0 {
        lemma_mul_inequality(f, s, d);
        assert(d * f == f * d) by (nonlinear_arith);
        assert(d * s == s * d) by (nonlinear_arith);
        assert(d * f <= d * s);
        assert(d * f >= 0) by (nonlinear_arith)
            requires d >= 0 && f >= 0;
        lemma_div_is_ordered(d * f, d * s, s);
        lemma_div_multiples_vanish(d, s);
        assert(d * s == s * d) by (nonlinear_arith);
        lemma_div_pos_is_pos(d * f, s);
        if f == s {
            assert(spec_mul_frac(d, f) == d);
        }
    } else {
        let n = -d;
        lemma_mul_inequality(f, s, n);
        assert(n * f == f * n) by (nonlinear_arith);
        assert(n * s == s * n) by (nonlinear_arith);
        assert(n * f >= 0) by (nonlinear_arith)
            requires n >= 0 && f >= 0;
        lemma_div_is_ordered(n * f, n * s, s);
        lemma_div_multiples_vanish(n, s);
        assert(n * s == s * n) by (nonlinear_arith);
        lemma_div_pos_is_pos(n * f, s);
        vstd::arithmetic::mul::lemma_mul_unary_negation(d, f);
        assert(d * f == -(n * f));
        if f == s {
            assert(spec_mul_frac(d, f) == d);
        }
    }
}

/// Truncating division never grows a value: the quotient's magnitude is at
/// most the dividend's magnitude divided by the divisor.
pub proof fn lemma_div_trunc_magnitude(a: int, b: int)
    requires
        0 < b,
    ensures
        abs_i(div_trunc(a, b)) <= abs_i(a) / b,
{
    if a >= 0 {
        lemma_div_pos_is_pos(a, b);
    } else {
        lemma_div_pos_is_pos(-a, b);
    }
}

/// The fraction `f / SCALE` of `d`, where the fraction itself may be
/// negative (a sine or cosine).  The result never exceeds `d` in
/// magnitude.
pub fn mul_frac_signed(d: i64, f: i64) -> (r: i64)
    requires
        -SCALE <= f <= SCALE,
        -MUL_FRAC_LIMIT <= d <= MUL_FRAC_LIMIT,
    ensures
        r == spec_mul_frac(d as int, f as int),
        abs_i(r as int) <= abs_i(d as int),
{
    proof {
        lemma_mul_frac_signed_bounds(d as int, f as int);
        assert(-(MUL_FRAC_LIMIT * SCALE) <= d * f <= MUL_FRAC_LIMIT * SCALE) by (nonlinear_arith)
            requires
                -MUL_FRAC_LIMIT <= d <= MUL_FRAC_LIMIT && -SCALE <= f <= SCALE
                && MUL_FRAC_LIMIT == 8_000_000_000_000 && SCALE == 1_000_000;
    }
    let p: i64 = d * f;
    div_i64(p, SCALE)
}

/// Bounds of [`spec_mul_frac`] for a fraction of either sign.
pub proof fn lemma_mul_frac_signed_bounds(d: int, f: int)
    requires
        -SCALE <= f <= SCALE,
    ensures
        abs_i(spec_mul_frac(d, f)) <= abs_i(d),
{
    let s = SCALE as int;
    let n = abs_i(d);
    assert(-(n * s) <= d * f && d * f <= n * s) by (nonlinear_arith)
        requires -s <= f <= s && n >= 0 && (n == d || n == -d);
    assert(n * s == s * n) by (nonlinear_arith);
    lemma_div_multiples_vanish(n, s);
    if d * f >= 0 {
        lemma_div_is_ordered(d * f, n * s, s);
        lemma_div_pos_is_pos(d * f, s);
    } else {
        lemma_div_is_ordered(-(d * f), n * s, s);
        lemma_div_pos_is_pos(-(d * f), s);
    }
}

/// Linear interpolation from `a` to `b` by `t / SCALE`.  At `t == 0` the
/// result is exactly `a`, at `t == SCALE` exactly `b`, and it always lies
/// between the two.
pub fn lerp_fx(a: i64, b: i64, t: i64) -> (r: i64)
    requires
        in_coord(a as int),
        in_coord(b as int),
        0 <= t <= SCALE,
    ensures
        r == spec_lerp(a as int, b as int, t as int),
        t == 0 ==> r == a,
        t == SCALE ==> r == b,
        in_coord(r as int),
{
    let d: i64 = b - a;
    let q: i64 = mul_frac(d, t);
    a + q
}

/// A point or direction in world space, in fixed-point coordinates.
#[derive(Clone, Copy, PartialEq, Eq, Structural, Debug)]
pub struct Vec3Fx {
    pub x: i64,
    pub y: i64,
    pub z: i64,
}

impl Vec3Fx {
    /// All three coordinates are valid world coordinates.
    pub open spec fn wf(self) -> bool {
        in_coord(self.x as int) && in_coord(self.y as int) && in_coord(self.z as int)
    }

    pub open spec fn spec_zero() -> Vec3Fx {
        Vec3Fx { x: 0, y: 0, z: 0 }
    }

    /// Component-wise sum, as a mathematical value.
    pub open spec fn spec_add_v(self, o: Vec3Fx) -> Vec3Fx {
        Vec3Fx { x: (self.x + o.x) as i64, y: (self.y + o.y) as i64, z: (self.z + o.z) as i64 }
    }

    /// Component-wise difference, as a mathematical value.
    pub open spec fn spec_sub_v(self, o: Vec3Fx) -> Vec3Fx {
        Vec3Fx { x: (self.x - o.x) as i64, y: (self.y - o.y) as i64, z: (self.z - o.z) as i64 }
    }

    /// Component-wise linear interpolation, as a mathematical value.
    pub open spec fn spec_lerp_v(self, o: Vec3Fx, t: int) -> Vec3Fx {
        Vec3Fx {
            x: spec_lerp(self.x as int, o.x as int, t) as i64,
            y: spec_lerp(self.y as int, o.y as int, t) as i64,
            z: spec_lerp(self.z as int, o.z as int, t) as i64,
        }
    }

    pub fn new(x: i64, y: i64, z: i64) -> (r: Vec3Fx)
        ensures
            r == (Vec3Fx { x, y, z }),
    {
        Vec3Fx { x, y, z }
    }

    pub fn zero() -> (r: Vec3Fx)
        ensures
            r == Vec3Fx::spec_zero(),
    {
        Vec3Fx { x: 0, y: 0, z: 0 }
    }

    /// Component-wise sum.
    pub fn add(self, o: Vec3Fx) -> (r: Vec3Fx)
        requires
            self.wf(),
            o.wf(),
        ensures
            r.x == self.x + o.x,
            r.y == self.y + o.y,
            r.z == self.z + o.z,
            r == self.spec_add_v(o),
    {
        Vec3Fx { x: self.x + o.x, y: self.y + o.y, z: self.z + o.z }
    }

    /// Component-wise difference.
    pub fn sub(self, o: Vec3Fx) -> (r: Vec3Fx)
        requires
            self.wf(),
            o.wf(),
        ensures
            r.x == self.x - o.x,
            r.y == self.y - o.y,
            r.z == self.z - o.z,
            r == self.spec_sub_v(o),
    {
        Vec3Fx { x: self.x - o.x, y: self.y - o.y, z: self.z - o.z }
    }

    /// Component-wise linear interpolation toward `o` by `t / SCALE`.
    pub fn lerp(self, o: Vec3Fx, t: i64) -> (r: Vec3Fx)
        requires
            self.wf(),
            o.wf(),
            0 <= t <= SCALE,
        ensures
            r.x == spec_lerp(self.x as int, o.x as int, t as int),
            r.y == spec_lerp(self.y as int, o.y as int, t as int),
            r.z == spec_lerp(self.z as int, o.z as int, t as int),
            r == self.spec_lerp_v(o, t as int),
            t == 0 ==> r == self,
            t == SCALE ==> r == o,
            r.wf(),
    {
        let r = Vec3Fx {
            x: lerp_fx(self.x, o.x, t),
            y: lerp_fx(self.y, o.y, t),
            z: lerp_fx(self.z, o.z, t),
        };
        r
    }

    /// Squared Euclidean distance to another point, in squared fixed-point
    /// units; wide enough for any two valid world positions.
    pub fn dist_sq(self, o: Vec3Fx) -> (r: u64)
        requires
            self.wf(),
            o.wf(),
        ensures
            ({
                let d = self.spec_sub_v(o);
                r == d.x * d.x + d.y * d.y + d.z * d.z
            }),
    {
        let dx: i64 = self.x - o.x;
        let dy: i64 = self.y - o.y;
        let dz: i64 = self.z - o.z;
        proof {
            assert(0 <= dx * dx <= 4 * COORD_LIMIT * COORD_LIMIT) by (nonlinear_arith)
                requires -2 * COORD_LIMIT <= dx <= 2 * COORD_LIMIT;
            assert(0 <= dy * dy <= 4 * COORD_LIMIT * COORD_LIMIT) by (nonlinear_arith)
                requires -2 * COORD_LIMIT <= dy <= 2 * COORD_LIMIT;
            assert(0 <= dz * dz <= 4 * COORD_LIMIT * COORD_LIMIT) by (nonlinear_arith)
                requires -2 * COORD_LIMIT <= dz <= 2 * COORD_LIMIT;
        }
        let sx: u64 = (dx * dx) as u64;
        let sy: u64 = (dy * dy) as u64;
        let sz: u64 = (dz * dz) as u64;
        sx + sy + sz
    }

    /// Squared Euclidean norm, in squared fixed-point units.
    pub fn norm_sq(self) -> (r: i64)
        requires
            self.wf(),
        ensures
            r == self.x * self.x + self.y * self.y + self.z * self.z,
            r >= 0,
    {
        proof {
            assert(self.x * self.x <= COORD_LIMIT * COORD_LIMIT && self.x * self.x >= 0)
                by (nonlinear_arith)
                requires -COORD_LIMIT <= self.x <= COORD_LIMIT;
            assert(self.y * self.y <= COORD_LIMIT * COORD_LIMIT && self.y * self.y >= 0)
                by (nonlinear_arith)
                requires -COORD_LIMIT <= self.y <= COORD_LIMIT;
            assert(self.z * self.z <= COORD_LIMIT * COORD_LIMIT && self.z * self.z >= 0)
                by (nonlinear_arith)
                requires -COORD_LIMIT <= self.z <= COORD_LIMIT;
        }
        self.x * self.x + self.y * self.y + self.z * self.z
    }
}

/// A rotation as yaw then pitch, in micro-radians: yaw about the world's
/// up axis first, then pitch about the yawed right axis, the order that
/// keeps the camera free of roll.
#[derive(Clone, Copy, PartialEq, Eq, Structural, Debug)]
pub struct RotFx {
    pub yaw: i64,
    pub pitch: i64,
}

impl RotFx {
    /// No rotation.
    pub open spec fn spec_identity() -> RotFx {
        RotFx { yaw: 0, pitch: 0 }
    }

    pub fn identity() -> (r: RotFx)
        ensures
            r == RotFx::spec_identity(),
    {
        RotFx { yaw: 0, pitch: 0 }
    }
}

/// A camera transform: a position and a yaw/pitch rotation.
#[derive(Clone, Copy, PartialEq, Eq, Structural, Debug)]
pub struct TransformFx {
    pub translation: Vec3Fx,
    pub rotation: RotFx,
}

impl TransformFx {
    /// The transform that moves and turns nothing.
    pub open spec fn spec_identity() -> TransformFx {
        TransformFx { translation: Vec3Fx::spec_zero(), rotation: RotFx::spec_identity() }
    }

    pub fn identity() -> (r: TransformFx)
        ensures
            r == TransformFx::spec_identity(),
    {
        TransformFx { translation: Vec3Fx { x: 0, y: 0, z: 0 }, rotation: RotFx { yaw: 0, pitch: 0 } }
    }

    /// The position is a valid world position.
    pub open spec fn wf(self) -> bool {
        self.translation.wf()
    }
}

/// `lerp` meets both endpoints: blending by 0 gives the first point and
/// blending by the whole of `SCALE` gives the second.
pub proof fn lemma_lerp_endpoints(a: int, b: int)
    ensures
        spec_lerp(a, b, 0) == a,
        spec_lerp(a, b, SCALE as int) == b,
{
    lemma_mul_frac_bounds(b - a, 0);
    lemma_mul_frac_bounds(b - a, SCALE as int);
}

} // verus!
