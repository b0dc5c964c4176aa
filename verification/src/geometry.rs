//! Fixed-point scalars, vectors and axis rotations.
//!
//! A coordinate is an `i64` counting multiples of `1 / SCALE` of a world
//! unit. An angle is carried as its sine and cosine in the same fixed-point
//! form, so rotating a vector is integer multiplication followed by one
//! truncating division by `SCALE`.

use vstd::arithmetic::div_mod::{lemma_div_is_ordered, lemma_div_multiples_vanish};
use vstd::prelude::*;

verus! {

/// Number of fixed-point units in one world unit.
pub const SCALE: i64 = 65536;

/// Largest magnitude accepted by `scale_down`.
pub const SCALE_DOWN_MAX: i64 = 0x4000_0000_0000_0000;

/// Largest magnitude of a vector component accepted by the rotation
/// functions; chosen so that `cos * x + sin * z` stays within
/// `SCALE_DOWN_MAX`.
pub const ROTATE_MAX: i64 = 0x2000_0000_0000;

/// Mathematical 3-vector; the model of `Fx3`.
pub struct V3 {
    pub x: int,
    pub y: int,
    pub z: int,
}

/// Mathematical 2-vector; the model of `Fx2`.
pub struct V2 {
    pub x: int,
    pub y: int,
}

/// Mathematical angle; the model of `Angle`.
pub struct AngleV {
    pub sin: int,
    pub cos: int,
}

/// Fixed-point 3-vector.
#[derive(Clone, Copy, PartialEq, Eq, Structural, Debug)]
pub struct Fx3 {
    pub x: i64,
    pub y: i64,
    pub z: i64,
}

/// Fixed-point 2-vector (a texture coordinate).
#[derive(Clone, Copy, PartialEq, Eq, Structural, Debug)]
pub struct Fx2 {
    pub x: i64,
    pub y: i64,
}

/// An angle, stored as fixed-point sine and cosine.
#[derive(Clone, Copy, PartialEq, Eq, Structural, Debug)]
pub struct Angle {
    pub sin: i64,
    pub cos: i64,
}

impl View for Fx3 {
    type V = V3;

    open spec fn view(&self) -> V3 {
        V3 { x: self.x as int, y: self.y as int, z: self.z as int }
    }
}

impl View for Fx2 {
    type V = V2;

    open spec fn view(&self) -> V2 {
        V2 { x: self.x as int, y: self.y as int }
    }
}

impl View for Angle {
    type V = AngleV;

    open spec fn view(&self) -> AngleV {
        AngleV { sin: self.sin as int, cos: self.cos as int }
    }
}

/// Sine and cosine of a real angle lie in `[-1, 1]`, which in fixed point is
/// `[-SCALE, SCALE]`.
pub open spec fn angle_wf(a: AngleV) -> bool {
    &&& -(SCALE as int) <= a.sin <= SCALE as int
    &&& -(SCALE as int) <= a.cos <= SCALE as int
}

/// Every component of `v` has magnitude at most `b`.
pub open spec fn v3_bounded(v: V3, b: int) -> bool {
    &&& -b <= v.x <= b
    &&& -b <= v.y <= b
    &&& -b <= v.z <= b
}

/// Truncating division by `SCALE`: the library's one rounding convention,
/// toward zero.
pub open spec fn spec_scale_down(a: int) -> int {
    if a >= 0 {
        a / (SCALE as int)
    } else {
        -((-a) / (SCALE as int))
    }
}

/// Vector sum.
pub open spec fn v3_add(a: V3, b: V3) -> V3 {
    V3 { x: a.x + b.x, y: a.y + b.y, z: a.z + b.z }
}

/// Rotation about the Y axis (yaw), right-handed: it takes `(0, 0, 1)` to
/// `(sin, 0, cos)`.
pub open spec fn spec_rotate_y(a: AngleV, v: V3) -> V3 {
    V3 {
        x: spec_scale_down(a.cos * v.x + a.sin * v.z),
        y: v.y,
        z: spec_scale_down(a.cos * v.z - a.sin * v.x),
    }
}

/// Rotation about the X axis (pitch), right-handed: it takes `(0, 0, 1)` to
/// `(0, -sin, cos)`.
pub open spec fn spec_rotate_x(a: AngleV, v: V3) -> V3 {
    V3 {
        x: v.x,
        y: spec_scale_down(a.cos * v.y - a.sin * v.z),
        z: spec_scale_down(a.cos * v.z + a.sin * v.y),
    }
}

/// Rotation about the Z axis (roll), right-handed: it takes `(1, 0, 0)` to
/// `(cos, sin, 0)`.
pub open spec fn spec_rotate_z(a: AngleV, v: V3) -> V3 {
    V3 {
        x: spec_scale_down(a.cos * v.x - a.sin * v.y),
        y: spec_scale_down(a.cos * v.y + a.sin * v.x),
        z: v.z,
    }
}

/// Negation moves through a product.
pub proof fn lemma_neg_mul(x: int, y: int)
    ensures
        (-x) * y == -(x * y),
{
    assert((-x) * y == -(x * y)) by (nonlinear_arith);
}

/// Product of values bounded by `a` and `b` is bounded by `a * b`.
pub proof fn lemma_abs_mul_bound(x: int, y: int, a: int, b: int)
    requires
        -a <= x <= a,
        -b <= y <= b,
        0 <= a,
        0 <= b,
    ensures
        -(a * b) <= x * y <= a * b,
{
    assert(-(a * b) <= x * y <= a * b) by (nonlinear_arith)
        requires
            -a <= x <= a,
            -b <= y <= b,
            0 <= a,
            0 <= b,
    ;
}

/// `spec_scale_down` maps `[-m * SCALE, m * SCALE]` into `[-m, m]`.
pub proof fn lemma_scale_down_bound(t: int, m: int)
    requires
        0 <= m,
        -(m * (SCALE as int)) <= t <= m * (SCALE as int),
    ensures
        -m <= spec_scale_down(t) <= m,
{
    let s = SCALE as int;
    if t >= 0 {
        lemma_div_is_ordered(0, t, s);
        lemma_div_is_ordered(t, m * s, s);
        lemma_div_multiples_vanish(m, s);
        assert(m * s == s * m);
    } else {
        lemma_div_is_ordered(0, -t, s);
        lemma_div_is_ordered(-t, m * s, s);
        lemma_div_multiples_vanish(m, s);
        assert(m * s == s * m);
    }
}

/// Rotating a vector bounded by `b` yields one bounded by `2 * b`: each
/// component is either copied or is `scale_down` of a sum of two products
/// by sines or cosines, themselves at most `SCALE` in magnitude.
pub proof fn lemma_rotate_bound(a: AngleV, v: V3, b: int)
    requires
        angle_wf(a),
        v3_bounded(v, b),
        0 <= b,
    ensures
        v3_bounded(spec_rotate_y(a, v), 2 * b),
        v3_bounded(spec_rotate_x(a, v), 2 * b),
        v3_bounded(spec_rotate_z(a, v), 2 * b),
{
    let s = SCALE as int;
    lemma_abs_mul_bound(a.cos, v.x, s, b);
    lemma_abs_mul_bound(a.cos, v.y, s, b);
    lemma_abs_mul_bound(a.cos, v.z, s, b);
    lemma_abs_mul_bound(a.sin, v.x, s, b);
    lemma_abs_mul_bound(a.sin, v.y, s, b);
    lemma_abs_mul_bound(a.sin, v.z, s, b);
    assert((2 * b) * s == 2 * (b * s)) by (nonlinear_arith);
    lemma_scale_down_bound(a.cos * v.x + a.sin * v.z, 2 * b);
    lemma_scale_down_bound(a.cos * v.z - a.sin * v.x, 2 * b);
    lemma_scale_down_bound(a.cos * v.y - a.sin * v.z, 2 * b);
    lemma_scale_down_bound(a.cos * v.z + a.sin * v.y, 2 * b);
    lemma_scale_down_bound(a.cos * v.x - a.sin * v.y, 2 * b);
    lemma_scale_down_bound(a.cos * v.y + a.sin * v.x, 2 * b);
}

/// Truncating division of a fixed-point value by `SCALE`.
pub fn scale_down(a: i64) -> (r: i64)
    requires
        -SCALE_DOWN_MAX <= a <= SCALE_DOWN_MAX,
    ensures
        r as int == spec_scale_down(a as int),
{
    proof {
        lemma_div_is_ordered(0, SCALE_DOWN_MAX as int, SCALE as int);
    }
    if a >= 0 {
        proof {
            lemma_div_is_ordered(0, a as int, SCALE as int);
            lemma_div_is_ordered(a as int, SCALE_DOWN_MAX as int, SCALE as int);
        }
        ((a as u64) / (SCALE as u64)) as i64
    } else {
        let m: u64 = (-a) as u64;
        proof {
            lemma_div_is_ordered(0, m as int, SCALE as int);
            lemma_div_is_ordered(m as int, SCALE_DOWN_MAX as int, SCALE as int);
        }
        -(((m / (SCALE as u64)) as i64))
    }
}

/// `scale_down(cos * p + sin * q)`: the shared form of every rotated
/// component.
fn rotate_component(c: i64, p: i64, s: i64, q: i64) -> (r: i64)
    requires
        -(SCALE as int) <= c as int <= SCALE as int,
        -(SCALE as int) <= s as int <= SCALE as int,
        -(ROTATE_MAX as int) <= p as int <= ROTATE_MAX as int,
        -(ROTATE_MAX as int) <= q as int <= ROTATE_MAX as int,
    ensures
        r as int == spec_scale_down(c * p + s * q),
{
    proof {
        lemma_abs_mul_bound(c as int, p as int, SCALE as int, ROTATE_MAX as int);
        lemma_abs_mul_bound(s as int, q as int, SCALE as int, ROTATE_MAX as int);
    }
    scale_down(c * p + s * q)
}

impl Fx3 {
    /// Every component has magnitude at most `b`.
    pub open spec fn bounded(&self, b: int) -> bool {
        v3_bounded(self@, b)
    }

    /// Component-wise sum.
    pub fn add(&self, other: &Fx3) -> (r: Fx3)
        requires
            i64::MIN <= self.x + other.x <= i64::MAX,
            i64::MIN <= self.y + other.y <= i64::MAX,
            i64::MIN <= self.z + other.z <= i64::MAX,
        ensures
            r@ == v3_add(self@, other@),
    {
        Fx3 { x: self.x + other.x, y: self.y + other.y, z: self.z + other.z }
    }
}

impl Angle {
    /// Sine and cosine lie within the fixed-point range of `[-1, 1]`.
    pub open spec fn wf(&self) -> bool {
        angle_wf(self@)
    }

    /// The zero angle: sine 0, cosine 1.
    pub fn zero() -> (r: Angle)
        ensures
            r.wf(),
            r@ == (AngleV { sin: 0, cos: SCALE as int }),
    {
        Angle { sin: 0, cos: SCALE }
    }
}

/// Rotate `v` about the Y axis by `a`.
pub fn rotate_y(a: &Angle, v: &Fx3) -> (r: Fx3)
    requires
        a.wf(),
        v.bounded(ROTATE_MAX as int),
    ensures
        r@ == spec_rotate_y(a@, v@),
{
    proof {
        lemma_neg_mul(a.sin as int, v.x as int);
    }
    Fx3 {
        x: rotate_component(a.cos, v.x, a.sin, v.z),
        y: v.y,
        z: rotate_component(a.cos, v.z, -a.sin, v.x),
    }
}

/// Rotate `v` about the X axis by `a`.
pub fn rotate_x(a: &Angle, v: &Fx3) -> (r: Fx3)
    requires
        a.wf(),
        v.bounded(ROTATE_MAX as int),
    ensures
        r@ == spec_rotate_x(a@, v@),
{
    proof {
        lemma_neg_mul(a.sin as int, v.z as int);
    }
    Fx3 {
        x: v.x,
        y: rotate_component(a.cos, v.y, -a.sin, v.z),
        z: rotate_component(a.cos, v.z, a.sin, v.y),
    }
}

/// Rotate `v` about the Z axis by `a`.
pub fn rotate_z(a: &Angle, v: &Fx3) -> (r: Fx3)
    requires
        a.wf(),
        v.bounded(ROTATE_MAX as int),
    ensures
        r@ == spec_rotate_z(a@, v@),
{
    proof {
        lemma_neg_mul(a.sin as int, v.y as int);
    }
    Fx3 {
        x: rotate_component(a.cos, v.x, -a.sin, v.y),
        y: rotate_component(a.cos, v.y, a.sin, v.x),
        z: v.z,
    }
}

} // verus!
