//! Fixed-point vectors and 4x4 matrices.
//!
//! Matrices are stored row-major; points transform as column vectors on the
//! right, so the translation sits in the last column.  Every executable
//! operation is specified exactly by a ghost counterpart over unbounded
//! integers, and the `*_ok` predicates bound entry magnitudes so that the
//! double-width dot products cannot overflow.

use vstd::prelude::*;
use crate::fixed::FX_ONE;
use crate::fixed::FX_ABS_MAX;
use crate::fixed::fx_mul_s;
use vstd::arithmetic::div_mod::lemma_div_multiples_vanish;

verus! {

/// A fixed-point 3-vector.
#[derive(Clone, Copy, PartialEq, Eq, Structural, Debug)]
pub struct Vec3 {
    pub x: i64,
    pub y: i64,
    pub z: i64,
}

/// A fixed-point 4-vector.
#[derive(Clone, Copy, PartialEq, Eq, Structural, Debug)]
pub struct Vec4 {
    pub x: i64,
    pub y: i64,
    pub z: i64,
    pub w: i64,
}

/// One Euler angle, held as the fixed-point cosine and sine of the angle:
/// exactly the two numbers a rotation matrix reads.
#[derive(Clone, Copy, PartialEq, Eq, Structural, Debug)]
pub struct Rot {
    pub c: i64,
    pub s: i64,
}

/// Euler angles about the three axes, each held as cosine and sine.
#[derive(Clone, Copy, PartialEq, Eq, Structural, Debug)]
pub struct Rot3 {
    pub x: Rot,
    pub y: Rot,
    pub z: Rot,
}

/// A fixed-point 4x4 matrix, row-major.
#[derive(Clone, Copy, PartialEq, Eq, Structural, Debug)]
pub struct Mat4 {
    pub r0: Vec4,
    pub r1: Vec4,
    pub r2: Vec4,
    pub r3: Vec4,
}

/// Mathematical model of a `Vec3`.
pub ghost struct Vec3i {
    pub x: int,
    pub y: int,
    pub z: int,
}

/// Mathematical model of a `Vec4`.
pub ghost struct Vec4i {
    pub x: int,
    pub y: int,
    pub z: int,
    pub w: int,
}

/// Mathematical model of a `Rot`.
pub ghost struct RotI {
    pub c: int,
    pub s: int,
}

/// Mathematical model of a `Rot3`.
pub ghost struct Rot3I {
    pub x: RotI,
    pub y: RotI,
    pub z: RotI,
}

/// Mathematical model of a `Mat4`.
pub ghost struct Mat4i {
    pub r0: Vec4i,
    pub r1: Vec4i,
    pub r2: Vec4i,
    pub r3: Vec4i,
}

impl View for Vec3 {
    type V = Vec3i;

    open spec fn view(&self) -> Vec3i {
        Vec3i { x: self.x as int, y: self.y as int, z: self.z as int }
    }
}

impl View for Vec4 {
    type V = Vec4i;

    open spec fn view(&self) -> Vec4i {
        Vec4i { x: self.x as int, y: self.y as int, z: self.z as int, w: self.w as int }
    }
}

impl View for Rot {
    type V = RotI;

    open spec fn view(&self) -> RotI {
        RotI { c: self.c as int, s: self.s as int }
    }
}

impl View for Rot3 {
    type V = Rot3I;

    open spec fn view(&self) -> Rot3I {
        Rot3I { x: self.x@, y: self.y@, z: self.z@ }
    }
}

impl View for Mat4 {
    type V = Mat4i;

    open spec fn view(&self) -> Mat4i {
        Mat4i { r0: self.r0@, r1: self.r1@, r2: self.r2@, r3: self.r3@ }
    }
}

/// Entry magnitudes small enough for overflow-free dot products.
pub open spec fn v4_ok(v: Vec4i) -> bool {
    &&& -(FX_ABS_MAX as int) <= v.x <= FX_ABS_MAX as int
    &&& -(FX_ABS_MAX as int) <= v.y <= FX_ABS_MAX as int
    &&& -(FX_ABS_MAX as int) <= v.z <= FX_ABS_MAX as int
    &&& -(FX_ABS_MAX as int) <= v.w <= FX_ABS_MAX as int
}

/// Component magnitudes small enough for overflow-free dot products.
pub open spec fn v3_ok(v: Vec3i) -> bool {
    &&& -(FX_ABS_MAX as int) <= v.x <= FX_ABS_MAX as int
    &&& -(FX_ABS_MAX as int) <= v.y <= FX_ABS_MAX as int
    &&& -(FX_ABS_MAX as int) <= v.z <= FX_ABS_MAX as int
}

/// Cosine and sine are at most 1.0 in magnitude.
pub open spec fn rot_ok(r: RotI) -> bool {
    &&& -(FX_ONE as int) <= r.c <= FX_ONE as int
    &&& -(FX_ONE as int) <= r.s <= FX_ONE as int
}

/// All three angles with cosine and sine of magnitude at most 1.0.
pub open spec fn rot3_ok(r: Rot3I) -> bool {
    rot_ok(r.x) && rot_ok(r.y) && rot_ok(r.z)
}

/// All sixteen entries within the dot-product-safe range.
pub open spec fn m4_ok(m: Mat4i) -> bool {
    &&& v4_ok(m.r0)
    &&& v4_ok(m.r1)
    &&& v4_ok(m.r2)
    &&& v4_ok(m.r3)
}

/// All three components within `i64`.
pub open spec fn v3_in_i64(v: Vec3i) -> bool {
    &&& i64::MIN <= v.x <= i64::MAX
    &&& i64::MIN <= v.y <= i64::MAX
    &&& i64::MIN <= v.z <= i64::MAX
}

/// The fixed-point dot product of two 4-vectors: exact integer products,
/// summed, then scaled back down once.  Kept opaque so that matrix terms
/// stay small; reveal it where the four products themselves matter.
#[verifier::opaque]
pub open spec fn dot_s(a: Vec4i, b: Vec4i) -> int {
    (a.x * b.x + a.y * b.y + a.z * b.z + a.w * b.w) / (FX_ONE as int)
}

/// Executable fixed-point dot product.
pub fn fx_dot(a: &Vec4, b: &Vec4) -> (r: i64)
    requires
        v4_ok(a@),
        v4_ok(b@),
        i64::MIN <= dot_s(a@, b@) <= i64::MAX,
    ensures
        r as int == dot_s(a@, b@),
{
    proof {
        reveal(dot_s);
        lemma_prod_bound(a.x as int, b.x as int);
        lemma_prod_bound(a.y as int, b.y as int);
        lemma_prod_bound(a.z as int, b.z as int);
        lemma_prod_bound(a.w as int, b.w as int);
    }
    let s: i128 = (a.x as i128) * (b.x as i128) + (a.y as i128) * (b.y as i128) + (a.z as i128)
        * (b.z as i128) + (a.w as i128) * (b.w as i128);
    proof {
        crate::fixed::lemma_fx_div_in_range(s as int);
    }
    let q: i128 = s.checked_div_euclid(FX_ONE as i128).unwrap();
    q as i64
}

/// A product of two entries within the `FX_ABS_MAX` cap stays far inside
/// `i128`.
proof fn lemma_prod_bound(x: int, y: int)
    requires
        -(FX_ABS_MAX as int) <= x <= FX_ABS_MAX as int,
        -(FX_ABS_MAX as int) <= y <= FX_ABS_MAX as int,
    ensures
        -0x1000000_00000000_00000000_00000000 <= x * y <= 0x1000000_00000000_00000000_00000000,
{
    assert(-0x1000000_00000000_00000000_00000000 <= x * y
        <= 0x1000000_00000000_00000000_00000000) by (nonlinear_arith)
        requires
            -0x1000_0000_0000_0000 <= x <= 0x1000_0000_0000_0000,
            -0x1000_0000_0000_0000 <= y <= 0x1000_0000_0000_0000,
    {}
}

/// Column 0 of a matrix, as a 4-vector.
pub open spec fn col0_s(m: Mat4i) -> Vec4i {
    Vec4i { x: m.r0.x, y: m.r1.x, z: m.r2.x, w: m.r3.x }
}

/// Column 1 of a matrix.
pub open spec fn col1_s(m: Mat4i) -> Vec4i {
    Vec4i { x: m.r0.y, y: m.r1.y, z: m.r2.y, w: m.r3.y }
}

/// Column 2 of a matrix.
pub open spec fn col2_s(m: Mat4i) -> Vec4i {
    Vec4i { x: m.r0.z, y: m.r1.z, z: m.r2.z, w: m.r3.z }
}

/// Column 3 of a matrix.
pub open spec fn col3_s(m: Mat4i) -> Vec4i {
    Vec4i { x: m.r0.w, y: m.r1.w, z: m.r2.w, w: m.r3.w }
}

/// One row of a matrix product.
pub open spec fn mul_row_s(r: Vec4i, m: Mat4i) -> Vec4i {
    Vec4i {
        x: dot_s(r, col0_s(m)),
        y: dot_s(r, col1_s(m)),
        z: dot_s(r, col2_s(m)),
        w: dot_s(r, col3_s(m)),
    }
}

/// The fixed-point matrix product.
pub open spec fn mat_mul_s(a: Mat4i, b: Mat4i) -> Mat4i {
    Mat4i {
        r0: mul_row_s(a.r0, b),
        r1: mul_row_s(a.r1, b),
        r2: mul_row_s(a.r2, b),
        r3: mul_row_s(a.r3, b),
    }
}

/// The identity matrix.
pub open spec fn identity_s() -> Mat4i {
    Mat4i {
        r0: Vec4i { x: FX_ONE as int, y: 0, z: 0, w: 0 },
        r1: Vec4i { x: 0, y: FX_ONE as int, z: 0, w: 0 },
        r2: Vec4i { x: 0, y: 0, z: FX_ONE as int, w: 0 },
        r3: Vec4i { x: 0, y: 0, z: 0, w: FX_ONE as int },
    }
}

/// The matrix translating by `v`.
pub open spec fn translation_s(v: Vec3i) -> Mat4i {
    Mat4i {
        r0: Vec4i { x: FX_ONE as int, y: 0, z: 0, w: v.x },
        r1: Vec4i { x: 0, y: FX_ONE as int, z: 0, w: v.y },
        r2: Vec4i { x: 0, y: 0, z: FX_ONE as int, w: v.z },
        r3: Vec4i { x: 0, y: 0, z: 0, w: FX_ONE as int },
    }
}

/// The matrix scaling each axis by `v`.
pub open spec fn scaling_s(v: Vec3i) -> Mat4i {
    Mat4i {
        r0: Vec4i { x: v.x, y: 0, z: 0, w: 0 },
        r1: Vec4i { x: 0, y: v.y, z: 0, w: 0 },
        r2: Vec4i { x: 0, y: 0, z: v.z, w: 0 },
        r3: Vec4i { x: 0, y: 0, z: 0, w: FX_ONE as int },
    }
}

/// Component-wise negation.
pub open spec fn v3_neg_s(v: Vec3i) -> Vec3i {
    Vec3i { x: -v.x, y: -v.y, z: -v.z }
}

/// Component-wise sum.
pub open spec fn v3_add_s(a: Vec3i, b: Vec3i) -> Vec3i {
    Vec3i { x: a.x + b.x, y: a.y + b.y, z: a.z + b.z }
}

/// Every component scaled by the fixed-point factor `k`.
pub open spec fn v3_fx_scale_s(v: Vec3i, k: int) -> Vec3i {
    Vec3i { x: fx_mul_s(v.x, k), y: fx_mul_s(v.y, k), z: fx_mul_s(v.z, k) }
}

/// Rotation about the x axis by the angle whose cosine and sine `r` holds.
pub open spec fn rotation_x_s(r: RotI) -> Mat4i {
    Mat4i {
        r0: Vec4i { x: FX_ONE as int, y: 0, z: 0, w: 0 },
        r1: Vec4i { x: 0, y: r.c, z: -r.s, w: 0 },
        r2: Vec4i { x: 0, y: r.s, z: r.c, w: 0 },
        r3: Vec4i { x: 0, y: 0, z: 0, w: FX_ONE as int },
    }
}

/// Rotation about the y axis.
pub open spec fn rotation_y_s(r: RotI) -> Mat4i {
    Mat4i {
        r0: Vec4i { x: r.c, y: 0, z: r.s, w: 0 },
        r1: Vec4i { x: 0, y: FX_ONE as int, z: 0, w: 0 },
        r2: Vec4i { x: -r.s, y: 0, z: r.c, w: 0 },
        r3: Vec4i { x: 0, y: 0, z: 0, w: FX_ONE as int },
    }
}

/// Rotation about the z axis.
pub open spec fn rotation_z_s(r: RotI) -> Mat4i {
    Mat4i {
        r0: Vec4i { x: r.c, y: -r.s, z: 0, w: 0 },
        r1: Vec4i { x: r.s, y: r.c, z: 0, w: 0 },
        r2: Vec4i { x: 0, y: 0, z: FX_ONE as int, w: 0 },
        r3: Vec4i { x: 0, y: 0, z: 0, w: FX_ONE as int },
    }
}

/// A point carried to homogeneous coordinates (`w` = 1.0).
pub open spec fn point4_s(v: Vec3i) -> Vec4i {
    Vec4i { x: v.x, y: v.y, z: v.z, w: FX_ONE as int }
}

/// A direction carried to homogeneous coordinates (`w` = 0), on which
/// translations have no effect.
pub open spec fn dir4_s(v: Vec3i) -> Vec4i {
    Vec4i { x: v.x, y: v.y, z: v.z, w: 0 }
}

/// `m` applied to the point `v`.
pub open spec fn transform_point_s(m: Mat4i, v: Vec3i) -> Vec3i {
    Vec3i {
        x: dot_s(m.r0, point4_s(v)),
        y: dot_s(m.r1, point4_s(v)),
        z: dot_s(m.r2, point4_s(v)),
    }
}

/// `m` applied to the direction `v`: the translation column is ignored.
pub open spec fn transform_dir_s(m: Mat4i, v: Vec3i) -> Vec3i {
    Vec3i {
        x: dot_s(m.r0, dir4_s(v)),
        y: dot_s(m.r1, dir4_s(v)),
        z: dot_s(m.r2, dir4_s(v)),
    }
}

impl Vec3 {
    /// The zero vector.
    pub fn zero() -> (r: Vec3)
        ensures
            r@ == (Vec3i { x: 0, y: 0, z: 0 }),
    {
        Vec3 { x: 0, y: 0, z: 0 }
    }

    /// The vector with 1.0 on every axis.
    pub fn one() -> (r: Vec3)
        ensures
            r@ == (Vec3i { x: FX_ONE as int, y: FX_ONE as int, z: FX_ONE as int }),
    {
        Vec3 { x: FX_ONE, y: FX_ONE, z: FX_ONE }
    }

    /// Component-wise negation.
    pub fn neg(&self) -> (r: Vec3)
        requires
            v3_ok(self@),
        ensures
            r@ == v3_neg_s(self@),
    {
        Vec3 { x: -self.x, y: -self.y, z: -self.z }
    }
}

impl Rot {
    /// The zero angle: cosine 1.0, sine 0.
    pub fn identity() -> (r: Rot)
        ensures
            r@ == (RotI { c: FX_ONE as int, s: 0 }),
    {
        Rot { c: FX_ONE, s: 0 }
    }

    /// The opposite angle: same cosine, negated sine.
    pub fn inverse(&self) -> (r: Rot)
        requires
            rot_ok(self@),
        ensures
            r@ == (RotI { c: self@.c, s: -self@.s }),
    {
        Rot { c: self.c, s: -self.s }
    }

    /// The sum of the two angles, by the cosine/sine addition formulas in
    /// fixed point.
    pub fn compose(&self, other: &Rot) -> (r: Rot)
        requires
            rot_ok(self@),
            rot_ok(other@),
        ensures
            r@ == rot_compose_s(self@, other@),
    {
        proof {
            lemma_rot_compose_bounds(self@, other@);
        }
        let c: i64 = crate::fixed::fx_mul(self.c, other.c) - crate::fixed::fx_mul(self.s, other.s);
        let s: i64 = crate::fixed::fx_mul(self.s, other.c) + crate::fixed::fx_mul(self.c, other.s);
        Rot { c, s }
    }
}

impl Rot3 {
    /// No rotation about any axis.
    pub fn identity() -> (r: Rot3)
        ensures
            r@ == (Rot3I {
                x: RotI { c: FX_ONE as int, s: 0 },
                y: RotI { c: FX_ONE as int, s: 0 },
                z: RotI { c: FX_ONE as int, s: 0 },
            }),
    {
        Rot3 { x: Rot::identity(), y: Rot::identity(), z: Rot::identity() }
    }
}

/// Angle addition in fixed point: the cosine and sine of the sum.
pub open spec fn rot_compose_s(a: RotI, b: RotI) -> RotI {
    RotI {
        c: fx_mul_s(a.c, b.c) - fx_mul_s(a.s, b.s),
        s: fx_mul_s(a.s, b.c) + fx_mul_s(a.c, b.s),
    }
}

/// Products of cosines and sines stay within about 1.0, so the addition
/// formulas cannot overflow.
proof fn lemma_rot_compose_bounds(a: RotI, b: RotI)
    requires
        rot_ok(a),
        rot_ok(b),
    ensures
        -(FX_ONE as int) <= fx_mul_s(a.c, b.c) <= FX_ONE as int,
        -(FX_ONE as int) <= fx_mul_s(a.s, b.s) <= FX_ONE as int,
        -(FX_ONE as int) <= fx_mul_s(a.s, b.c) <= FX_ONE as int,
        -(FX_ONE as int) <= fx_mul_s(a.c, b.s) <= FX_ONE as int,
{
    lemma_fx_unit_product(a.c, b.c);
    lemma_fx_unit_product(a.s, b.s);
    lemma_fx_unit_product(a.s, b.c);
    lemma_fx_unit_product(a.c, b.s);
}

/// The fixed-point product of two values of magnitude at most 1.0 has
/// magnitude at most 1.0.
proof fn lemma_fx_unit_product(x: int, y: int)
    requires
        -(FX_ONE as int) <= x <= FX_ONE as int,
        -(FX_ONE as int) <= y <= FX_ONE as int,
    ensures
        -(FX_ONE as int) <= fx_mul_s(x, y) <= FX_ONE as int,
{
    let k = FX_ONE as int;
    assert(-(k * k) <= x * y <= k * k) by (nonlinear_arith)
        requires
            -k <= x <= k,
            -k <= y <= k,
    {}
    vstd::arithmetic::div_mod::lemma_div_is_ordered(-(k * k), x * y, k);
    vstd::arithmetic::div_mod::lemma_div_is_ordered(x * y, k * k, k);
    lemma_div_multiples_vanish(k, k);
    lemma_div_multiples_vanish(-k, k);
}

impl Mat4 {
    /// The identity matrix.
    pub fn identity() -> (r: Mat4)
        ensures
            r@ == identity_s(),
    {
        Mat4 {
            r0: Vec4 { x: FX_ONE, y: 0, z: 0, w: 0 },
            r1: Vec4 { x: 0, y: FX_ONE, z: 0, w: 0 },
            r2: Vec4 { x: 0, y: 0, z: FX_ONE, w: 0 },
            r3: Vec4 { x: 0, y: 0, z: 0, w: FX_ONE },
        }
    }

    /// The matrix translating by `v`.
    pub fn translation(v: &Vec3) -> (r: Mat4)
        ensures
            r@ == translation_s(v@),
    {
        Mat4 {
            r0: Vec4 { x: FX_ONE, y: 0, z: 0, w: v.x },
            r1: Vec4 { x: 0, y: FX_ONE, z: 0, w: v.y },
            r2: Vec4 { x: 0, y: 0, z: FX_ONE, w: v.z },
            r3: Vec4 { x: 0, y: 0, z: 0, w: FX_ONE },
        }
    }

    /// The matrix scaling each axis by `v`.
    pub fn scaling(v: &Vec3) -> (r: Mat4)
        ensures
            r@ == scaling_s(v@),
    {
        Mat4 {
            r0: Vec4 { x: v.x, y: 0, z: 0, w: 0 },
            r1: Vec4 { x: 0, y: v.y, z: 0, w: 0 },
            r2: Vec4 { x: 0, y: 0, z: v.z, w: 0 },
            r3: Vec4 { x: 0, y: 0, z: 0, w: FX_ONE },
        }
    }

    /// Rotation about the x axis.
    pub fn rotation_x(r: &Rot) -> (m: Mat4)
        requires
            rot_ok(r@),
        ensures
            m@ == rotation_x_s(r@),
    {
        Mat4 {
            r0: Vec4 { x: FX_ONE, y: 0, z: 0, w: 0 },
            r1: Vec4 { x: 0, y: r.c, z: -r.s, w: 0 },
            r2: Vec4 { x: 0, y: r.s, z: r.c, w: 0 },
            r3: Vec4 { x: 0, y: 0, z: 0, w: FX_ONE },
        }
    }

    /// Rotation about the y axis.
    pub fn rotation_y(r: &Rot) -> (m: Mat4)
        requires
            rot_ok(r@),
        ensures
            m@ == rotation_y_s(r@),
    {
        Mat4 {
            r0: Vec4 { x: r.c, y: 0, z: r.s, w: 0 },
            r1: Vec4 { x: 0, y: FX_ONE, z: 0, w: 0 },
            r2: Vec4 { x: -r.s, y: 0, z: r.c, w: 0 },
            r3: Vec4 { x: 0, y: 0, z: 0, w: FX_ONE },
        }
    }

    /// Rotation about the z axis.
    pub fn rotation_z(r: &Rot) -> (m: Mat4)
        requires
            rot_ok(r@),
        ensures
            m@ == rotation_z_s(r@),
    {
        Mat4 {
            r0: Vec4 { x: r.c, y: -r.s, z: 0, w: 0 },
            r1: Vec4 { x: r.s, y: r.c, z: 0, w: 0 },
            r2: Vec4 { x: 0, y: 0, z: FX_ONE, w: 0 },
            r3: Vec4 { x: 0, y: 0, z: 0, w: FX_ONE },
        }
    }
}

/// Column 0 of a matrix, executably.
fn col0(m: &Mat4) -> (r: Vec4)
    ensures
        r@ == col0_s(m@),
{
    Vec4 { x: m.r0.x, y: m.r1.x, z: m.r2.x, w: m.r3.x }
}

/// Column 1 of a matrix, executably.
fn col1(m: &Mat4) -> (r: Vec4)
    ensures
        r@ == col1_s(m@),
{
    Vec4 { x: m.r0.y, y: m.r1.y, z: m.r2.y, w: m.r3.y }
}

/// Column 2 of a matrix, executably.
fn col2(m: &Mat4) -> (r: Vec4)
    ensures
        r@ == col2_s(m@),
{
    Vec4 { x: m.r0.z, y: m.r1.z, z: m.r2.z, w: m.r3.z }
}

/// Column 3 of a matrix, executably.
fn col3(m: &Mat4) -> (r: Vec4)
    ensures
        r@ == col3_s(m@),
{
    Vec4 { x: m.r0.w, y: m.r1.w, z: m.r2.w, w: m.r3.w }
}

/// One row of the product `a * b`, executably.
fn mul_row(r: &Vec4, b: &Mat4) -> (out: Vec4)
    requires
        v4_ok(r@),
        m4_ok(b@),
        v4_ok(mul_row_s(r@, b@)),
    ensures
        out@ == mul_row_s(r@, b@),
{
    let c0 = col0(b);
    let c1 = col1(b);
    let c2 = col2(b);
    let c3 = col3(b);
    Vec4 { x: fx_dot(r, &c0), y: fx_dot(r, &c1), z: fx_dot(r, &c2), w: fx_dot(r, &c3) }
}

/// The matrix product `a * b`.
pub fn mat_mul(a: &Mat4, b: &Mat4) -> (r: Mat4)
    requires
        m4_ok(a@),
        m4_ok(b@),
        m4_ok(mat_mul_s(a@, b@)),
    ensures
        r@ == mat_mul_s(a@, b@),
{
    Mat4 {
        r0: mul_row(&a.r0, b),
        r1: mul_row(&a.r1, b),
        r2: mul_row(&a.r2, b),
        r3: mul_row(&a.r3, b),
    }
}

/// `m` applied to the point `v` (`w` = 1.0).
pub fn transform_point(m: &Mat4, v: &Vec3) -> (r: Vec3)
    requires
        m4_ok(m@),
        v3_ok(v@),
        v3_in_i64(transform_point_s(m@, v@)),
    ensures
        r@ == transform_point_s(m@, v@),
{
    let p = Vec4 { x: v.x, y: v.y, z: v.z, w: FX_ONE };
    Vec3 { x: fx_dot(&m.r0, &p), y: fx_dot(&m.r1, &p), z: fx_dot(&m.r2, &p) }
}

/// `m` applied to the direction `v` (`w` = 0).
pub fn transform_dir(m: &Mat4, v: &Vec3) -> (r: Vec3)
    requires
        m4_ok(m@),
        v3_ok(v@),
        v3_in_i64(transform_dir_s(m@, v@)),
    ensures
        r@ == transform_dir_s(m@, v@),
{
    let p = Vec4 { x: v.x, y: v.y, z: v.z, w: 0 };
    Vec3 { x: fx_dot(&m.r0, &p), y: fx_dot(&m.r1, &p), z: fx_dot(&m.r2, &p) }
}

/// Multiplying by the identity on the right changes nothing: the scaled-down
/// products against 1.0 and 0 are exact.
pub proof fn lemma_mat_mul_identity_right(a: Mat4i)
    ensures
        mat_mul_s(a, identity_s()) == a,
{
    lemma_row_identity_right(a.r0);
    lemma_row_identity_right(a.r1);
    lemma_row_identity_right(a.r2);
    lemma_row_identity_right(a.r3);
}

/// One row of `a * identity` is the row itself.
proof fn lemma_row_identity_right(r: Vec4i)
    ensures
        mul_row_s(r, identity_s()) == r,
{
    reveal(dot_s);
    let k = FX_ONE as int;
    lemma_div_multiples_vanish(r.x, k);
    lemma_div_multiples_vanish(r.y, k);
    lemma_div_multiples_vanish(r.z, k);
    lemma_div_multiples_vanish(r.w, k);
}

} // verus!
