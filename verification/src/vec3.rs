//! Integer 3-vectors and their exact algebra.
//!
//! `Vec3` is the executable vector of `i64` coordinates; `V3` is its
//! mathematical counterpart over unbounded integers.  Every executable
//! operation is specified componentwise against the `V3` operations, and the
//! algebraic laws (anticommutativity of the cross product, orthogonality of
//! `a x b` to both factors, `v x v == 0`) are proved over `V3`.

use vstd::prelude::*;

verus! {

/// Mathematical 3-vector: unbounded integer coordinates.
pub ghost struct V3 {
    pub x: int,
    pub y: int,
    pub z: int,
}

/// Componentwise sum.
pub open spec fn v_add(a: V3, b: V3) -> V3 {
    V3 { x: a.x + b.x, y: a.y + b.y, z: a.z + b.z }
}

/// Componentwise difference.
pub open spec fn v_sub(a: V3, b: V3) -> V3 {
    V3 { x: a.x - b.x, y: a.y - b.y, z: a.z - b.z }
}

/// Componentwise negation.
pub open spec fn v_neg(a: V3) -> V3 {
    V3 { x: -a.x, y: -a.y, z: -a.z }
}

/// Scaling by an integer.
pub open spec fn v_scale(k: int, a: V3) -> V3 {
    V3 { x: k * a.x, y: k * a.y, z: k * a.z }
}

/// Euclidean inner product.
pub open spec fn v_dot(a: V3, b: V3) -> int {
    a.x * b.x + a.y * b.y + a.z * b.z
}

/// Cross product, in the right-handed orientation.
pub open spec fn v_cross(a: V3, b: V3) -> V3 {
    V3 {
        x: a.y * b.z - a.z * b.y,
        y: a.z * b.x - a.x * b.z,
        z: a.x * b.y - a.y * b.x,
    }
}

/// The zero vector.
pub open spec fn v_zero() -> V3 {
    V3 { x: 0, y: 0, z: 0 }
}

/// Every coordinate is representable as an `i64`.
pub open spec fn fits(a: V3) -> bool {
    &&& i64::MIN <= a.x <= i64::MAX
    &&& i64::MIN <= a.y <= i64::MAX
    &&& i64::MIN <= a.z <= i64::MAX
}

/// Every coordinate lies in `[-m, m]`.
pub open spec fn in_cube(a: V3, m: int) -> bool {
    &&& -m <= a.x <= m
    &&& -m <= a.y <= m
    &&& -m <= a.z <= m
}

/// Executable 3-vector with `i64` coordinates.
#[derive(Clone, Copy, PartialEq, Eq, Structural, Debug)]
pub struct Vec3 {
    pub x: i64,
    pub y: i64,
    pub z: i64,
}

impl View for Vec3 {
    type V = V3;

    open spec fn view(&self) -> V3 {
        V3 { x: self.x as int, y: self.y as int, z: self.z as int }
    }
}

impl Vec3 {
    /// Builds the vector with the given coordinates.
    pub fn new(x: i64, y: i64, z: i64) -> (r: Vec3)
        ensures
            r@ == (V3 { x: x as int, y: y as int, z: z as int }),
    {
        Vec3 { x, y, z }
    }

    /// Componentwise sum; the exact result must fit the coordinate type.
    pub fn plus(&self, other: &Vec3) -> (r: Vec3)
        requires
            fits(v_add(self@, other@)),
        ensures
            r@ == v_add(self@, other@),
    {
        Vec3 { x: self.x + other.x, y: self.y + other.y, z: self.z + other.z }
    }

    /// Componentwise difference; the exact result must fit the coordinate type.
    pub fn minus(&self, other: &Vec3) -> (r: Vec3)
        requires
            fits(v_sub(self@, other@)),
        ensures
            r@ == v_sub(self@, other@),
    {
        Vec3 { x: self.x - other.x, y: self.y - other.y, z: self.z - other.z }
    }

    /// Componentwise negation; the exact result must fit the coordinate type.
    pub fn negated(&self) -> (r: Vec3)
        requires
            fits(v_neg(self@)),
        ensures
            r@ == v_neg(self@),
    {
        Vec3 { x: -self.x, y: -self.y, z: -self.z }
    }

    /// Scaling by an integer; the exact result must fit the coordinate type.
    pub fn scaled(&self, k: i64) -> (r: Vec3)
        requires
            fits(v_scale(k as int, self@)),
        ensures
            r@ == v_scale(k as int, self@),
    {
        proof {
            lemma_i64_product_range(k as int, self.x as int);
            lemma_i64_product_range(k as int, self.y as int);
            lemma_i64_product_range(k as int, self.z as int);
        }
        let x: i128 = (k as i128) * (self.x as i128);
        let y: i128 = (k as i128) * (self.y as i128);
        let z: i128 = (k as i128) * (self.z as i128);
        Vec3 { x: x as i64, y: y as i64, z: z as i64 }
    }

    /// Cross product; the exact result must fit the coordinate type.  The
    /// products are taken in a wide accumulator, so no bound is asked of the
    /// arguments themselves.
    pub fn cross(&self, other: &Vec3) -> (r: Vec3)
        requires
            fits(v_cross(self@, other@)),
        ensures
            r@ == v_cross(self@, other@),
    {
        proof {
            lemma_i64_product_range(self.y as int, other.z as int);
            lemma_i64_product_range(self.z as int, other.y as int);
            lemma_i64_product_range(self.z as int, other.x as int);
            lemma_i64_product_range(self.x as int, other.z as int);
            lemma_i64_product_range(self.x as int, other.y as int);
            lemma_i64_product_range(self.y as int, other.x as int);
        }
        let x: i128 = (self.y as i128) * (other.z as i128) - (self.z as i128) * (other.y as i128);
        let y: i128 = (self.z as i128) * (other.x as i128) - (self.x as i128) * (other.z as i128);
        let z: i128 = (self.x as i128) * (other.y as i128) - (self.y as i128) * (other.x as i128);
        Vec3 { x: x as i64, y: y as i64, z: z as i64 }
    }

    /// Inner product; the exact result must fit `i64`.
    pub fn dot(&self, other: &Vec3) -> (r: i64)
        requires
            i64::MIN <= v_dot(self@, other@) <= i64::MAX,
        ensures
            r as int == v_dot(self@, other@),
    {
        proof {
            lemma_i64_product_range(self.x as int, other.x as int);
            lemma_i64_product_range(self.y as int, other.y as int);
            lemma_i64_product_range(self.z as int, other.z as int);
        }
        let s: i128 = (self.x as i128) * (other.x as i128) + (self.y as i128) * (other.y as i128)
            + (self.z as i128) * (other.z as i128);
        s as i64
    }
}

/// Range of a product of two integers that each fit `i64`; it keeps the wide
/// accumulators of the executable operations clear of `i128` overflow.
proof fn lemma_i64_product_range(a: int, b: int)
    by (nonlinear_arith)
    requires
        i64::MIN <= a <= i64::MAX,
        i64::MIN <= b <= i64::MAX,
    ensures
        (i64::MIN as int) * (i64::MAX as int) <= a * b,
        a * b <= (i64::MIN as int) * (i64::MIN as int),
{
}

/// Bound on a product over a symmetric box: `|a| <= ma` and `|b| <= mb`
/// give `|a * b| <= ma * mb`.
pub proof fn lemma_mul_abs_bound(a: int, b: int, ma: int, mb: int)
    by (nonlinear_arith)
    requires
        -ma <= a <= ma,
        -mb <= b <= mb,
    ensures
        -(ma * mb) <= a * b <= ma * mb,
{
}

/// Componentwise bound on a cross product: coordinates of the factors
/// bounded by `ma` and `mb` bound the product's coordinates by `2 * ma * mb`.
pub proof fn lemma_cross_in_cube(a: V3, b: V3, ma: int, mb: int)
    requires
        in_cube(a, ma),
        in_cube(b, mb),
    ensures
        in_cube(v_cross(a, b), 2 * ma * mb),
{
    lemma_mul_abs_bound(a.y, b.z, ma, mb);
    lemma_mul_abs_bound(a.z, b.y, ma, mb);
    lemma_mul_abs_bound(a.z, b.x, ma, mb);
    lemma_mul_abs_bound(a.x, b.z, ma, mb);
    lemma_mul_abs_bound(a.x, b.y, ma, mb);
    lemma_mul_abs_bound(a.y, b.x, ma, mb);
    assert(2 * ma * mb == 2 * (ma * mb)) by (nonlinear_arith);
}

/// Componentwise bound on a scaled vector.
pub proof fn lemma_scale_in_cube(k: int, a: V3, mk: int, ma: int)
    requires
        -mk <= k <= mk,
        in_cube(a, ma),
    ensures
        in_cube(v_scale(k, a), mk * ma),
{
    lemma_mul_abs_bound(k, a.x, mk, ma);
    lemma_mul_abs_bound(k, a.y, mk, ma);
    lemma_mul_abs_bound(k, a.z, mk, ma);
}

/// The cross product is orthogonal to both of its factors.
pub proof fn lemma_cross_orthogonal(a: V3, b: V3)
    ensures
        v_dot(v_cross(a, b), a) == 0,
        v_dot(v_cross(a, b), b) == 0,
{
    assert((a.y * b.z - a.z * b.y) * a.x + (a.z * b.x - a.x * b.z) * a.y
        + (a.x * b.y - a.y * b.x) * a.z == 0) by (nonlinear_arith);
    assert((a.y * b.z - a.z * b.y) * b.x + (a.z * b.x - a.x * b.z) * b.y
        + (a.x * b.y - a.y * b.x) * b.z == 0) by (nonlinear_arith);
}

/// The cross product of a vector with itself vanishes.
pub proof fn lemma_cross_self_zero(v: V3)
    ensures
        v_cross(v, v) == v_zero(),
{
    assert(v.y * v.z - v.z * v.y == 0) by (nonlinear_arith);
    assert(v.z * v.x - v.x * v.z == 0) by (nonlinear_arith);
    assert(v.x * v.y - v.y * v.x == 0) by (nonlinear_arith);
}

/// The cross product changes sign when its arguments are swapped.
pub proof fn lemma_cross_anticommutes(a: V3, b: V3)
    ensures
        v_cross(a, b) == v_neg(v_cross(b, a)),
{
    assert(a.y * b.z - a.z * b.y == -(b.y * a.z - b.z * a.y)) by (nonlinear_arith);
    assert(a.z * b.x - a.x * b.z == -(b.z * a.x - b.x * a.z)) by (nonlinear_arith);
    assert(a.x * b.y - a.y * b.x == -(b.x * a.y - b.y * a.x)) by (nonlinear_arith);
}

} // verus!
