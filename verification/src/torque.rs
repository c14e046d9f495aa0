//! The Landau-Lifshitz-Gilbert torque law, exactly.
//!
//! The LLG derivative of a spin `s` in a field `f` with Gilbert damping
//! `alpha` is `-prefactor * (s x f + alpha * (s x (s x f)))`, where
//! `prefactor = gamma / (1 + alpha^2)` is a positive scalar.  With a rational
//! damping `alpha = p / q` (`q > 0`), multiplying through by the positive
//! scalar `q / prefactor` leaves an integer vector,
//! `-(q * (s x f) + p * (s x (s x f)))`, that points exactly along the
//! derivative.  This module evaluates that vector and proves the laws that
//! hold of it: it is always orthogonal to the spin (which is what keeps the
//! spin's length constant under the continuous flow), it reduces to pure
//! precession at zero damping, and it vanishes when spin and field are
//! parallel.

use vstd::prelude::*;

use crate::vec3::{
    fits, in_cube, lemma_cross_in_cube, lemma_cross_orthogonal, lemma_mul_abs_bound,
    lemma_scale_in_cube, v_add, v_cross, v_dot, v_neg, v_scale, v_zero, Vec3, V3,
};

verus! {

/// Largest coordinate and damping magnitude that torque evaluation accepts:
/// with every input in `[-32767, 32767]` each nested product fits an `i64`.
pub const TORQUE_INPUT_MAX: i64 = 32767;

/// The LLG torque with damping `p / q`, scaled by the positive factor
/// `q * (1 + (p / q)^2) / gamma`: `-(q * (s x f) + p * (s x (s x f)))`.
pub open spec fn llg_torque_spec(s: V3, f: V3, p: int, q: int) -> V3 {
    v_neg(v_add(v_scale(q, v_cross(s, f)), v_scale(p, v_cross(s, v_cross(s, f)))))
}

/// The LLG torque law for one spin, with a fixed rational Gilbert damping
/// coefficient `damping_num / damping_den`.  Immutable once built: every
/// evaluation is a pure function of the two vectors it is given.
pub struct TorqueLaw {
    pub damping_num: i64,
    pub damping_den: i64,
}

impl TorqueLaw {
    /// Well-formed: the damping ratio has a positive denominator, and both
    /// parts are small enough for torque evaluation not to overflow.  The
    /// numerator may be negative: damping is not validated physically.
    pub open spec fn wf(&self) -> bool {
        &&& 1 <= self.damping_den <= TORQUE_INPUT_MAX
        &&& -TORQUE_INPUT_MAX <= self.damping_num <= TORQUE_INPUT_MAX
    }

    /// Builds the law with damping `damping_num / damping_den`.
    pub fn new(damping_num: i64, damping_den: i64) -> (r: TorqueLaw)
        requires
            1 <= damping_den <= TORQUE_INPUT_MAX,
            -TORQUE_INPUT_MAX <= damping_num <= TORQUE_INPUT_MAX,
        ensures
            r.wf(),
            r.damping_num == damping_num,
            r.damping_den == damping_den,
    {
        TorqueLaw { damping_num, damping_den }
    }

    /// The critically damped law: damping exactly 1.
    pub fn critical() -> (r: TorqueLaw)
        ensures
            r.wf(),
            r.damping_num == 1,
            r.damping_den == 1,
    {
        TorqueLaw { damping_num: 1, damping_den: 1 }
    }

    /// The prefactor `gamma / (1 + alpha^2)` of the LLG derivative, with
    /// `gamma` fixed to 1 and `alpha = damping_num / damping_den`, as an
    /// exact fraction: numerator `damping_den^2`, denominator
    /// `damping_num^2 + damping_den^2`.  Both parts are positive, so the
    /// torque vector points along the derivative, never against it.
    pub fn prefactor(&self) -> (r: (i64, i64))
        requires
            self.wf(),
        ensures
            r.0 == self.damping_den * self.damping_den,
            r.1 == self.damping_num * self.damping_num + self.damping_den * self.damping_den,
            0 < r.0,
            0 < r.1,
    {
        proof {
            lemma_mul_abs_bound(
                self.damping_num as int,
                self.damping_num as int,
                TORQUE_INPUT_MAX as int,
                TORQUE_INPUT_MAX as int,
            );
            lemma_mul_abs_bound(
                self.damping_den as int,
                self.damping_den as int,
                TORQUE_INPUT_MAX as int,
                TORQUE_INPUT_MAX as int,
            );
            assert(self.damping_den * self.damping_den >= 1) by (nonlinear_arith)
                requires
                    self.damping_den >= 1,
            ;
            assert(self.damping_num * self.damping_num >= 0) by (nonlinear_arith);
        }
        let den_sq: i64 = self.damping_den * self.damping_den;
        let num_sq: i64 = self.damping_num * self.damping_num;
        (den_sq, num_sq + den_sq)
    }

    /// Evaluates the torque on `spin` in `field`: the LLG derivative of the
    /// spin, up to a fixed positive scalar.
    pub fn torque(&self, spin: &Vec3, field: &Vec3) -> (r: Vec3)
        requires
            self.wf(),
            in_cube(spin@, TORQUE_INPUT_MAX as int),
            in_cube(field@, TORQUE_INPUT_MAX as int),
        ensures
            r@ == llg_torque_spec(
                spin@,
                field@,
                self.damping_num as int,
                self.damping_den as int,
            ),
    {
        proof {
            let m: int = TORQUE_INPUT_MAX as int;
            let c1: V3 = v_cross(spin@, field@);
            let c2: V3 = v_cross(spin@, c1);
            lemma_cross_in_cube(spin@, field@, m, m);
            lemma_cross_in_cube(spin@, c1, m, 2 * m * m);
            lemma_scale_in_cube(self.damping_den as int, c1, m, 2 * m * m);
            lemma_scale_in_cube(self.damping_num as int, c2, m, 2 * m * (2 * m * m));
            assert(m * (2 * m * m) == 65534 * 32767 * 32767) by (nonlinear_arith)
                requires
                    m == 32767,
            ;
            assert(m * (2 * m * (2 * m * m)) == 131068 * 32767 * 32767 * 32767)
                by (nonlinear_arith)
                requires
                    m == 32767,
            ;
        }
        let precession = spin.cross(field);
        let relaxation = spin.cross(&precession);
        let weighted_precession = precession.scaled(self.damping_den);
        let weighted_relaxation = relaxation.scaled(self.damping_num);
        let sum = weighted_precession.plus(&weighted_relaxation);
        sum.negated()
    }
}

/// The LLG torque is orthogonal to the spin, whatever the damping: under the
/// continuous flow it generates, the spin's length is a constant of motion.
pub proof fn lemma_torque_orthogonal_to_spin(s: V3, f: V3, p: int, q: int)
    ensures
        v_dot(llg_torque_spec(s, f, p, q), s) == 0,
{
    let c1 = v_cross(s, f);
    let c2 = v_cross(s, c1);
    let t = llg_torque_spec(s, f, p, q);
    lemma_cross_orthogonal(s, f);
    lemma_cross_orthogonal(s, c1);
    assert(t.x * s.x == -(q * (c1.x * s.x) + p * (c2.x * s.x))) by (nonlinear_arith)
        requires
            t.x == -(q * c1.x + p * c2.x),
    ;
    assert(t.y * s.y == -(q * (c1.y * s.y) + p * (c2.y * s.y))) by (nonlinear_arith)
        requires
            t.y == -(q * c1.y + p * c2.y),
    ;
    assert(t.z * s.z == -(q * (c1.z * s.z) + p * (c2.z * s.z))) by (nonlinear_arith)
        requires
            t.z == -(q * c1.z + p * c2.z),
    ;
    lemma_scale_sum_zero(q, c1.x * s.x, c1.y * s.y, c1.z * s.z);
    lemma_scale_sum_zero(p, c2.x * s.x, c2.y * s.y, c2.z * s.z);
}

/// Scaling a sum of three terms that vanishes leaves zero.
proof fn lemma_scale_sum_zero(k: int, a1: int, a2: int, a3: int)
    by (nonlinear_arith)
    requires
        a1 + a2 + a3 == 0,
    ensures
        k * a1 + k * a2 + k * a3 == 0,
{
}

/// With zero damping the torque is the pure precession term: the spin turns
/// about the field without decaying toward it.
pub proof fn lemma_zero_damping_is_precession(s: V3, f: V3, q: int)
    ensures
        llg_torque_spec(s, f, 0, q) == v_neg(v_scale(q, v_cross(s, f))),
{
}

/// A spin parallel to the field feels no torque: both cross products vanish.
pub proof fn lemma_parallel_field_no_torque(s: V3, f: V3, p: int, q: int)
    requires
        v_cross(s, f) == v_zero(),
    ensures
        llg_torque_spec(s, f, p, q) == v_zero(),
{
    let c1 = v_cross(s, f);
    let c2 = v_cross(s, c1);
    assert(c1.x == 0 && c1.y == 0 && c1.z == 0);
    assert(s.y * c1.z - s.z * c1.y == 0) by (nonlinear_arith)
        requires
            c1.y == 0,
            c1.z == 0,
    ;
    assert(s.z * c1.x - s.x * c1.z == 0) by (nonlinear_arith)
        requires
            c1.x == 0,
            c1.z == 0,
    ;
    assert(s.x * c1.y - s.y * c1.x == 0) by (nonlinear_arith)
        requires
            c1.x == 0,
            c1.y == 0,
    ;
    assert(q * c1.x == 0 && q * c1.y == 0 && q * c1.z == 0) by (nonlinear_arith)
        requires
            c1.x == 0,
            c1.y == 0,
            c1.z == 0,
    ;
    assert(p * c2.x == 0 && p * c2.y == 0 && p * c2.z == 0) by (nonlinear_arith)
        requires
            c2.x == 0,
            c2.y == 0,
            c2.z == 0,
    ;
}

} // verus!
