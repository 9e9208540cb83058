//! The algebraic laws of the library, stated over the mathematical
//! models (`QM` quaternions of exact rationals) and proved once for all
//! values. The executable operations tie their results to these models
//! exactly, so each law carries over to the built values.

use vstd::prelude::*;
use crate::rational::{Rat, rat_eq, rat_int};
use crate::quaternion::{
    QM, qm_mul, qm_conj, qm_nsq, qm_nsq_num, qm_one, qm_inv_with, qm_sandwich, qm_eq,
};

verus! {

/// Dividing every component of `q` by the rational `s`: numerators pick
/// up `s`'s denominator, the shared denominator picks up `s`'s
/// numerator.
pub open spec fn qm_scale_div(q: QM, s: Rat) -> QM {
    QM {
        w: q.w * s.d,
        x: q.x * s.d,
        y: q.y * s.d,
        z: q.z * s.d,
        d: q.d * s.n,
    }
}

/// Conjugation is an involution: conjugating twice gives the identical
/// quaternion back, component for component.
pub proof fn lemma_conjugate_involution(q: QM)
    ensures
        qm_conj(qm_conj(q)) == q,
{
}

/// A quaternion multiplied by its inverse (taken with its true squared
/// norm) denotes the identity quaternion (1, 0, 0, 0), for every
/// quaternion of nonzero norm.
pub proof fn lemma_mul_inverse_identity(q: QM)
    requires
        q.d != 0,
        qm_nsq_num(q) != 0,
    ensures
        qm_eq(qm_mul(q, qm_inv_with(q, qm_nsq(q))), qm_one()),
{
    let s = qm_nsq_num(q);
    let e = q.d * q.d;
    let i = qm_inv_with(q, qm_nsq(q));
    let m = qm_mul(q, i);
    assert(q.w * (q.w * e) == (q.w * q.w) * e) by (nonlinear_arith);
    assert(q.x * (-(q.x * e)) == -((q.x * q.x) * e)) by (nonlinear_arith);
    assert(q.y * (-(q.y * e)) == -((q.y * q.y) * e)) by (nonlinear_arith);
    assert(q.z * (-(q.z * e)) == -((q.z * q.z) * e)) by (nonlinear_arith);
    assert((q.w * q.w + q.x * q.x + q.y * q.y + q.z * q.z) * e
        == (q.w * q.w) * e + (q.x * q.x) * e + (q.y * q.y) * e + (q.z * q.z) * e)
        by (nonlinear_arith);
    assert(q.d * (q.d * s) == (q.w * q.w + q.x * q.x + q.y * q.y + q.z * q.z) * e)
        by (nonlinear_arith)
        requires
            s == q.w * q.w + q.x * q.x + q.y * q.y + q.z * q.z,
            e == q.d * q.d,
    ;
    assert(m.w == m.d);
    assert(q.w * (-(q.x * e)) == -((q.w * q.x) * e)) by (nonlinear_arith);
    assert(q.x * (q.w * e) == (q.w * q.x) * e) by (nonlinear_arith);
    assert(q.y * (-(q.z * e)) == -((q.y * q.z) * e)) by (nonlinear_arith);
    assert(q.z * (-(q.y * e)) == -((q.y * q.z) * e)) by (nonlinear_arith);
    assert(m.x == 0);
    assert(q.w * (-(q.y * e)) == -((q.w * q.y) * e)) by (nonlinear_arith);
    assert(q.y * (q.w * e) == (q.w * q.y) * e) by (nonlinear_arith);
    assert(q.x * (-(q.z * e)) == -((q.x * q.z) * e)) by (nonlinear_arith);
    assert(q.z * (-(q.x * e)) == -((q.x * q.z) * e)) by (nonlinear_arith);
    assert(m.y == 0);
    assert(q.w * (-(q.z * e)) == -((q.w * q.z) * e)) by (nonlinear_arith);
    assert(q.z * (q.w * e) == (q.w * q.z) * e) by (nonlinear_arith);
    assert(q.x * (-(q.y * e)) == -((q.x * q.y) * e)) by (nonlinear_arith);
    assert(q.y * (-(q.x * e)) == -((q.x * q.y) * e)) by (nonlinear_arith);
    assert(m.z == 0);
    assert(m.w * 1 == 1 * m.d);
    assert(m.x * 1 == 0 * m.d);
    assert(m.y * 1 == 0 * m.d);
    assert(m.z * 1 == 0 * m.d);
    assert(qm_eq(m, qm_one()));
}

/// When the squared norm of `q` is the exact square of a nonzero
/// rational `s`, dividing every component by `s` yields a quaternion
/// whose recomputed squared norm is exactly one. This is the exact core
/// of building with `normalized = true`: the executable path only adds
/// the rounding of the materialised square root.
pub proof fn lemma_normalized_exact_unit(q: QM, s: Rat)
    requires
        q.d != 0,
        s.n != 0,
        s.d != 0,
        rat_eq(Rat { n: s.n * s.n, d: s.d * s.d }, qm_nsq(q)),
    ensures
        rat_eq(qm_nsq(qm_scale_div(q, s)), rat_int(1)),
{
    let n = qm_scale_div(q, s);
    let t = qm_nsq(n);
    let ss = s.d * s.d;
    assert((q.w * s.d) * (q.w * s.d) == (q.w * q.w) * ss) by (nonlinear_arith)
        requires
            ss == s.d * s.d,
    ;
    assert((q.x * s.d) * (q.x * s.d) == (q.x * q.x) * ss) by (nonlinear_arith)
        requires
            ss == s.d * s.d,
    ;
    assert((q.y * s.d) * (q.y * s.d) == (q.y * q.y) * ss) by (nonlinear_arith)
        requires
            ss == s.d * s.d,
    ;
    assert((q.z * s.d) * (q.z * s.d) == (q.z * q.z) * ss) by (nonlinear_arith)
        requires
            ss == s.d * s.d,
    ;
    assert((q.w * q.w + q.x * q.x + q.y * q.y + q.z * q.z) * ss
        == (q.w * q.w) * ss + (q.x * q.x) * ss + (q.y * q.y) * ss + (q.z * q.z) * ss)
        by (nonlinear_arith);
    assert((q.d * s.n) * (q.d * s.n) == (s.n * s.n) * (q.d * q.d)) by (nonlinear_arith);
    assert(t.n == (q.w * q.w + q.x * q.x + q.y * q.y + q.z * q.z) * ss);
    assert(t.d == (s.n * s.n) * (q.d * q.d));
    assert(t.n * 1 == 1 * t.d);
}

/// Multiplying by the scalar-part-only identity on the left and on the
/// right leaves every component unchanged.
proof fn ham_one_sides(w: int, x: int, y: int, z: int, d: int)
    by (nonlinear_arith)
    ensures
        1 * w - 0 * x - 0 * y - 0 * z == w,
        1 * x + 0 * w + 0 * z - 0 * y == x,
        1 * y - 0 * z + 0 * w + 0 * x == y,
        1 * z + 0 * y - 0 * x + 0 * w == z,
        1 * d == d,
        w * 1 - x * 0 - y * 0 - z * 0 == w,
        w * 0 + x * 1 + y * 0 - z * 0 == x,
        w * 0 - x * 0 + y * 1 + z * 0 == y,
        w * 0 + x * 0 - y * 0 + z * 1 == z,
        d * 1 == d,
{
}

/// Rotating by the identity quaternion changes nothing: the sandwich
/// product of (1, 0, 0, 0) around any quaternion gives that quaternion
/// back, component for component.
pub proof fn lemma_identity_rotation(p: QM)
    ensures
        qm_sandwich(qm_one(), p) == p,
{
    ham_one_sides(p.w, p.x, p.y, p.z, p.d);
    let m1 = qm_mul(qm_one(), p);
    assert(m1 == p);
    ham_one_sides(m1.w, m1.x, m1.y, m1.z, m1.d);
    assert(qm_mul(m1, qm_conj(qm_one())) == p);
}

} // verus!
