//! Quaternions over exact rational scalars.
//!
//! A quaternion holds four components over one shared positive
//! denominator, together with its squared norm, computed once when the
//! value is built and then kept verbatim by the operations that the
//! original algebra carries it through (`inverse` and `normalize` carry
//! the stored norm; `conjugate` and `mul` recompute it). The
//! mathematical model is `QM`, a four-tuple of unbounded integer
//! numerators plus the shared denominator.

use vstd::prelude::*;
use crate::rational::{Rat, Scalar, rat_eq, rat_int, srat_mul, srat_mul_fits, floor_div, div_pos};
use crate::sqrt::{sqrt_floor, isqrt, lemma_sqrt_floor_bounds, lemma_sqrt_floor_pos};
use crate::vec3::Vec3;

verus! {

/// Fixed denominator scale: normalized components and materialised
/// square roots are produced at this resolution.
pub const SCALE: i128 = 16384;

/// Largest shared denominator a builder accepts.
pub const DEN_LIMIT: i128 = 0x10000000000;

/// Largest scaled component magnitude a builder accepts.
pub const NUM_LIMIT: i128 = 0x800000000000;

/// Cap on the product of component magnitudes in `mul`.
pub const MUL_NUM_FIT: i128 = 0x800000000000000;

/// Cap on the product of denominators in `mul`.
pub const MUL_DEN_FIT: i128 = 0x8000000000000000;

/// Cap on component magnitudes in `conjugate`.
pub const CONJ_NUM_FIT: i128 = 0x4000000000000000;

/// Generic cap on a single machine product.
pub const FIT_126: i128 = 0x40000000000000000000000000000000;

/// Mathematical model of a quaternion: numerators `w, x, y, z` over the
/// shared positive denominator `d`.
pub ghost struct QM {
    pub w: int,
    pub x: int,
    pub y: int,
    pub z: int,
    pub d: int,
}

/// Model of a stored quaternion: its components and its stored squared
/// norm (which operations may carry even when it is stale).
pub ghost struct QView {
    pub q: QM,
    pub nsq: Rat,
}

pub open spec fn qm_wf(q: QM) -> bool {
    q.d > 0
}

/// The Hamilton product. Components multiply out over the product
/// denominator; the result is never renormalised.
pub open spec fn qm_mul(a: QM, b: QM) -> QM {
    QM {
        w: a.w * b.w - a.x * b.x - a.y * b.y - a.z * b.z,
        x: a.w * b.x + a.x * b.w + a.y * b.z - a.z * b.y,
        y: a.w * b.y - a.x * b.z + a.y * b.w + a.z * b.x,
        z: a.w * b.z + a.x * b.y - a.y * b.x + a.z * b.w,
        d: a.d * b.d,
    }
}

/// The conjugate: vector part negated, scalar part kept.
pub open spec fn qm_conj(a: QM) -> QM {
    QM { w: a.w, x: -a.x, y: -a.y, z: -a.z, d: a.d }
}

/// Numerator of the squared norm over denominator `d * d`.
pub open spec fn qm_nsq_num(a: QM) -> int {
    a.w * a.w + a.x * a.x + a.y * a.y + a.z * a.z
}

/// The squared norm of the components as a rational.
pub open spec fn qm_nsq(a: QM) -> Rat {
    Rat { n: qm_nsq_num(a), d: a.d * a.d }
}

/// The identity quaternion (1, 0, 0, 0).
pub open spec fn qm_one() -> QM {
    QM { w: 1, x: 0, y: 0, z: 0, d: 1 }
}

/// The inverse computed from a stored squared norm `nsq`: the conjugate
/// with every component divided by `nsq`.
pub open spec fn qm_inv_with(q: QM, nsq: Rat) -> QM {
    QM {
        w: q.w * nsq.d,
        x: -(q.x * nsq.d),
        y: -(q.y * nsq.d),
        z: -(q.z * nsq.d),
        d: q.d * nsq.n,
    }
}

/// The sandwich product `q * p * conjugate(q)` that rotates the pure
/// quaternion `p`.
pub open spec fn qm_sandwich(q: QM, p: QM) -> QM {
    qm_mul(qm_mul(q, p), qm_conj(q))
}

/// Component-wise equality of the denoted rationals.
pub open spec fn qm_eq(a: QM, b: QM) -> bool {
    a.w * b.d == b.w * a.d
    && a.x * b.d == b.x * a.d
    && a.y * b.d == b.y * a.d
    && a.z * b.d == b.z * a.d
}

pub open spec fn abs1(v: int) -> int {
    if v >= 0 { v } else { -v }
}

pub open spec fn max2(a: int, b: int) -> int {
    if a >= b { a } else { b }
}

pub open spec fn max4(a: int, b: int, c: int, d: int) -> int {
    max2(max2(a, b), max2(c, d))
}

/// The largest component magnitude of a model quaternion.
pub open spec fn qm_max_abs(q: QM) -> int {
    max4(abs1(q.w), abs1(q.x), abs1(q.y), abs1(q.z))
}

/// The shared denominator a builder settles on: the largest input
/// denominator, which every input denominator must divide.
pub open spec fn build_den(w: Rat, x: Rat, y: Rat, z: Rat) -> int {
    max4(w.d, x.d, y.d, z.d)
}

/// A numerator rescaled onto the shared denominator `dd`.
pub open spec fn scale_to(r: Rat, dd: int) -> int {
    r.n * (dd / r.d)
}

/// The unnormalised quaternion a builder assembles from four scalars.
pub open spec fn build_raw(w: Rat, x: Rat, y: Rat, z: Rat) -> QM {
    let dd = build_den(w, x, y, z);
    QM {
        w: scale_to(w, dd),
        x: scale_to(x, dd),
        y: scale_to(y, dd),
        z: scale_to(z, dd),
        d: dd,
    }
}

/// What a builder demands of its inputs: positive denominators that
/// divide their maximum, bounded so every intermediate product fits the
/// machine, and a nonzero value when normalisation is asked for.
pub open spec fn build_req(w: Rat, x: Rat, y: Rat, z: Rat, normalized: bool) -> bool {
    w.d > 0 && x.d > 0 && y.d > 0 && z.d > 0
    && {
        let dd = build_den(w, x, y, z);
        dd <= DEN_LIMIT as int
        && dd % w.d == 0 && dd % x.d == 0 && dd % y.d == 0 && dd % z.d == 0
        && -(NUM_LIMIT as int) <= scale_to(w, dd) <= NUM_LIMIT as int
        && -(NUM_LIMIT as int) <= scale_to(x, dd) <= NUM_LIMIT as int
        && -(NUM_LIMIT as int) <= scale_to(y, dd) <= NUM_LIMIT as int
        && -(NUM_LIMIT as int) <= scale_to(z, dd) <= NUM_LIMIT as int
        && (normalized ==> qm_nsq_num(build_raw(w, x, y, z)) > 0)
    }
}

/// One normalised component: the raw component divided by the
/// materialised square root of the norm, floored onto denominator
/// `SCALE`.
pub open spec fn normalize_comp(c: int, root: int) -> int {
    (c * 16384 * 16384) / root
}

/// The exact outcome of a build. The stored squared norm is always that
/// of the components before any normalisation — the original stores the
/// pre-division norm even when it divides the components by it.
pub open spec fn build_view(w: Rat, x: Rat, y: Rat, z: Rat, normalized: bool) -> QView {
    let q = build_raw(w, x, y, z);
    let s = qm_nsq_num(q);
    let nsq = Rat { n: s, d: q.d * q.d };
    if normalized {
        let root = sqrt_floor(s * 16384 * 16384);
        QView {
            q: QM {
                w: normalize_comp(q.w, root),
                x: normalize_comp(q.x, root),
                y: normalize_comp(q.y, root),
                z: normalize_comp(q.z, root),
                d: SCALE as int,
            },
            nsq,
        }
    } else {
        QView { q, nsq }
    }
}

/// A component scaled onto a denominator its own denominator divides
/// denotes the same rational.
pub proof fn lemma_scale_to_value(r: Rat, dd: int)
    requires
        r.d > 0,
        dd > 0,
        dd % r.d == 0,
    ensures
        rat_eq(Rat { n: scale_to(r, dd), d: dd }, r),
{
    vstd::arithmetic::div_mod::lemma_fundamental_div_mod(dd, r.d);
    let q = dd / r.d;
    assert(dd == r.d * q);
    assert((r.n * q) * r.d == r.n * (r.d * q)) by (nonlinear_arith);
}

/// `x * y` stays within `f` when the magnitudes of `x` and `y` are
/// bounded by `mx` and `my` with `mx * my <= f`.
pub proof fn lemma_prod_bound(x: int, y: int, mx: int, my: int, f: int)
    by (nonlinear_arith)
    requires
        -mx <= x <= mx,
        -my <= y <= my,
        0 <= mx,
        0 <= my,
        mx * my <= f,
    ensures
        -f <= x * y <= f,
{
}

/// A product of positives is positive.
pub proof fn lemma_pos_prod(a: int, b: int)
    by (nonlinear_arith)
    requires
        a > 0,
        b > 0,
    ensures
        a * b > 0,
{
}

/// A square is nonnegative.
pub proof fn lemma_sq_nonneg(a: int)
    by (nonlinear_arith)
    ensures
        a * a >= 0,
{
}

/// An immutable quaternion: components `w, x, y, z` over one shared
/// positive denominator, plus the squared norm stored at build time.
#[derive(Clone, Copy)]
pub struct Quaternion {
    wn: i128,
    xn: i128,
    yn: i128,
    zn: i128,
    den: i128,
    nsq: Scalar,
}

impl View for Quaternion {
    type V = QView;

    closed spec fn view(&self) -> QView {
        QView {
            q: QM {
                w: self.wn as int,
                x: self.xn as int,
                y: self.yn as int,
                z: self.zn as int,
                d: self.den as int,
            },
            nsq: self.nsq@,
        }
    }
}

/// Builder that assembles a quaternion from an axis, the cosine and sine
/// of half the rotation angle, and a normalisation flag.
pub struct QuaternionBuilderByAxisAngle {
    pub x: Scalar,
    pub y: Scalar,
    pub z: Scalar,
    pub cos_half: Scalar,
    pub sin_half: Scalar,
    pub normalized: bool,
}

/// Builder that assembles a quaternion from raw components and a
/// normalisation flag.
pub struct QuaternionBuilderByWXYZ {
    pub w: Scalar,
    pub x: Scalar,
    pub y: Scalar,
    pub z: Scalar,
    pub normalized: bool,
}

impl QuaternionBuilderByAxisAngle {
    /// Sets the x component of the rotation axis.
    pub fn x(self, val: Scalar) -> (r: QuaternionBuilderByAxisAngle)
        ensures
            r.x == val,
            r.y == self.y,
            r.z == self.z,
            r.cos_half == self.cos_half,
            r.sin_half == self.sin_half,
            r.normalized == self.normalized,
    {
        QuaternionBuilderByAxisAngle { x: val, ..self }
    }

    /// Sets the y component of the rotation axis.
    pub fn y(self, val: Scalar) -> (r: QuaternionBuilderByAxisAngle)
        ensures
            r.y == val,
            r.x == self.x,
            r.z == self.z,
            r.cos_half == self.cos_half,
            r.sin_half == self.sin_half,
            r.normalized == self.normalized,
    {
        QuaternionBuilderByAxisAngle { y: val, ..self }
    }

    /// Sets the z component of the rotation axis.
    pub fn z(self, val: Scalar) -> (r: QuaternionBuilderByAxisAngle)
        ensures
            r.z == val,
            r.x == self.x,
            r.y == self.y,
            r.cos_half == self.cos_half,
            r.sin_half == self.sin_half,
            r.normalized == self.normalized,
    {
        QuaternionBuilderByAxisAngle { z: val, ..self }
    }

    /// Sets the rotation angle through the cosine and sine of half the
    /// angle. Trigonometry is irrational, so the caller evaluates
    /// `cos(angle / 2)` and `sin(angle / 2)` and passes rational
    /// approximations of its chosen accuracy.
    pub fn angle(self, cos_half: Scalar, sin_half: Scalar) -> (r: QuaternionBuilderByAxisAngle)
        ensures
            r.cos_half == cos_half,
            r.sin_half == sin_half,
            r.x == self.x,
            r.y == self.y,
            r.z == self.z,
            r.normalized == self.normalized,
    {
        QuaternionBuilderByAxisAngle { cos_half, sin_half, ..self }
    }

    /// Chooses whether the built components are divided by their norm.
    pub fn normalized(self, val: bool) -> (r: QuaternionBuilderByAxisAngle)
        ensures
            r.normalized == val,
            r.x == self.x,
            r.y == self.y,
            r.z == self.z,
            r.cos_half == self.cos_half,
            r.sin_half == self.sin_half,
    {
        QuaternionBuilderByAxisAngle { normalized: val, ..self }
    }

    /// Builds the quaternion `(cos_half, x * sin_half, y * sin_half,
    /// z * sin_half)`, normalised on request. The stored squared norm is
    /// always that of the unnormalised components.
    pub fn build(&self) -> (r: Quaternion)
        requires
            self.x.wf(),
            self.y.wf(),
            self.z.wf(),
            self.cos_half.wf(),
            self.sin_half.wf(),
            srat_mul_fits(self.x@, self.sin_half@),
            srat_mul_fits(self.y@, self.sin_half@),
            srat_mul_fits(self.z@, self.sin_half@),
            build_req(
                self.cos_half@,
                srat_mul(self.x@, self.sin_half@),
                srat_mul(self.y@, self.sin_half@),
                srat_mul(self.z@, self.sin_half@),
                self.normalized,
            ),
        ensures
            r@ == build_view(
                self.cos_half@,
                srat_mul(self.x@, self.sin_half@),
                srat_mul(self.y@, self.sin_half@),
                srat_mul(self.z@, self.sin_half@),
                self.normalized,
            ),
            r.wf(),
    {
        let tx = self.x.times(&self.sin_half);
        let ty = self.y.times(&self.sin_half);
        let tz = self.z.times(&self.sin_half);
        build_from(self.cos_half, tx, ty, tz, self.normalized)
    }
}

impl QuaternionBuilderByWXYZ {
    /// Sets the scalar component.
    pub fn w(self, val: Scalar) -> (r: QuaternionBuilderByWXYZ)
        ensures
            r.w == val,
            r.x == self.x,
            r.y == self.y,
            r.z == self.z,
            r.normalized == self.normalized,
    {
        QuaternionBuilderByWXYZ { w: val, ..self }
    }

    /// Sets the x component.
    pub fn x(self, val: Scalar) -> (r: QuaternionBuilderByWXYZ)
        ensures
            r.x == val,
            r.w == self.w,
            r.y == self.y,
            r.z == self.z,
            r.normalized == self.normalized,
    {
        QuaternionBuilderByWXYZ { x: val, ..self }
    }

    /// Sets the y component.
    pub fn y(self, val: Scalar) -> (r: QuaternionBuilderByWXYZ)
        ensures
            r.y == val,
            r.w == self.w,
            r.x == self.x,
            r.z == self.z,
            r.normalized == self.normalized,
    {
        QuaternionBuilderByWXYZ { y: val, ..self }
    }

    /// Sets the z component.
    pub fn z(self, val: Scalar) -> (r: QuaternionBuilderByWXYZ)
        ensures
            r.z == val,
            r.w == self.w,
            r.x == self.x,
            r.y == self.y,
            r.normalized == self.normalized,
    {
        QuaternionBuilderByWXYZ { z: val, ..self }
    }

    /// Chooses whether the built components are divided by their norm.
    pub fn normalized(self, val: bool) -> (r: QuaternionBuilderByWXYZ)
        ensures
            r.normalized == val,
            r.w == self.w,
            r.x == self.x,
            r.y == self.y,
            r.z == self.z,
    {
        QuaternionBuilderByWXYZ { normalized: val, ..self }
    }

    /// Builds the quaternion with the given components, normalised on
    /// request. The stored squared norm is always that of the
    /// unnormalised components.
    pub fn build(&self) -> (r: Quaternion)
        requires
            build_req(self.w@, self.x@, self.y@, self.z@, self.normalized),
        ensures
            r@ == build_view(self.w@, self.x@, self.y@, self.z@, self.normalized),
            r.wf(),
    {
        build_from(self.w, self.x, self.y, self.z, self.normalized)
    }
}

/// Shared build step: rescale the four scalars onto their common
/// denominator, compute the squared norm, and divide by its root when
/// normalisation is asked for.
fn build_from(w: Scalar, x: Scalar, y: Scalar, z: Scalar, normalized: bool) -> (r: Quaternion)
    requires
        build_req(w@, x@, y@, z@, normalized),
    ensures
        r@ == build_view(w@, x@, y@, z@, normalized),
        r.wf(),
{
    let ghost gw = w@;
    let ghost gx = x@;
    let ghost gy = y@;
    let ghost gz = z@;
    let ghost ddi = build_den(gw, gx, gy, gz);
    let mut dd = w.den();
    if x.den() > dd {
        dd = x.den();
    }
    if y.den() > dd {
        dd = y.den();
    }
    if z.den() > dd {
        dd = z.den();
    }
    proof {
        assert(dd as int == ddi);
    }
    let fw = div_pos(dd, w.den());
    let fx = div_pos(dd, x.den());
    let fy = div_pos(dd, y.den());
    let fz = div_pos(dd, z.den());
    proof {
        assert(gw.n * (fw as int) == scale_to(gw, ddi));
        assert(gx.n * (fx as int) == scale_to(gx, ddi));
        assert(gy.n * (fy as int) == scale_to(gy, ddi));
        assert(gz.n * (fz as int) == scale_to(gz, ddi));
    }
    let sw = w.num() * fw;
    let sx = x.num() * fx;
    let sy = y.num() * fy;
    let sz = z.num() * fz;
    proof {
        lemma_prod_bound(sw as int, sw as int, 0x800000000000, 0x800000000000,
            0x400000000000000000000000);
        lemma_prod_bound(sx as int, sx as int, 0x800000000000, 0x800000000000,
            0x400000000000000000000000);
        lemma_prod_bound(sy as int, sy as int, 0x800000000000, 0x800000000000,
            0x400000000000000000000000);
        lemma_prod_bound(sz as int, sz as int, 0x800000000000, 0x800000000000,
            0x400000000000000000000000);
        lemma_sq_nonneg(sw as int);
        lemma_sq_nonneg(sx as int);
        lemma_sq_nonneg(sy as int);
        lemma_sq_nonneg(sz as int);
        lemma_pos_prod(dd as int, dd as int);
        lemma_prod_bound(dd as int, dd as int, 0x10000000000, 0x10000000000,
            0x100000000000000000000);
    }
    let s = sw * sw + sx * sx + sy * sy + sz * sz;
    let nsq = Scalar::new(s, dd * dd);
    if normalized {
        proof {
            assert(s as int == qm_nsq_num(build_raw(gw, gx, gy, gz)));
            assert(s >= 1);
            assert((s as int) * 16384 * 16384 < 0x40000000000000000000000000000000
                && (s as int) * 16384 * 16384 >= 16384 * 16384) by (nonlinear_arith)
                requires
                    1 <= s as int <= 0x1000000000000000000000000,
            ;
        }
        let t: u128 = (s * 16384 * 16384) as u128;
        let root_u = isqrt(t);
        let ghost ti = t as int;
        proof {
            lemma_sqrt_floor_bounds(ti);
            lemma_sqrt_floor_pos(ti);
        }
        let root = root_u as i128;
        let cw = floor_div(sw * 16384 * 16384, root);
        let cx = floor_div(sx * 16384 * 16384, root);
        let cy = floor_div(sy * 16384 * 16384, root);
        let cz = floor_div(sz * 16384 * 16384, root);
        let r = Quaternion { wn: cw, xn: cx, yn: cy, zn: cz, den: SCALE, nsq };
        proof {
            assert(r@.q == build_view(gw, gx, gy, gz, true).q);
            assert(r@.nsq == build_view(gw, gx, gy, gz, true).nsq);
        }
        r
    } else {
        Quaternion { wn: sw, xn: sx, yn: sy, zn: sz, den: dd, nsq }
    }
}

impl Quaternion {
    /// Denominators are positive and the stored squared norm is
    /// nonnegative.
    pub open spec fn wf(&self) -> bool {
        self@.q.d > 0 && self@.nsq.d > 0 && self@.nsq.n >= 0
    }

    /// Starts an axis-angle build. Defaults: axis (0, 0, 0), angle 0
    /// (half-angle cosine 1 and sine 0), unnormalised.
    pub fn init_by_axis_angle() -> (r: QuaternionBuilderByAxisAngle)
        ensures
            r.x@ == rat_int(0),
            r.y@ == rat_int(0),
            r.z@ == rat_int(0),
            r.cos_half@ == rat_int(1),
            r.sin_half@ == rat_int(0),
            r.normalized == false,
    {
        QuaternionBuilderByAxisAngle {
            x: Scalar::new(0, 1),
            y: Scalar::new(0, 1),
            z: Scalar::new(0, 1),
            cos_half: Scalar::new(1, 1),
            sin_half: Scalar::new(0, 1),
            normalized: false,
        }
    }

    /// Starts a raw-component build. Defaults: all components 0,
    /// unnormalised.
    pub fn init_by_wxyz() -> (r: QuaternionBuilderByWXYZ)
        ensures
            r.w@ == rat_int(0),
            r.x@ == rat_int(0),
            r.y@ == rat_int(0),
            r.z@ == rat_int(0),
            r.normalized == false,
    {
        QuaternionBuilderByWXYZ {
            w: Scalar::new(0, 1),
            x: Scalar::new(0, 1),
            y: Scalar::new(0, 1),
            z: Scalar::new(0, 1),
            normalized: false,
        }
    }

    /// The scalar component as a scalar value.
    pub fn w(&self) -> (r: Scalar)
        requires
            self.wf(),
        ensures
            r@ == (Rat { n: self@.q.w, d: self@.q.d }),
    {
        Scalar::new(self.wn, self.den)
    }

    /// The x component as a scalar value.
    pub fn x(&self) -> (r: Scalar)
        requires
            self.wf(),
        ensures
            r@ == (Rat { n: self@.q.x, d: self@.q.d }),
    {
        Scalar::new(self.xn, self.den)
    }

    /// The y component as a scalar value.
    pub fn y(&self) -> (r: Scalar)
        requires
            self.wf(),
        ensures
            r@ == (Rat { n: self@.q.y, d: self@.q.d }),
    {
        Scalar::new(self.yn, self.den)
    }

    /// The z component as a scalar value.
    pub fn z(&self) -> (r: Scalar)
        requires
            self.wf(),
        ensures
            r@ == (Rat { n: self@.q.z, d: self@.q.d }),
    {
        Scalar::new(self.zn, self.den)
    }

    /// The raw x numerator.
    pub(crate) fn comp_x(&self) -> (r: i128)
        ensures
            r as int == self@.q.x,
    {
        self.xn
    }

    /// The raw y numerator.
    pub(crate) fn comp_y(&self) -> (r: i128)
        ensures
            r as int == self@.q.y,
    {
        self.yn
    }

    /// The raw z numerator.
    pub(crate) fn comp_z(&self) -> (r: i128)
        ensures
            r as int == self@.q.z,
    {
        self.zn
    }

    /// The raw shared denominator.
    pub(crate) fn comp_den(&self) -> (r: i128)
        ensures
            r as int == self@.q.d,
    {
        self.den
    }

    /// The squared norm exactly as stored at build time (possibly
    /// carried unchanged through `inverse` or `normalize`).
    pub fn norm_sq(&self) -> (r: Scalar)
        ensures
            r@ == self@.nsq,
    {
        self.nsq
    }

    /// Projects the vector part onto a vector, discarding `w`. The
    /// magnitude is recomputed fresh from the components through the
    /// vector builder, in contrast with `Vec3::rotate`, which carries
    /// the input magnitude over.
    pub fn as_vec3(&self) -> (r: Vec3)
        requires
            self.wf(),
            self@.q.d <= DEN_LIMIT as int,
            qm_max_abs(self@.q) <= NUM_LIMIT as int,
        ensures
            r@ == crate::vec3::build_view3(
                Rat { n: self@.q.x, d: self@.q.d },
                Rat { n: self@.q.y, d: self@.q.d },
                Rat { n: self@.q.z, d: self@.q.d },
            ),
            r.wf(),
    {
        proof {
            crate::vec3::lemma_uniform_req3(self@.q.x, self@.q.y, self@.q.z, self@.q.d);
        }
        Vec3::init()
            .x(Scalar::new(self.xn, self.den))
            .y(Scalar::new(self.yn, self.den))
            .z(Scalar::new(self.zn, self.den))
            .build()
    }

    /// The conjugate `(w, -x, -y, -z)`, with the squared norm recomputed
    /// fresh from the negated components — numerically the same norm,
    /// but recomputed rather than copied.
    pub fn conjugate(&self) -> (r: Quaternion)
        requires
            self.wf(),
            qm_max_abs(self@.q) <= CONJ_NUM_FIT as int,
            self@.q.d < MUL_DEN_FIT as int,
        ensures
            r@.q == qm_conj(self@.q),
            r@.nsq == qm_nsq(qm_conj(self@.q)),
            r@.nsq == qm_nsq(self@.q),
            r.wf(),
    {
        proof {
            lemma_prod_bound(self.wn as int, self.wn as int, 0x4000000000000000,
                0x4000000000000000, 0x10000000000000000000000000000000);
            lemma_prod_bound(self.xn as int, self.xn as int, 0x4000000000000000,
                0x4000000000000000, 0x10000000000000000000000000000000);
            lemma_prod_bound(self.yn as int, self.yn as int, 0x4000000000000000,
                0x4000000000000000, 0x10000000000000000000000000000000);
            lemma_prod_bound(self.zn as int, self.zn as int, 0x4000000000000000,
                0x4000000000000000, 0x10000000000000000000000000000000);
            lemma_sq_nonneg(self.wn as int);
            lemma_sq_nonneg(self.xn as int);
            lemma_sq_nonneg(self.yn as int);
            lemma_sq_nonneg(self.zn as int);
            lemma_pos_prod(self.den as int, self.den as int);
            lemma_prod_bound(self.den as int, self.den as int, 0x8000000000000000,
                0x8000000000000000, 0x40000000000000000000000000000000);
            let q = self@.q;
            assert((-q.x) * (-q.x) == q.x * q.x) by (nonlinear_arith);
            assert((-q.y) * (-q.y) == q.y * q.y) by (nonlinear_arith);
            assert((-q.z) * (-q.z) == q.z * q.z) by (nonlinear_arith);
        }
        let s = self.wn * self.wn + self.xn * self.xn + self.yn * self.yn + self.zn * self.zn;
        Quaternion {
            wn: self.wn,
            xn: -self.xn,
            yn: -self.yn,
            zn: -self.zn,
            den: self.den,
            nsq: Scalar::new(s, self.den * self.den),
        }
    }

    /// The inverse: the conjugate's components each divided by the
    /// stored squared norm. The stored norm of the result is carried
    /// over from `self` unchanged, not recomputed — so it reflects the
    /// quaternion this inverse was taken of.
    pub fn inverse(&self) -> (r: Quaternion)
        requires
            self.wf(),
            self@.nsq.n > 0,
            qm_max_abs(self@.q) * self@.nsq.d <= FIT_126 as int,
            self@.q.d * self@.nsq.n <= FIT_126 as int,
        ensures
            r@.q == qm_inv_with(self@.q, self@.nsq),
            r@.nsq == self@.nsq,
            r.wf(),
    {
        let sn = self.nsq.num();
        let sd = self.nsq.den();
        proof {
            let m = qm_max_abs(self@.q);
            let f = FIT_126 as int;
            assert(abs1(self@.q.w) <= m && abs1(self@.q.x) <= m && abs1(self@.q.y) <= m
                && abs1(self@.q.z) <= m);
            assert(m * (sd as int) <= f);
            lemma_prod_bound(self.wn as int, sd as int, m, sd as int, f);
            lemma_prod_bound(self.xn as int, sd as int, m, sd as int, f);
            lemma_prod_bound(self.yn as int, sd as int, m, sd as int, f);
            lemma_prod_bound(self.zn as int, sd as int, m, sd as int, f);
            lemma_prod_bound(self.den as int, sn as int, self.den as int, sn as int, f);
            lemma_pos_prod(self.den as int, sn as int);
        }
        Quaternion {
            wn: self.wn * sd,
            xn: -(self.xn * sd),
            yn: -(self.yn * sd),
            zn: -(self.zn * sd),
            den: self.den * sn,
            nsq: self.nsq,
        }
    }

    /// Divides every component by the materialised square root of the
    /// stored squared norm, producing components at denominator `SCALE`.
    /// The stored norm of the result is carried over from `self`
    /// unchanged — it still reflects the pre-normalisation magnitude.
    pub fn normalize(&self) -> (r: Quaternion)
        requires
            self.wf(),
            self@.nsq.n > 0,
            self@.q.d <= DEN_LIMIT as int,
            qm_max_abs(self@.q) <= NUM_LIMIT as int,
            self@.nsq.n <= NUM_LIMIT as int,
            self@.nsq.d <= DEN_LIMIT as int,
        ensures
            r@.q.d == SCALE as int,
            r@.q.w == (self@.q.w * self@.nsq.d * 16384 * 16384)
                / (self@.q.d * sqrt_floor(self@.nsq.n * self@.nsq.d * 16384 * 16384)),
            r@.q.x == (self@.q.x * self@.nsq.d * 16384 * 16384)
                / (self@.q.d * sqrt_floor(self@.nsq.n * self@.nsq.d * 16384 * 16384)),
            r@.q.y == (self@.q.y * self@.nsq.d * 16384 * 16384)
                / (self@.q.d * sqrt_floor(self@.nsq.n * self@.nsq.d * 16384 * 16384)),
            r@.q.z == (self@.q.z * self@.nsq.d * 16384 * 16384)
                / (self@.q.d * sqrt_floor(self@.nsq.n * self@.nsq.d * 16384 * 16384)),
            r@.nsq == self@.nsq,
            r.wf(),
    {
        let sn = self.nsq.num();
        let sd = self.nsq.den();
        proof {
            assert((sn as int) * (sd as int) * 16384 * 16384
                < 0x40000000000000000000000000000000
                && (sn as int) * (sd as int) >= 1
                && (sn as int) * (sd as int) * 16384 * 16384
                    >= 16384 * 16384) by (nonlinear_arith)
                requires
                    1 <= sn as int <= 0x800000000000,
                    1 <= sd as int <= 0x10000000000,
            ;
        }
        let t: u128 = (sn * sd * 16384 * 16384) as u128;
        let root_u = isqrt(t);
        let ghost ti = t as int;
        proof {
            lemma_sqrt_floor_bounds(ti);
            lemma_sqrt_floor_pos(ti);
        }
        let root = root_u as i128;
        proof {
            lemma_pos_prod(self.den as int, root as int);
            lemma_prod_bound(self.wn as int, sd as int, 0x800000000000, 0x10000000000,
                0x8000000000000000000000);
            lemma_prod_bound(self.xn as int, sd as int, 0x800000000000, 0x10000000000,
                0x8000000000000000000000);
            lemma_prod_bound(self.yn as int, sd as int, 0x800000000000, 0x10000000000,
                0x8000000000000000000000);
            lemma_prod_bound(self.zn as int, sd as int, 0x800000000000, 0x10000000000,
                0x8000000000000000000000);
            lemma_prod_bound(self.den as int, root as int, 0x10000000000,
                0x8000000000000000, 0x80000000000000000000000000);
        }
        let cw = floor_div(self.wn * sd * 16384 * 16384, self.den * root);
        let cx = floor_div(self.xn * sd * 16384 * 16384, self.den * root);
        let cy = floor_div(self.yn * sd * 16384 * 16384, self.den * root);
        let cz = floor_div(self.zn * sd * 16384 * 16384, self.den * root);
        Quaternion { wn: cw, xn: cx, yn: cy, zn: cz, den: SCALE, nsq: self.nsq }
    }

    /// The Hamilton product `self * other`. Non-commutative; the result
    /// is never normalised, and its squared norm is recomputed fresh
    /// from the product components.
    pub fn mul(self, other: Quaternion) -> (r: Quaternion)
        requires
            self.wf(),
            other.wf(),
            qm_max_abs(self@.q) * qm_max_abs(other@.q) <= MUL_NUM_FIT as int,
            self@.q.d * other@.q.d < MUL_DEN_FIT as int,
        ensures
            r@.q == qm_mul(self@.q, other@.q),
            r@.nsq == qm_nsq(qm_mul(self@.q, other@.q)),
            r.wf(),
    {
        proof {
            let a = self@.q;
            let b = other@.q;
            let ma = qm_max_abs(a);
            let mb = qm_max_abs(b);
            let f = MUL_NUM_FIT as int;
            lemma_prod_bound(a.w, b.w, ma, mb, f);
            lemma_prod_bound(a.w, b.x, ma, mb, f);
            lemma_prod_bound(a.w, b.y, ma, mb, f);
            lemma_prod_bound(a.w, b.z, ma, mb, f);
            lemma_prod_bound(a.x, b.w, ma, mb, f);
            lemma_prod_bound(a.x, b.x, ma, mb, f);
            lemma_prod_bound(a.x, b.y, ma, mb, f);
            lemma_prod_bound(a.x, b.z, ma, mb, f);
            lemma_prod_bound(a.y, b.w, ma, mb, f);
            lemma_prod_bound(a.y, b.x, ma, mb, f);
            lemma_prod_bound(a.y, b.y, ma, mb, f);
            lemma_prod_bound(a.y, b.z, ma, mb, f);
            lemma_prod_bound(a.z, b.w, ma, mb, f);
            lemma_prod_bound(a.z, b.x, ma, mb, f);
            lemma_prod_bound(a.z, b.y, ma, mb, f);
            lemma_prod_bound(a.z, b.z, ma, mb, f);
            lemma_pos_prod(a.d, b.d);
        }
        let wn = self.wn * other.wn - self.xn * other.xn - self.yn * other.yn
            - self.zn * other.zn;
        let xn = self.wn * other.xn + self.xn * other.wn + self.yn * other.zn
            - self.zn * other.yn;
        let yn = self.wn * other.yn - self.xn * other.zn + self.yn * other.wn
            + self.zn * other.xn;
        let zn = self.wn * other.zn + self.xn * other.yn - self.yn * other.xn
            + self.zn * other.wn;
        let dd = self.den * other.den;
        proof {
            lemma_prod_bound(wn as int, wn as int, 0x2000000000000000,
                0x2000000000000000, 0x4000000000000000000000000000000);
            lemma_prod_bound(xn as int, xn as int, 0x2000000000000000,
                0x2000000000000000, 0x4000000000000000000000000000000);
            lemma_prod_bound(yn as int, yn as int, 0x2000000000000000,
                0x2000000000000000, 0x4000000000000000000000000000000);
            lemma_prod_bound(zn as int, zn as int, 0x2000000000000000,
                0x2000000000000000, 0x4000000000000000000000000000000);
            lemma_sq_nonneg(wn as int);
            lemma_sq_nonneg(xn as int);
            lemma_sq_nonneg(yn as int);
            lemma_sq_nonneg(zn as int);
            lemma_pos_prod(dd as int, dd as int);
            lemma_prod_bound(dd as int, dd as int, MUL_DEN_FIT as int, MUL_DEN_FIT as int,
                FIT_126 as int);
        }
        let s = wn * wn + xn * xn + yn * yn + zn * zn;
        Quaternion { wn, xn, yn, zn, den: dd, nsq: Scalar::new(s, dd * dd) }
    }
}

/// Component magnitudes of a Hamilton product are bounded by four times
/// the product of the factors' component bounds, and its denominator is
/// the product of theirs.
pub proof fn lemma_qm_mul_bounds(a: QM, b: QM, na: int, nb: int)
    requires
        qm_max_abs(a) <= na,
        qm_max_abs(b) <= nb,
        0 <= na,
        0 <= nb,
    ensures
        qm_max_abs(qm_mul(a, b)) <= 4 * (na * nb),
        qm_mul(a, b).d == a.d * b.d,
{
    let f = na * nb;
    lemma_prod_bound(a.w, b.w, na, nb, f);
    lemma_prod_bound(a.w, b.x, na, nb, f);
    lemma_prod_bound(a.w, b.y, na, nb, f);
    lemma_prod_bound(a.w, b.z, na, nb, f);
    lemma_prod_bound(a.x, b.w, na, nb, f);
    lemma_prod_bound(a.x, b.x, na, nb, f);
    lemma_prod_bound(a.x, b.y, na, nb, f);
    lemma_prod_bound(a.x, b.z, na, nb, f);
    lemma_prod_bound(a.y, b.w, na, nb, f);
    lemma_prod_bound(a.y, b.x, na, nb, f);
    lemma_prod_bound(a.y, b.y, na, nb, f);
    lemma_prod_bound(a.y, b.z, na, nb, f);
    lemma_prod_bound(a.z, b.w, na, nb, f);
    lemma_prod_bound(a.z, b.x, na, nb, f);
    lemma_prod_bound(a.z, b.y, na, nb, f);
    lemma_prod_bound(a.z, b.z, na, nb, f);
}

} // verus!
