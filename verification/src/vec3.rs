//! Three-component vectors over exact rational scalars, with a cached
//! magnitude, and rotation by a quaternion through the sandwich
//! product.

use vstd::prelude::*;
use crate::rational::{Rat, Scalar, rat_int, div_pos};
use crate::sqrt::{sqrt_floor, isqrt};
use crate::quaternion::{
    Quaternion, QM, qm_sandwich, qm_max_abs, max2, scale_to, build_den, build_raw,
    build_req, lemma_prod_bound, lemma_pos_prod, lemma_sq_nonneg, lemma_qm_mul_bounds,
    SCALE, DEN_LIMIT, NUM_LIMIT,
};

verus! {

/// Cap on component magnitudes accepted by `rotate`.
pub const ROT_NUM: i128 = 0x80000;

/// Mathematical model of a vector: numerators `x, y, z` over the shared
/// positive denominator `d`.
pub ghost struct VM {
    pub x: int,
    pub y: int,
    pub z: int,
    pub d: int,
}

/// Model of a stored vector: its components and its stored magnitude
/// (which `rotate` carries even though the components change).
pub ghost struct VView {
    pub v: VM,
    pub mag: Rat,
}

/// A vector lifted to the pure quaternion `(0, x, y, z)`.
pub open spec fn vm_lift(v: VM) -> QM {
    QM { w: 0, x: v.x, y: v.y, z: v.z, d: v.d }
}

/// The shared denominator of a vector build.
pub open spec fn build_den3(x: Rat, y: Rat, z: Rat) -> int {
    max2(max2(x.d, y.d), z.d)
}

/// The components a vector build assembles.
pub open spec fn build_raw3(x: Rat, y: Rat, z: Rat) -> VM {
    let dd = build_den3(x, y, z);
    VM { x: scale_to(x, dd), y: scale_to(y, dd), z: scale_to(z, dd), d: dd }
}

/// Numerator of the squared magnitude over denominator `d * d`.
pub open spec fn vm_magsq_num(v: VM) -> int {
    v.x * v.x + v.y * v.y + v.z * v.z
}

/// What a vector build demands of its inputs.
pub open spec fn build_req3(x: Rat, y: Rat, z: Rat) -> bool {
    x.d > 0 && y.d > 0 && z.d > 0
    && {
        let dd = build_den3(x, y, z);
        dd <= DEN_LIMIT as int
        && dd % x.d == 0 && dd % y.d == 0 && dd % z.d == 0
        && -(NUM_LIMIT as int) <= scale_to(x, dd) <= NUM_LIMIT as int
        && -(NUM_LIMIT as int) <= scale_to(y, dd) <= NUM_LIMIT as int
        && -(NUM_LIMIT as int) <= scale_to(z, dd) <= NUM_LIMIT as int
    }
}

/// The exact outcome of a vector build: the scaled components, and the
/// magnitude materialised as the floor of the true square root at scale
/// `SCALE`.
pub open spec fn build_view3(x: Rat, y: Rat, z: Rat) -> VView {
    let v = build_raw3(x, y, z);
    VView {
        v,
        mag: Rat {
            n: sqrt_floor(vm_magsq_num(v) * 16384 * 16384),
            d: v.d * 16384,
        },
    }
}

/// An immutable vector: components over one shared positive
/// denominator, plus the magnitude computed once at build time.
pub struct Vec3 {
    xn: i128,
    yn: i128,
    zn: i128,
    den: i128,
    mag: Scalar,
}

/// Fluent builder for `Vec3`; every component defaults to zero.
pub struct Vec3Builder {
    pub x: Scalar,
    pub y: Scalar,
    pub z: Scalar,
}

impl View for Vec3 {
    type V = VView;

    closed spec fn view(&self) -> VView {
        VView {
            v: VM {
                x: self.xn as int,
                y: self.yn as int,
                z: self.zn as int,
                d: self.den as int,
            },
            mag: self.mag@,
        }
    }
}

impl Vec3Builder {
    /// Sets the x component.
    pub fn x(self, val: Scalar) -> (r: Vec3Builder)
        ensures
            r.x == val,
            r.y == self.y,
            r.z == self.z,
    {
        Vec3Builder { x: val, ..self }
    }

    /// Sets the y component.
    pub fn y(self, val: Scalar) -> (r: Vec3Builder)
        ensures
            r.y == val,
            r.x == self.x,
            r.z == self.z,
    {
        Vec3Builder { y: val, ..self }
    }

    /// Sets the z component.
    pub fn z(self, val: Scalar) -> (r: Vec3Builder)
        ensures
            r.z == val,
            r.x == self.x,
            r.y == self.y,
    {
        Vec3Builder { z: val, ..self }
    }

    /// Builds the vector: rescales the components onto their common
    /// denominator and computes the magnitude once.
    pub fn build(&self) -> (r: Vec3)
        requires
            build_req3(self.x@, self.y@, self.z@),
        ensures
            r@ == build_view3(self.x@, self.y@, self.z@),
            r.wf(),
    {
        let ghost gx = self.x@;
        let ghost gy = self.y@;
        let ghost gz = self.z@;
        let ghost ddi = build_den3(gx, gy, gz);
        let mut dd = self.x.den();
        if self.y.den() > dd {
            dd = self.y.den();
        }
        if self.z.den() > dd {
            dd = self.z.den();
        }
        proof {
            assert(dd as int == ddi);
        }
        let fx = div_pos(dd, self.x.den());
        let fy = div_pos(dd, self.y.den());
        let fz = div_pos(dd, self.z.den());
        proof {
            assert(gx.n * (fx as int) == scale_to(gx, ddi));
            assert(gy.n * (fy as int) == scale_to(gy, ddi));
            assert(gz.n * (fz as int) == scale_to(gz, ddi));
        }
        let sx = self.x.num() * fx;
        let sy = self.y.num() * fy;
        let sz = self.z.num() * fz;
        proof {
            lemma_prod_bound(sx as int, sx as int, 0x800000000000, 0x800000000000,
                0x400000000000000000000000);
            lemma_prod_bound(sy as int, sy as int, 0x800000000000, 0x800000000000,
                0x400000000000000000000000);
            lemma_prod_bound(sz as int, sz as int, 0x800000000000, 0x800000000000,
                0x400000000000000000000000);
            lemma_sq_nonneg(sx as int);
            lemma_sq_nonneg(sy as int);
            lemma_sq_nonneg(sz as int);
        }
        let s = sx * sx + sy * sy + sz * sz;
        let t: u128 = (s * 16384 * 16384) as u128;
        let root_u = isqrt(t);
        let root = root_u as i128;
        Vec3 { xn: sx, yn: sy, zn: sz, den: dd, mag: Scalar::new(root, dd * 16384) }
    }
}

impl Vec3 {
    /// Denominators are positive and the stored magnitude is
    /// nonnegative.
    pub open spec fn wf(&self) -> bool {
        self@.v.d > 0 && self@.mag.d > 0 && self@.mag.n >= 0
    }

    /// Starts a build with every component zero.
    pub fn init() -> (r: Vec3Builder)
        ensures
            r.x@ == rat_int(0),
            r.y@ == rat_int(0),
            r.z@ == rat_int(0),
    {
        Vec3Builder {
            x: Scalar::new(0, 1),
            y: Scalar::new(0, 1),
            z: Scalar::new(0, 1),
        }
    }

    /// The x component as a scalar value.
    pub fn x(&self) -> (r: Scalar)
        requires
            self.wf(),
        ensures
            r@ == (Rat { n: self@.v.x, d: self@.v.d }),
    {
        Scalar::new(self.xn, self.den)
    }

    /// The y component as a scalar value.
    pub fn y(&self) -> (r: Scalar)
        requires
            self.wf(),
        ensures
            r@ == (Rat { n: self@.v.y, d: self@.v.d }),
    {
        Scalar::new(self.yn, self.den)
    }

    /// The z component as a scalar value.
    pub fn z(&self) -> (r: Scalar)
        requires
            self.wf(),
        ensures
            r@ == (Rat { n: self@.v.z, d: self@.v.d }),
    {
        Scalar::new(self.zn, self.den)
    }

    /// The magnitude exactly as stored: computed at build time, or
    /// carried over unchanged by `rotate`.
    pub fn magnitude(&self) -> (r: Scalar)
        ensures
            r@ == self@.mag,
    {
        self.mag
    }

    /// Rotates the vector by `q`: lifts it to the pure quaternion
    /// `(0, x, y, z)`, forms the sandwich product
    /// `q * p * conjugate(q)`, and keeps that product's vector part.
    ///
    /// The magnitude of the result is NOT recomputed: it is carried
    /// over unchanged from `self`. That is sound only when `q` is a
    /// unit quaternion (rotation then preserves magnitude); for a
    /// non-unit `q` the stored magnitude of the result is stale. The
    /// caller is responsible for passing a normalised quaternion.
    pub fn rotate(&self, q: Quaternion) -> (r: Vec3)
        requires
            self.wf(),
            q.wf(),
            self@.v.d <= SCALE as int,
            -(ROT_NUM as int) <= self@.v.x <= ROT_NUM as int,
            -(ROT_NUM as int) <= self@.v.y <= ROT_NUM as int,
            -(ROT_NUM as int) <= self@.v.z <= ROT_NUM as int,
            q@.q.d <= SCALE as int,
            qm_max_abs(q@.q) <= ROT_NUM as int,
        ensures
            r@.v == (VM {
                x: qm_sandwich(q@.q, vm_lift(self@.v)).x,
                y: qm_sandwich(q@.q, vm_lift(self@.v)).y,
                z: qm_sandwich(q@.q, vm_lift(self@.v)).z,
                d: qm_sandwich(q@.q, vm_lift(self@.v)).d,
            }),
            r@.mag == self@.mag,
            r.wf(),
    {
        proof {
            lemma_pure_lift_req(self@.v);
        }
        let p = Quaternion::init_by_wxyz()
            .x(Scalar::new(self.xn, self.den))
            .y(Scalar::new(self.yn, self.den))
            .z(Scalar::new(self.zn, self.den))
            .normalized(false)
            .build();
        proof {
            assert(p@.q == vm_lift(self@.v));
            assert(qm_max_abs(p@.q) <= ROT_NUM as int);
            lemma_prod_bound(qm_max_abs(q@.q), qm_max_abs(p@.q), 0x80000, 0x80000,
                0x4000000000);
            lemma_prod_bound(q@.q.d, p@.q.d, 16384, 16384, 0x10000000);
            lemma_pos_prod(q@.q.d, p@.q.d);
            lemma_qm_mul_bounds(q@.q, p@.q, 0x80000, 0x80000);
        }
        let m1 = q.mul(p);
        let cq = q.conjugate();
        proof {
            assert(qm_max_abs(cq@.q) == qm_max_abs(q@.q));
            assert(qm_max_abs(m1@.q) <= 0x10000000000);
            lemma_prod_bound(qm_max_abs(m1@.q), qm_max_abs(cq@.q), 0x10000000000,
                0x80000, 0x800000000000000);
            lemma_prod_bound(m1@.q.d, cq@.q.d, 0x10000000, 16384, 0x40000000000);
            lemma_pos_prod(m1@.q.d, cq@.q.d);
        }
        let m2 = m1.mul(cq);
        Vec3 {
            xn: m2.comp_x(),
            yn: m2.comp_y(),
            zn: m2.comp_z(),
            den: m2.comp_den(),
            mag: self.mag,
        }
    }
}

/// Three scalars that already share one positive denominator satisfy
/// the vector builder's demands and come back unchanged.
pub proof fn lemma_uniform_req3(x: int, y: int, z: int, d: int)
    requires
        d > 0,
        d <= DEN_LIMIT as int,
        -(NUM_LIMIT as int) <= x <= NUM_LIMIT as int,
        -(NUM_LIMIT as int) <= y <= NUM_LIMIT as int,
        -(NUM_LIMIT as int) <= z <= NUM_LIMIT as int,
    ensures
        build_req3(Rat { n: x, d }, Rat { n: y, d }, Rat { n: z, d }),
        build_raw3(Rat { n: x, d }, Rat { n: y, d }, Rat { n: z, d })
            == (VM { x, y, z, d }),
{
    vstd::arithmetic::div_mod::lemma_mod_self_0(d);
    vstd::arithmetic::div_mod::lemma_div_by_self(d);
    assert(scale_to(Rat { n: x, d }, d) == x);
    assert(scale_to(Rat { n: y, d }, d) == y);
    assert(scale_to(Rat { n: z, d }, d) == z);
}

/// A vector's components, with a default zero scalar part, satisfy the
/// quaternion builder's demands and build exactly the lifted pure
/// quaternion.
pub proof fn lemma_pure_lift_req(v: VM)
    requires
        v.d > 0,
        v.d <= SCALE as int,
        -(ROT_NUM as int) <= v.x <= ROT_NUM as int,
        -(ROT_NUM as int) <= v.y <= ROT_NUM as int,
        -(ROT_NUM as int) <= v.z <= ROT_NUM as int,
    ensures
        build_req(
            rat_int(0),
            Rat { n: v.x, d: v.d },
            Rat { n: v.y, d: v.d },
            Rat { n: v.z, d: v.d },
            false,
        ),
        build_raw(
            rat_int(0),
            Rat { n: v.x, d: v.d },
            Rat { n: v.y, d: v.d },
            Rat { n: v.z, d: v.d },
        ) == vm_lift(v),
{
    vstd::arithmetic::div_mod::lemma_mod_self_0(v.d);
    vstd::arithmetic::div_mod::lemma_div_by_self(v.d);
    vstd::arithmetic::div_mod::lemma_mod_multiples_basic(v.d, 1);
    let w0 = rat_int(0);
    let xr = Rat { n: v.x, d: v.d };
    let yr = Rat { n: v.y, d: v.d };
    let zr = Rat { n: v.z, d: v.d };
    assert(build_den(w0, xr, yr, zr) == v.d);
    assert(v.d % 1int == 0);
    assert(scale_to(w0, v.d) == 0);
    assert(scale_to(xr, v.d) == v.x);
    assert(scale_to(yr, v.d) == v.y);
    assert(scale_to(zr, v.d) == v.z);
}

} // verus!
