//! Exact rational scalars. Every scalar of the library is a fraction
//! `num / den` of machine integers with a positive denominator; the
//! mathematical model is the pair of unbounded integers `Rat`.

use vstd::prelude::*;

verus! {

/// Mathematical model of a scalar: the rational number `n / d`.
pub ghost struct Rat {
    pub n: int,
    pub d: int,
}

/// Two rational pairs denote the same number (cross multiplication).
pub open spec fn rat_eq(a: Rat, b: Rat) -> bool {
    a.n * b.d == b.n * a.d
}

/// The rational for a whole number.
pub open spec fn rat_int(k: int) -> Rat {
    Rat { n: k, d: 1 }
}

/// The product of two rationals as computed by `Scalar::times`: a factor
/// with a zero numerator short-circuits to the canonical zero, so that
/// untouched builder fields do not inflate denominators.
pub open spec fn srat_mul(a: Rat, b: Rat) -> Rat {
    if a.n == 0 || b.n == 0 {
        Rat { n: 0, d: 1 }
    } else {
        Rat { n: a.n * b.n, d: a.d * b.d }
    }
}

/// Both numerator products and denominator products of `srat_mul` stay
/// within the machine range.
pub open spec fn srat_mul_fits(a: Rat, b: Rat) -> bool {
    -0x40000000000000000000000000000000 <= a.n * b.n <= 0x40000000000000000000000000000000
    && 0 < a.d * b.d <= 0x40000000000000000000000000000000
}

/// An exact rational scalar. Immutable once built; the denominator is
/// always positive.
#[derive(Clone, Copy)]
pub struct Scalar {
    num: i128,
    den: i128,
}

impl View for Scalar {
    type V = Rat;

    closed spec fn view(&self) -> Rat {
        Rat { n: self.num as int, d: self.den as int }
    }
}

impl Scalar {
    /// The denominator is positive.
    pub open spec fn wf(&self) -> bool {
        self@.d > 0
    }

    /// Builds the scalar `num / den`.
    pub fn new(num: i128, den: i128) -> (r: Scalar)
        requires
            den > 0,
        ensures
            r@ == (Rat { n: num as int, d: den as int }),
            r.wf(),
    {
        Scalar { num, den }
    }

    /// The stored numerator.
    pub fn num(&self) -> (r: i128)
        ensures
            r as int == self@.n,
    {
        self.num
    }

    /// The stored denominator.
    pub fn den(&self) -> (r: i128)
        ensures
            r as int == self@.d,
    {
        self.den
    }

    /// Exact product of two scalars; a zero factor yields the canonical
    /// zero `0 / 1`.
    pub fn times(&self, other: &Scalar) -> (r: Scalar)
        requires
            self.wf(),
            other.wf(),
            srat_mul_fits(self@, other@),
        ensures
            r@ == srat_mul(self@, other@),
            r.wf(),
    {
        if self.num == 0 || other.num == 0 {
            Scalar { num: 0, den: 1 }
        } else {
            proof {
                assert(self.den as int * other.den as int > 0) by (nonlinear_arith)
                    requires
                        self.den as int > 0,
                        other.den as int > 0,
                ;
            }
            Scalar { num: self.num * other.num, den: self.den * other.den }
        }
    }
}

/// Division of a nonnegative `a` by a positive `b`.
pub fn div_pos(a: i128, b: i128) -> (r: i128)
    requires
        a >= 0,
        b > 0,
    ensures
        r as int == a as int / b as int,
        0 <= r <= a,
{
    proof {
        vstd::arithmetic::div_mod::lemma_div_nonincreasing(a as int, b as int);
        vstd::arithmetic::div_mod::lemma_div_pos_is_pos(a as int, b as int);
    }
    ((a as u128) / (b as u128)) as i128
}

/// Floor division of `a` by the positive `b`: the unique `q` with
/// `b * q <= a < b * (q + 1)`. This is the rounding used wherever a
/// quotient must be forced back onto a fixed denominator.
pub fn floor_div(a: i128, b: i128) -> (r: i128)
    requires
        b > 0,
        -0x40000000000000000000000000000000 <= a <= 0x40000000000000000000000000000000,
    ensures
        r as int == a as int / b as int,
{
    if a >= 0 {
        let q: u128 = (a as u128) / (b as u128);
        q as i128
    } else {
        let m: u128 = (-a) as u128;
        let q: u128 = (m - 1) / (b as u128);
        proof {
            let ai = a as int;
            let bi = b as int;
            let qi = q as int;
            assert((m - 1) as int == -ai - 1);
            assert(qi == (-ai - 1) / bi);
            vstd::arithmetic::div_mod::lemma_fundamental_div_mod(-ai - 1, bi);
            let ri = (-ai - 1) % bi;
            assert(-ai - 1 == bi * qi + ri);
            vstd::arithmetic::div_mod::lemma_mod_division_less_than_divisor(-ai - 1, bi);
            assert(0 <= ri < bi);
            assert(ai == bi * (-qi - 1) + (bi - 1 - ri)) by (nonlinear_arith)
                requires
                    -ai - 1 == bi * qi + ri,
            ;
            vstd::arithmetic::div_mod::lemma_fundamental_div_mod_converse(
                ai, bi, -qi - 1, bi - 1 - ri);
            assert(ai / bi == -qi - 1);
        }
        -(q as i128) - 1
    }
}

} // verus!
