//! Rational numbers: exact by default; with a tolerance, the exact distance
//! between the two values must stay strictly below it. Reduction, ordering and
//! subtraction are those of `num_rational::Ratio`.

use std::cmp::Ordering;

use num_rational::Ratio;
use vstd::prelude::*;

use crate::NearlyEq;

verus! {

/// `|a - b| < e` for the fractions `a = (an, ad)`, `b = (bn, bd)` and
/// `e = (en, ed)` with positive denominators, written without division.
pub open spec fn frac_nearly_eq(a: (int, int), b: (int, int), e: (int, int)) -> bool {
    let num = a.0 * b.1 - b.0 * a.1;
    num == 0 || (if num >= 0 { num } else { -num }) * e.1 < e.0 * (a.1 * b.1)
}

/// The order of the fractions `an / ad` and `bn / bd`, denominators positive.
pub open spec fn frac_cmp(an: int, ad: int, bn: int, bd: int) -> Ordering {
    if an * bd < bn * ad {
        Ordering::Less
    } else if an * bd == bn * ad {
        Ordering::Equal
    } else {
        Ordering::Greater
    }
}

/// Relies on `Ratio::new`, read back with `Ratio::into_raw`: the same value
/// with a positive denominator. It panics on a zero denominator, and negating
/// `i64::MIN` overflows when the sign is moved to the numerator.
#[verifier::external_body]
fn ratio_new(numer: i64, denom: i64) -> (r: (i64, i64))
    requires
        denom != 0,
        denom > 0 || (numer > i64::MIN && denom > i64::MIN),
    ensures
        r.1 > 0,
        r.0 * denom == numer * r.1,
{
    Ratio::new(numer, denom).into_raw()
}

/// Relies on `Ord for Ratio<i128>`: it orders by value, and with positive
/// denominators it only divides.
#[verifier::external_body]
fn ratio_cmp(an: i128, ad: i128, bn: i128, bd: i128) -> (r: Ordering)
    requires
        ad > 0,
        bd > 0,
    ensures
        r == frac_cmp(an as int, ad as int, bn as int, bd as int),
{
    Ratio::new_raw(an, ad).cmp(&Ratio::new_raw(bn, bd))
}

/// Relies on `Sub for Ratio<i128>`: the difference over the least common
/// multiple of the denominators, reduced. With `i64` numerators and positive
/// `i64` denominators no intermediate product leaves `i128`.
#[verifier::external_body]
fn ratio_sub(an: i128, ad: i128, bn: i128, bd: i128) -> (r: (i128, i128))
    requires
        i64::MIN <= an <= i64::MAX,
        i64::MIN <= bn <= i64::MAX,
        0 < ad <= i64::MAX,
        0 < bd <= i64::MAX,
    ensures
        r.1 > 0,
        r.0 * (ad * bd) == (an * bd - bn * ad) * r.1,
{
    (Ratio::new_raw(an, ad) - Ratio::new_raw(bn, bd)).into_raw()
}

/// A fraction of two `i64`, kept with a positive denominator.
#[derive(Clone, Copy, Debug)]
pub struct Rational {
    numer: i64,
    denom: i64,
}

impl View for Rational {
    type V = (int, int);

    /// Numerator and (positive) denominator.
    closed spec fn view(&self) -> (int, int) {
        (self.numer as int, self.denom as int)
    }
}

impl Rational {
    #[verifier::type_invariant]
    spec fn denom_positive(self) -> bool {
        self.denom > 0
    }

    /// The fraction `numer / denom` in lowest terms, with a positive
    /// denominator.
    pub fn new(numer: i64, denom: i64) -> (r: Rational)
        requires
            denom != 0,
            denom > 0 || (numer > i64::MIN && denom > i64::MIN),
        ensures
            r@.1 > 0,
            r@.0 * denom == numer * r@.1,
    {
        let (n, d) = ratio_new(numer, denom);
        Rational { numer: n, denom: d }
    }

    /// The integer `n`.
    pub fn from_integer(n: i64) -> (r: Rational)
        ensures
            r@ == (n as int, 1int),
    {
        Rational { numer: n, denom: 1 }
    }

    pub fn numer(&self) -> (r: i64)
        ensures
            r == self@.0,
    {
        self.numer
    }

    pub fn denom(&self) -> (r: i64)
        ensures
            r == self@.1,
            r > 0,
    {
        proof {
            use_type_invariant(self);
        }
        self.denom
    }
}

proof fn lemma_scaled_lt(dn: int, dd: int, num: int, p: int, en: int, ed: int)
    requires
        dd > 0,
        p > 0,
        dn * p == num * dd,
    ensures
        (dn * ed < en * dd) == (num * ed < en * p),
{
    assert((dn * ed) * p == (num * ed) * dd) by (nonlinear_arith)
        requires
            dn * p == num * dd,
    ;
    assert((dn * ed < en * dd) == ((dn * ed) * p < (en * dd) * p)) by (nonlinear_arith)
        requires
            p > 0,
    ;
    assert((en * dd) * p == (en * p) * dd) by (nonlinear_arith);
    assert(((num * ed) * dd < (en * p) * dd) == (num * ed < en * p)) by (nonlinear_arith)
        requires
            dd > 0,
    ;
}

/// The default tolerance of rationals is zero: only exact equality passes.
pub proof fn lemma_rational_eps_zero()
    ensures
        <Rational as NearlyEq>::spec_eps()@ == (0int, 1int),
{
}

impl NearlyEq for Rational {
    closed spec fn spec_eps() -> Rational {
        Rational { numer: 0, denom: 1 }
    }

    open spec fn spec_nearly_eq(&self, other: &Rational, eps: &Rational) -> bool {
        frac_nearly_eq(self@, other@, eps@)
    }

    fn eps() -> (r: Rational) {
        Rational { numer: 0, denom: 1 }
    }

    fn eq(&self, other: &Rational, eps: &Rational) -> (r: bool) {
        proof {
            use_type_invariant(self);
            use_type_invariant(other);
            use_type_invariant(eps);
        }
        let an = self.numer as i128;
        let ad = self.denom as i128;
        let bn = other.numer as i128;
        let bd = other.denom as i128;
        let en = eps.numer as i128;
        let ed = eps.denom as i128;
        proof {
            assert(ad * bd > 0) by (nonlinear_arith)
                requires
                    ad > 0,
                    bd > 0,
            ;
        }
        match ratio_cmp(an, ad, bn, bd) {
            Ordering::Equal => true,
            Ordering::Greater => {
                let (dn, dd) = ratio_sub(an, ad, bn, bd);
                proof {
                    lemma_scaled_lt(dn as int, dd as int, an * bd - bn * ad, ad * bd, en as int, ed as int);
                }
                matches!(ratio_cmp(dn, dd, en, ed), Ordering::Less)
            },
            Ordering::Less => {
                let (dn, dd) = ratio_sub(bn, bd, an, ad);
                proof {
                    lemma_scaled_lt(dn as int, dd as int, bn * ad - an * bd, bd * ad, en as int, ed as int);
                    assert(bd * ad == ad * bd) by (nonlinear_arith);
                }
                matches!(ratio_cmp(dn, dd, en, ed), Ordering::Less)
            },
        }
    }
}

/// Every rational is nearly equal to itself, whatever the tolerance, and the
/// comparison is symmetric.
pub proof fn lemma_rational_reflexive_symmetric(x: Rational, y: Rational, eps: Rational)
    ensures
        x.spec_nearly_eq(&x, &eps),
        x.spec_nearly_eq(&y, &eps) == y.spec_nearly_eq(&x, &eps),
{
    let (a, b, e) = (x@, y@, eps@);
    assert(a.1 * b.1 == b.1 * a.1) by (nonlinear_arith);
}

} // verus!
