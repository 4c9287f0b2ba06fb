//! Complex numbers: both parts nearly equal under the same tolerance.

use num_complex::Complex;
use vstd::prelude::*;

use crate::NearlyEq;

verus! {

/// `num_complex::Complex`, with its two public fields `re` and `im`.
#[verifier::external_type_specification]
#[verifier::reject_recursive_types(T)]
pub struct ExComplex<T>(Complex<T>);

impl<A, B, C: NearlyEq<A, B>> NearlyEq<Complex<A>, B> for Complex<C> {
    open spec fn spec_eps() -> B {
        C::spec_eps()
    }

    open spec fn spec_nearly_eq(&self, other: &Complex<A>, eps: &B) -> bool {
        self.re.spec_nearly_eq(&other.re, eps) && self.im.spec_nearly_eq(&other.im, eps)
    }

    fn eps() -> (r: B) {
        C::eps()
    }

    fn eq(&self, other: &Complex<A>, eps: &B) -> (r: bool) {
        self.re.eq(&other.re, eps) && self.im.eq(&other.im, eps)
    }
}

/// Complex numbers are nearly equal exactly when both their real parts and
/// their imaginary parts are, under the same tolerance: one part outside it is
/// enough to fail.
pub proof fn lemma_complex_parts<A, B, C: NearlyEq<A, B>>(a: Complex<C>, b: Complex<A>, eps: B)
    ensures
        (a.re.spec_nearly_eq(&b.re, &eps) && a.im.spec_nearly_eq(&b.im, &eps)) ==> a.spec_nearly_eq(
            &b,
            &eps,
        ),
        !a.re.spec_nearly_eq(&b.re, &eps) ==> !a.spec_nearly_eq(&b, &eps),
        !a.im.spec_nearly_eq(&b.im, &eps) ==> !a.spec_nearly_eq(&b, &eps),
{
}

} // verus!
