//! Approximate equality: two values compare equal when they are exactly equal,
//! or when the magnitude of their difference is below a tolerance.

use vstd::prelude::*;

pub mod complex;
pub mod fixed;
pub mod ndim;
pub mod rational;
pub mod scalar;
pub mod seq;

pub use ndim::NdArray;
pub use rational::Rational;

verus! {

/// Comparison of a value against a value of type `Rhs` within a tolerance of
/// type `Diff`.
pub trait NearlyEq<Rhs: ?Sized = Self, Diff = Self> {
    /// The tolerance used when the caller supplies none. Left unknown for
    /// impls written outside this library.
    closed spec fn spec_eps() -> Diff {
        arbitrary()
    }

    /// Whether `self` and `other` are nearly equal within `eps`. Left unknown
    /// for impls written outside this library.
    closed spec fn spec_nearly_eq(&self, other: &Rhs, eps: &Diff) -> bool {
        arbitrary()
    }

    /// Returns the default tolerance of this kind of value.
    fn eps() -> (r: Diff)
        ensures
            r == Self::spec_eps(),
    ;

    /// Tests whether `self` and `other` are nearly equal within `eps`.
    fn eq(&self, other: &Rhs, eps: &Diff) -> (r: bool)
        ensures
            r == self.spec_nearly_eq(other, eps),
    ;

    /// Tests whether `self` and `other` are not nearly equal within `eps`.
    fn ne(&self, other: &Rhs, eps: &Diff) -> (r: bool)
        ensures
            r == !self.spec_nearly_eq(other, eps),
    {
        !self.eq(other, eps)
    }
}

/// Tests `a` against `b` within the default tolerance of `a`'s kind.
pub fn nearly_eq<A: ?Sized, B, C: NearlyEq<A, B> + ?Sized>(a: &C, b: &A) -> (r: bool)
    ensures
        r == a.spec_nearly_eq(b, &C::spec_eps()),
{
    a.eq(b, &C::eps())
}

/// Tests `a` against `b` within the tolerance `eps`.
pub fn nearly_eq_eps<A: ?Sized, B, C: NearlyEq<A, B> + ?Sized>(a: &C, b: &A, eps: &B) -> (r: bool)
    ensures
        r == a.spec_nearly_eq(b, eps),
{
    a.eq(b, eps)
}

/// Comparisons hold no state: two calls on the same arguments give the same
/// answer.
pub proof fn lemma_deterministic<A: ?Sized, B, C: NearlyEq<A, B> + ?Sized>(
    a: &C,
    b: &A,
    eps: &B,
    r1: bool,
    r2: bool,
)
    requires
        r1 == a.spec_nearly_eq(b, eps),
        r2 == a.spec_nearly_eq(b, eps),
    ensures
        r1 == r2,
{
}

} // verus!
