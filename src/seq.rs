//! Sequences (vectors, slices and arrays), optional values and owning
//! pointers: structure first, then element by element under one tolerance.

use std::rc::Rc;
use std::sync::Arc;

use vstd::prelude::*;

use crate::NearlyEq;

verus! {

/// Two sequences of equal length whose elements at each position are nearly
/// equal within `eps`.
pub open spec fn seq_nearly_eq<A, B, C: NearlyEq<A, B>>(s: Seq<C>, t: Seq<A>, eps: B) -> bool {
    &&& s.len() == t.len()
    &&& forall|i: int| 0 <= i < s.len() ==> #[trigger] s[i].spec_nearly_eq(&t[i], &eps)
}

/// Compares two slices: false on differing lengths, else false at the first
/// pair of elements that are not nearly equal.
pub fn elems_nearly_eq<A, B, C: NearlyEq<A, B>>(s: &[C], t: &[A], eps: &B) -> (r: bool)
    ensures
        r == seq_nearly_eq(s@, t@, *eps),
{
    if s.len() != t.len() {
        return false;
    }
    let mut i: usize = 0;
    while i < s.len()
        invariant
            s@.len() == t@.len(),
            i <= s@.len(),
            forall|j: int| 0 <= j < i ==> #[trigger] s@[j].spec_nearly_eq(&t@[j], eps),
        decreases s@.len() - i,
    {
        if s[i].ne(&t[i], eps) {
            return false;
        }
        i += 1;
    }
    true
}

impl<A, B, C: NearlyEq<A, B>> NearlyEq<[A], B> for [C] {
    open spec fn spec_eps() -> B {
        C::spec_eps()
    }

    open spec fn spec_nearly_eq(&self, other: &[A], eps: &B) -> bool {
        seq_nearly_eq(self@, other@, *eps)
    }

    fn eps() -> (r: B) {
        C::eps()
    }

    fn eq(&self, other: &[A], eps: &B) -> (r: bool) {
        elems_nearly_eq(self, other, eps)
    }
}

impl<A, B, C: NearlyEq<A, B>> NearlyEq<Vec<A>, B> for Vec<C> {
    open spec fn spec_eps() -> B {
        C::spec_eps()
    }

    open spec fn spec_nearly_eq(&self, other: &Vec<A>, eps: &B) -> bool {
        seq_nearly_eq(self@, other@, *eps)
    }

    fn eps() -> (r: B) {
        C::eps()
    }

    fn eq(&self, other: &Vec<A>, eps: &B) -> (r: bool) {
        elems_nearly_eq(self.as_slice(), other.as_slice(), eps)
    }
}

impl<A, B, C: NearlyEq<A, B>, const N: usize> NearlyEq<[A; N], B> for [C; N] {
    open spec fn spec_eps() -> B {
        C::spec_eps()
    }

    open spec fn spec_nearly_eq(&self, other: &[A; N], eps: &B) -> bool {
        seq_nearly_eq(self@, other@, *eps)
    }

    fn eps() -> (r: B) {
        C::eps()
    }

    fn eq(&self, other: &[A; N], eps: &B) -> (r: bool) {
        elems_nearly_eq(vstd::array::array_as_slice(self), vstd::array::array_as_slice(other), eps)
    }
}

impl<A, B, C: NearlyEq<A, B>> NearlyEq<Option<A>, B> for Option<C> {
    open spec fn spec_eps() -> B {
        C::spec_eps()
    }

    open spec fn spec_nearly_eq(&self, other: &Option<A>, eps: &B) -> bool {
        match (self, other) {
            (None, None) => true,
            (Some(x), Some(y)) => x.spec_nearly_eq(y, eps),
            _ => false,
        }
    }

    fn eps() -> (r: B) {
        C::eps()
    }

    fn eq(&self, other: &Option<A>, eps: &B) -> (r: bool) {
        match (self, other) {
            (None, None) => true,
            (Some(x), Some(y)) => x.eq(y, eps),
            _ => false,
        }
    }
}

impl<A, B, C: NearlyEq<A, B>> NearlyEq<Box<A>, B> for Box<C> {
    open spec fn spec_eps() -> B {
        C::spec_eps()
    }

    open spec fn spec_nearly_eq(&self, other: &Box<A>, eps: &B) -> bool {
        (**self).spec_nearly_eq(&**other, eps)
    }

    fn eps() -> (r: B) {
        C::eps()
    }

    fn eq(&self, other: &Box<A>, eps: &B) -> (r: bool) {
        (**self).eq(&**other, eps)
    }
}

impl<A, B, C: NearlyEq<A, B>> NearlyEq<Rc<A>, B> for Rc<C> {
    open spec fn spec_eps() -> B {
        C::spec_eps()
    }

    open spec fn spec_nearly_eq(&self, other: &Rc<A>, eps: &B) -> bool {
        (**self).spec_nearly_eq(&**other, eps)
    }

    fn eps() -> (r: B) {
        C::eps()
    }

    fn eq(&self, other: &Rc<A>, eps: &B) -> (r: bool) {
        (**self).eq(&**other, eps)
    }
}

impl<A, B, C: NearlyEq<A, B>> NearlyEq<Arc<A>, B> for Arc<C> {
    open spec fn spec_eps() -> B {
        C::spec_eps()
    }

    open spec fn spec_nearly_eq(&self, other: &Arc<A>, eps: &B) -> bool {
        (**self).spec_nearly_eq(&**other, eps)
    }

    fn eps() -> (r: B) {
        C::eps()
    }

    fn eq(&self, other: &Arc<A>, eps: &B) -> (r: bool) {
        (**self).eq(&**other, eps)
    }
}

impl<'a, A: ?Sized, B, C: NearlyEq<A, B> + ?Sized> NearlyEq<A, B> for &'a C {
    open spec fn spec_eps() -> B {
        C::spec_eps()
    }

    open spec fn spec_nearly_eq(&self, other: &A, eps: &B) -> bool {
        (**self).spec_nearly_eq(other, eps)
    }

    fn eps() -> (r: B) {
        C::eps()
    }

    fn eq(&self, other: &A, eps: &B) -> (r: bool) {
        (**self).eq(other, eps)
    }
}

impl<'a, A: ?Sized, B, C: NearlyEq<A, B> + ?Sized> NearlyEq<A, B> for &'a mut C {
    open spec fn spec_eps() -> B {
        C::spec_eps()
    }

    open spec fn spec_nearly_eq(&self, other: &A, eps: &B) -> bool {
        (**self).spec_nearly_eq(other, eps)
    }

    fn eps() -> (r: B) {
        C::eps()
    }

    fn eq(&self, other: &A, eps: &B) -> (r: bool) {
        (**self).eq(other, eps)
    }
}

/// Vectors, slices and arrays of different lengths are never nearly equal,
/// whatever their elements and the tolerance.
pub proof fn lemma_seq_len_mismatch<A, B, C: NearlyEq<A, B>>(s: Seq<C>, t: Seq<A>, eps: B)
    requires
        s.len() != t.len(),
    ensures
        !seq_nearly_eq(s, t, eps),
{
}

/// A single pair of elements that are not nearly equal, at any position,
/// makes two sequences not nearly equal.
pub proof fn lemma_seq_elem_mismatch<A, B, C: NearlyEq<A, B>>(
    s: Seq<C>,
    t: Seq<A>,
    eps: B,
    i: int,
)
    requires
        0 <= i < s.len(),
        i < t.len(),
        !s[i].spec_nearly_eq(&t[i], &eps),
    ensures
        !seq_nearly_eq(s, t, eps),
{
}

/// Sequences of equal length whose elements are pairwise nearly equal are
/// nearly equal; in particular a sequence is nearly equal to itself when each
/// of its elements is. Two empty sequences are nearly equal.
pub proof fn lemma_seq_all_match<A, B, C: NearlyEq<A, B>>(s: Seq<C>, t: Seq<A>, eps: B)
    requires
        s.len() == t.len(),
        forall|i: int| 0 <= i < s.len() ==> #[trigger] s[i].spec_nearly_eq(&t[i], &eps),
    ensures
        seq_nearly_eq(s, t, eps),
{
}

/// Optional values: two absent values are nearly equal, an absent and a
/// present one are not, and two present ones are compared by their contents.
pub proof fn lemma_option_cases<A, B, C: NearlyEq<A, B>>(a: Option<C>, b: Option<A>, eps: B)
    ensures
        (a is None && b is None) ==> a.spec_nearly_eq(&b, &eps),
        (a is None) != (b is None) ==> !a.spec_nearly_eq(&b, &eps),
        (a is Some && b is Some) ==> a.spec_nearly_eq(&b, &eps) == a->0.spec_nearly_eq(
            &b->0,
            &eps,
        ),
{
}

} // verus!
