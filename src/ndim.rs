//! N-dimensional arrays: a shape and the elements in logical (row-major)
//! order. Two arrays are nearly equal when their shapes are equal and their
//! elements are nearly equal position by position.

use vstd::prelude::*;

use crate::seq::{elems_nearly_eq, seq_nearly_eq};
use crate::NearlyEq;

verus! {

/// The number of elements of an array of the given shape: the product of its
/// extents (one for rank zero).
pub open spec fn shape_size(shape: Seq<usize>) -> nat
    decreases shape.len(),
{
    if shape.len() == 0 {
        1
    } else {
        shape_size(shape.drop_last()) * (shape.last() as nat)
    }
}

proof fn lemma_size_zero(shape: Seq<usize>, k: int)
    requires
        0 <= k < shape.len(),
        shape[k] == 0,
    ensures
        shape_size(shape) == 0,
    decreases shape.len(),
{
    if k < shape.len() - 1 {
        assert(shape.drop_last()[k] == 0);
        lemma_size_zero(shape.drop_last(), k);
        assert(shape_size(shape) == 0 * (shape.last() as nat));
    } else {
        assert(shape_size(shape) == shape_size(shape.drop_last()) * 0);
    }
}

proof fn lemma_size_grows(shape: Seq<usize>, i: int)
    requires
        0 <= i <= shape.len(),
        forall|k: int| 0 <= k < shape.len() ==> shape[k] > 0,
    ensures
        shape_size(shape.take(i)) <= shape_size(shape),
    decreases shape.len() - i,
{
    if i < shape.len() {
        let next = shape.take(i + 1);
        assert(next.drop_last() =~= shape.take(i));
        assert(shape_size(shape.take(i)) * (next.last() as nat) >= shape_size(shape.take(i)))
            by (nonlinear_arith)
            requires
                next.last() > 0,
        ;
        lemma_size_grows(shape, i + 1);
    } else {
        assert(shape.take(i) =~= shape);
    }
}

/// An array of any rank: its shape, and its elements in logical order.
#[derive(Debug)]
pub struct NdArray<T> {
    shape: Vec<usize>,
    elems: Vec<T>,
}

impl<T> View for NdArray<T> {
    type V = (Seq<usize>, Seq<T>);

    /// The shape and the elements in logical order.
    closed spec fn view(&self) -> (Seq<usize>, Seq<T>) {
        (self.shape@, self.elems@)
    }
}

impl<T> NdArray<T> {
    #[verifier::type_invariant]
    spec fn sized(self) -> bool {
        self.elems@.len() == shape_size(self.shape@)
    }

    /// The array of the given shape holding `elems` in logical order, or
    /// `None` when their number is not the product of the extents.
    pub fn new(shape: Vec<usize>, elems: Vec<T>) -> (r: Option<NdArray<T>>)
        ensures
            r is Some <==> elems@.len() == shape_size(shape@),
            r matches Some(a) ==> a@ == (shape@, elems@),
    {
        let mut i: usize = 0;
        while i < shape.len()
            invariant
                i <= shape@.len(),
                forall|k: int| 0 <= k < i ==> shape@[k] > 0,
            decreases shape@.len() - i,
        {
            if shape[i] == 0 {
                proof {
                    lemma_size_zero(shape@, i as int);
                }
                if elems.len() == 0 {
                    return Some(NdArray { shape, elems });
                } else {
                    return None;
                }
            }
            i += 1;
        }
        let count: usize = elems.len();
        let mut size: usize = 1;
        let mut j: usize = 0;
        while j < shape.len()
            invariant
                j <= shape@.len(),
                forall|k: int| 0 <= k < shape@.len() ==> shape@[k] > 0,
                size == shape_size(shape@.take(j as int)),
                count == elems@.len(),
            decreases shape@.len() - j,
        {
            proof {
                assert(shape@.take(j + 1).drop_last() =~= shape@.take(j as int));
            }
            match size.checked_mul(shape[j]) {
                Some(s) => size = s,
                None => {
                    proof {
                        assert(shape_size(shape@.take(j + 1)) == size * shape@[j as int]);
                        lemma_size_grows(shape@, j + 1);
                    }
                    return None;
                },
            }
            j += 1;
        }
        proof {
            assert(shape@.take(j as int) =~= shape@);
        }
        if size == count {
            Some(NdArray { shape, elems })
        } else {
            None
        }
    }

    /// A one-dimensional array of the given elements.
    pub fn from_vec(elems: Vec<T>) -> (r: NdArray<T>)
        ensures
            r@ == (seq![elems@.len() as usize], elems@),
    {
        let shape: Vec<usize> = vec![elems.len()];
        proof {
            assert(shape@.drop_last() =~= Seq::<usize>::empty());
            assert(shape_size(shape@.drop_last()) == 1);
            assert(shape@.len() == 1 && shape@.last() == elems@.len());
            assert(shape_size(shape@) == shape_size(shape@.drop_last()) * (shape@.last() as nat));
        }
        NdArray { shape, elems }
    }

    /// The number of axes.
    pub fn ndim(&self) -> (r: usize)
        ensures
            r == self@.0.len(),
    {
        self.shape.len()
    }

    /// The extent of each axis.
    pub fn shape(&self) -> (r: &[usize])
        ensures
            r@ == self@.0,
    {
        self.shape.as_slice()
    }

    /// The elements in logical order.
    pub fn elems(&self) -> (r: &[T])
        ensures
            r@ == self@.1,
            r@.len() == shape_size(self@.0),
    {
        proof {
            use_type_invariant(self);
        }
        self.elems.as_slice()
    }
}

impl<A, B, C: NearlyEq<A, B>> NearlyEq<NdArray<A>, B> for NdArray<C> {
    open spec fn spec_eps() -> B {
        C::spec_eps()
    }

    open spec fn spec_nearly_eq(&self, other: &NdArray<A>, eps: &B) -> bool {
        self@.0 == other@.0 && seq_nearly_eq(self@.1, other@.1, *eps)
    }

    fn eps() -> (r: B) {
        C::eps()
    }

    fn eq(&self, other: &NdArray<A>, eps: &B) -> (r: bool) {
        if self.shape.len() != other.shape.len() {
            return false;
        }
        let mut i: usize = 0;
        while i < self.shape.len()
            invariant
                self.shape@.len() == other.shape@.len(),
                i <= self.shape@.len(),
                forall|k: int| 0 <= k < i ==> self.shape@[k] == other.shape@[k],
            decreases self.shape@.len() - i,
        {
            if self.shape[i] != other.shape[i] {
                return false;
            }
            i += 1;
        }
        proof {
            assert(self.shape@ =~= other.shape@);
        }
        elems_nearly_eq(self.elems.as_slice(), other.elems.as_slice(), eps)
    }
}

/// Arrays of different shapes (a different rank, or a different extent along
/// some axis) are never nearly equal, whatever their elements.
pub proof fn lemma_shape_mismatch<A, B, C: NearlyEq<A, B>>(a: NdArray<C>, b: NdArray<A>, eps: B)
    requires
        a@.0 != b@.0,
    ensures
        !a.spec_nearly_eq(&b, &eps),
{
}

/// A single pair of elements that are not nearly equal makes two arrays not
/// nearly equal.
pub proof fn lemma_array_elem_mismatch<A, B, C: NearlyEq<A, B>>(
    a: NdArray<C>,
    b: NdArray<A>,
    eps: B,
    i: int,
)
    requires
        0 <= i < a@.1.len(),
        i < b@.1.len(),
        !a@.1[i].spec_nearly_eq(&b@.1[i], &eps),
    ensures
        !a.spec_nearly_eq(&b, &eps),
{
}

/// Arrays of the same shape whose elements are pairwise nearly equal are
/// nearly equal.
pub proof fn lemma_array_all_match<A, B, C: NearlyEq<A, B>>(a: NdArray<C>, b: NdArray<A>, eps: B)
    requires
        a@.0 == b@.0,
        a@.1.len() == b@.1.len(),
        forall|i: int| 0 <= i < a@.1.len() ==> #[trigger] a@.1[i].spec_nearly_eq(&b@.1[i], &eps),
    ensures
        a.spec_nearly_eq(&b, &eps),
{
}

} // verus!
