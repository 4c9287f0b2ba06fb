//! Fixed-point (Q-format) numbers: the value of `bits` with `FRAC` fractional
//! bits is `bits / 2^FRAC`. Two numbers of the same format compare through
//! their bit patterns; by default only a difference below one unit in the last
//! place, that is exact equality, passes.

use vstd::prelude::*;

use crate::scalar::int_nearly_eq;
use crate::NearlyEq;

verus! {

/// A fixed-point number stored in an `i8`, with `FRAC` fractional bits.
#[derive(Clone, Copy, Debug)]
pub struct Q8<const FRAC: u32> {
    pub bits: i8,
}

impl<const FRAC: u32> Q8<FRAC> {
    /// The number whose bit pattern is `bits`.
    pub fn from_bits(bits: i8) -> (r: Self)
        ensures
            r.bits == bits,
    {
        Q8 { bits }
    }

    /// The bit pattern of `self`.
    pub fn into_bits(&self) -> (r: i8)
        ensures
            r == self.bits,
    {
        self.bits
    }
}

impl<const FRAC: u32> NearlyEq for Q8<FRAC> {
    open spec fn spec_eps() -> Self {
        Q8 { bits: 1 }
    }

    open spec fn spec_nearly_eq(&self, other: &Self, eps: &Self) -> bool {
        int_nearly_eq(self.bits as int, other.bits as int, eps.bits as int)
    }

    fn eps() -> (r: Self) {
        Q8 { bits: 1 }
    }

    fn eq(&self, other: &Self, eps: &Self) -> (r: bool) {
        crate::nearly_eq_eps(&self.bits, &other.bits, &eps.bits)
    }
}

/// Every `Q8` is nearly equal to itself, whatever the tolerance, and the
/// comparison is symmetric.
pub proof fn lemma_q8_reflexive_symmetric<const FRAC: u32>(x: Q8<FRAC>, y: Q8<FRAC>, eps: Q8<FRAC>)
    ensures
        x.spec_nearly_eq(&x, &eps),
        x.spec_nearly_eq(&y, &eps) == y.spec_nearly_eq(&x, &eps),
{
}

/// A fixed-point number stored in an `i16`, with `FRAC` fractional bits.
#[derive(Clone, Copy, Debug)]
pub struct Q16<const FRAC: u32> {
    pub bits: i16,
}

impl<const FRAC: u32> Q16<FRAC> {
    /// The number whose bit pattern is `bits`.
    pub fn from_bits(bits: i16) -> (r: Self)
        ensures
            r.bits == bits,
    {
        Q16 { bits }
    }

    /// The bit pattern of `self`.
    pub fn into_bits(&self) -> (r: i16)
        ensures
            r == self.bits,
    {
        self.bits
    }
}

impl<const FRAC: u32> NearlyEq for Q16<FRAC> {
    open spec fn spec_eps() -> Self {
        Q16 { bits: 1 }
    }

    open spec fn spec_nearly_eq(&self, other: &Self, eps: &Self) -> bool {
        int_nearly_eq(self.bits as int, other.bits as int, eps.bits as int)
    }

    fn eps() -> (r: Self) {
        Q16 { bits: 1 }
    }

    fn eq(&self, other: &Self, eps: &Self) -> (r: bool) {
        crate::nearly_eq_eps(&self.bits, &other.bits, &eps.bits)
    }
}

/// Every `Q16` is nearly equal to itself, whatever the tolerance, and the
/// comparison is symmetric.
pub proof fn lemma_q16_reflexive_symmetric<const FRAC: u32>(x: Q16<FRAC>, y: Q16<FRAC>, eps: Q16<FRAC>)
    ensures
        x.spec_nearly_eq(&x, &eps),
        x.spec_nearly_eq(&y, &eps) == y.spec_nearly_eq(&x, &eps),
{
}

/// A fixed-point number stored in an `i32`, with `FRAC` fractional bits.
#[derive(Clone, Copy, Debug)]
pub struct Q32<const FRAC: u32> {
    pub bits: i32,
}

impl<const FRAC: u32> Q32<FRAC> {
    /// The number whose bit pattern is `bits`.
    pub fn from_bits(bits: i32) -> (r: Self)
        ensures
            r.bits == bits,
    {
        Q32 { bits }
    }

    /// The bit pattern of `self`.
    pub fn into_bits(&self) -> (r: i32)
        ensures
            r == self.bits,
    {
        self.bits
    }
}

impl<const FRAC: u32> NearlyEq for Q32<FRAC> {
    open spec fn spec_eps() -> Self {
        Q32 { bits: 1 }
    }

    open spec fn spec_nearly_eq(&self, other: &Self, eps: &Self) -> bool {
        int_nearly_eq(self.bits as int, other.bits as int, eps.bits as int)
    }

    fn eps() -> (r: Self) {
        Q32 { bits: 1 }
    }

    fn eq(&self, other: &Self, eps: &Self) -> (r: bool) {
        crate::nearly_eq_eps(&self.bits, &other.bits, &eps.bits)
    }
}

/// Every `Q32` is nearly equal to itself, whatever the tolerance, and the
/// comparison is symmetric.
pub proof fn lemma_q32_reflexive_symmetric<const FRAC: u32>(x: Q32<FRAC>, y: Q32<FRAC>, eps: Q32<FRAC>)
    ensures
        x.spec_nearly_eq(&x, &eps),
        x.spec_nearly_eq(&y, &eps) == y.spec_nearly_eq(&x, &eps),
{
}

} // verus!
