//! Fixed-width integers: exact by default, with an explicit tolerance the
//! distance between the two values must stay strictly below it.

use vstd::prelude::*;

use crate::NearlyEq;

verus! {

/// The distance between two integers.
pub open spec fn dist(a: int, b: int) -> int {
    if a >= b {
        a - b
    } else {
        b - a
    }
}

/// Exact equality, or a distance strictly below `eps`.
pub open spec fn int_nearly_eq(a: int, b: int, eps: int) -> bool {
    a == b || dist(a, b) < eps
}

impl NearlyEq for u8 {
    open spec fn spec_eps() -> u8 {
        0
    }

    open spec fn spec_nearly_eq(&self, other: &u8, eps: &u8) -> bool {
        int_nearly_eq(*self as int, *other as int, *eps as int)
    }

    fn eps() -> (r: u8) {
        0
    }

    fn eq(&self, other: &u8, eps: &u8) -> (r: bool) {
        let diff: u8 = if *self > *other { *self - *other } else { *other - *self };
        if *self == *other {
            true
        } else {
            diff < *eps
        }
    }
}

impl NearlyEq for u16 {
    open spec fn spec_eps() -> u16 {
        0
    }

    open spec fn spec_nearly_eq(&self, other: &u16, eps: &u16) -> bool {
        int_nearly_eq(*self as int, *other as int, *eps as int)
    }

    fn eps() -> (r: u16) {
        0
    }

    fn eq(&self, other: &u16, eps: &u16) -> (r: bool) {
        let diff: u16 = if *self > *other { *self - *other } else { *other - *self };
        if *self == *other {
            true
        } else {
            diff < *eps
        }
    }
}

impl NearlyEq for u32 {
    open spec fn spec_eps() -> u32 {
        0
    }

    open spec fn spec_nearly_eq(&self, other: &u32, eps: &u32) -> bool {
        int_nearly_eq(*self as int, *other as int, *eps as int)
    }

    fn eps() -> (r: u32) {
        0
    }

    fn eq(&self, other: &u32, eps: &u32) -> (r: bool) {
        let diff: u32 = if *self > *other { *self - *other } else { *other - *self };
        if *self == *other {
            true
        } else {
            diff < *eps
        }
    }
}

impl NearlyEq for u64 {
    open spec fn spec_eps() -> u64 {
        0
    }

    open spec fn spec_nearly_eq(&self, other: &u64, eps: &u64) -> bool {
        int_nearly_eq(*self as int, *other as int, *eps as int)
    }

    fn eps() -> (r: u64) {
        0
    }

    fn eq(&self, other: &u64, eps: &u64) -> (r: bool) {
        let diff: u64 = if *self > *other { *self - *other } else { *other - *self };
        if *self == *other {
            true
        } else {
            diff < *eps
        }
    }
}

impl NearlyEq for u128 {
    open spec fn spec_eps() -> u128 {
        0
    }

    open spec fn spec_nearly_eq(&self, other: &u128, eps: &u128) -> bool {
        int_nearly_eq(*self as int, *other as int, *eps as int)
    }

    fn eps() -> (r: u128) {
        0
    }

    fn eq(&self, other: &u128, eps: &u128) -> (r: bool) {
        let diff: u128 = if *self > *other { *self - *other } else { *other - *self };
        if *self == *other {
            true
        } else {
            diff < *eps
        }
    }
}

impl NearlyEq for i8 {
    open spec fn spec_eps() -> i8 {
        0
    }

    open spec fn spec_nearly_eq(&self, other: &i8, eps: &i8) -> bool {
        int_nearly_eq(*self as int, *other as int, *eps as int)
    }

    fn eps() -> (r: i8) {
        0
    }

    fn eq(&self, other: &i8, eps: &i8) -> (r: bool) {
        if *self == *other {
            true
        } else if *eps <= 0 {
            false
        } else {
            let (hi, lo) = if *self > *other { (*self, *other) } else { (*other, *self) };
            if lo >= 0 {
                hi - lo < *eps
            } else {
                hi < lo + *eps
            }
        }
    }
}

impl NearlyEq for i16 {
    open spec fn spec_eps() -> i16 {
        0
    }

    open spec fn spec_nearly_eq(&self, other: &i16, eps: &i16) -> bool {
        int_nearly_eq(*self as int, *other as int, *eps as int)
    }

    fn eps() -> (r: i16) {
        0
    }

    fn eq(&self, other: &i16, eps: &i16) -> (r: bool) {
        if *self == *other {
            true
        } else if *eps <= 0 {
            false
        } else {
            let (hi, lo) = if *self > *other { (*self, *other) } else { (*other, *self) };
            if lo >= 0 {
                hi - lo < *eps
            } else {
                hi < lo + *eps
            }
        }
    }
}

impl NearlyEq for i32 {
    open spec fn spec_eps() -> i32 {
        0
    }

    open spec fn spec_nearly_eq(&self, other: &i32, eps: &i32) -> bool {
        int_nearly_eq(*self as int, *other as int, *eps as int)
    }

    fn eps() -> (r: i32) {
        0
    }

    fn eq(&self, other: &i32, eps: &i32) -> (r: bool) {
        if *self == *other {
            true
        } else if *eps <= 0 {
            false
        } else {
            let (hi, lo) = if *self > *other { (*self, *other) } else { (*other, *self) };
            if lo >= 0 {
                hi - lo < *eps
            } else {
                hi < lo + *eps
            }
        }
    }
}

impl NearlyEq for i64 {
    open spec fn spec_eps() -> i64 {
        0
    }

    open spec fn spec_nearly_eq(&self, other: &i64, eps: &i64) -> bool {
        int_nearly_eq(*self as int, *other as int, *eps as int)
    }

    fn eps() -> (r: i64) {
        0
    }

    fn eq(&self, other: &i64, eps: &i64) -> (r: bool) {
        if *self == *other {
            true
        } else if *eps <= 0 {
            false
        } else {
            let (hi, lo) = if *self > *other { (*self, *other) } else { (*other, *self) };
            if lo >= 0 {
                hi - lo < *eps
            } else {
                hi < lo + *eps
            }
        }
    }
}

impl NearlyEq for i128 {
    open spec fn spec_eps() -> i128 {
        0
    }

    open spec fn spec_nearly_eq(&self, other: &i128, eps: &i128) -> bool {
        int_nearly_eq(*self as int, *other as int, *eps as int)
    }

    fn eps() -> (r: i128) {
        0
    }

    fn eq(&self, other: &i128, eps: &i128) -> (r: bool) {
        if *self == *other {
            true
        } else if *eps <= 0 {
            false
        } else {
            let (hi, lo) = if *self > *other { (*self, *other) } else { (*other, *self) };
            if lo >= 0 {
                hi - lo < *eps
            } else {
                hi < lo + *eps
            }
        }
    }
}

/// The distance does not depend on the order of the operands.
pub proof fn lemma_int_symmetric(a: int, b: int, eps: int)
    ensures
        int_nearly_eq(a, b, eps) == int_nearly_eq(b, a, eps),
{
}

/// Every `u8` is nearly equal to itself, whatever the tolerance (zero or
/// negative included), and the comparison is symmetric.
pub proof fn lemma_u8_reflexive_symmetric(x: u8, y: u8, eps: u8)
    ensures
        x.spec_nearly_eq(&x, &eps),
        x.spec_nearly_eq(&y, &eps) == y.spec_nearly_eq(&x, &eps),
{
}

/// Every `u16` is nearly equal to itself, whatever the tolerance (zero or
/// negative included), and the comparison is symmetric.
pub proof fn lemma_u16_reflexive_symmetric(x: u16, y: u16, eps: u16)
    ensures
        x.spec_nearly_eq(&x, &eps),
        x.spec_nearly_eq(&y, &eps) == y.spec_nearly_eq(&x, &eps),
{
}

/// Every `u32` is nearly equal to itself, whatever the tolerance (zero or
/// negative included), and the comparison is symmetric.
pub proof fn lemma_u32_reflexive_symmetric(x: u32, y: u32, eps: u32)
    ensures
        x.spec_nearly_eq(&x, &eps),
        x.spec_nearly_eq(&y, &eps) == y.spec_nearly_eq(&x, &eps),
{
}

/// Every `u64` is nearly equal to itself, whatever the tolerance (zero or
/// negative included), and the comparison is symmetric.
pub proof fn lemma_u64_reflexive_symmetric(x: u64, y: u64, eps: u64)
    ensures
        x.spec_nearly_eq(&x, &eps),
        x.spec_nearly_eq(&y, &eps) == y.spec_nearly_eq(&x, &eps),
{
}

/// Every `u128` is nearly equal to itself, whatever the tolerance (zero or
/// negative included), and the comparison is symmetric.
pub proof fn lemma_u128_reflexive_symmetric(x: u128, y: u128, eps: u128)
    ensures
        x.spec_nearly_eq(&x, &eps),
        x.spec_nearly_eq(&y, &eps) == y.spec_nearly_eq(&x, &eps),
{
}

/// Every `i8` is nearly equal to itself, whatever the tolerance (zero or
/// negative included), and the comparison is symmetric.
pub proof fn lemma_i8_reflexive_symmetric(x: i8, y: i8, eps: i8)
    ensures
        x.spec_nearly_eq(&x, &eps),
        x.spec_nearly_eq(&y, &eps) == y.spec_nearly_eq(&x, &eps),
{
}

/// Every `i16` is nearly equal to itself, whatever the tolerance (zero or
/// negative included), and the comparison is symmetric.
pub proof fn lemma_i16_reflexive_symmetric(x: i16, y: i16, eps: i16)
    ensures
        x.spec_nearly_eq(&x, &eps),
        x.spec_nearly_eq(&y, &eps) == y.spec_nearly_eq(&x, &eps),
{
}

/// Every `i32` is nearly equal to itself, whatever the tolerance (zero or
/// negative included), and the comparison is symmetric.
pub proof fn lemma_i32_reflexive_symmetric(x: i32, y: i32, eps: i32)
    ensures
        x.spec_nearly_eq(&x, &eps),
        x.spec_nearly_eq(&y, &eps) == y.spec_nearly_eq(&x, &eps),
{
}

/// Every `i64` is nearly equal to itself, whatever the tolerance (zero or
/// negative included), and the comparison is symmetric.
pub proof fn lemma_i64_reflexive_symmetric(x: i64, y: i64, eps: i64)
    ensures
        x.spec_nearly_eq(&x, &eps),
        x.spec_nearly_eq(&y, &eps) == y.spec_nearly_eq(&x, &eps),
{
}

/// Every `i128` is nearly equal to itself, whatever the tolerance (zero or
/// negative included), and the comparison is symmetric.
pub proof fn lemma_i128_reflexive_symmetric(x: i128, y: i128, eps: i128)
    ensures
        x.spec_nearly_eq(&x, &eps),
        x.spec_nearly_eq(&y, &eps) == y.spec_nearly_eq(&x, &eps),
{
}

} // verus!
