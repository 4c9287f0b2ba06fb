//! Floating-point values cannot be held by the verified library, so they are
//! compared here through small wrappers that follow the scalar policy (exact
//! equality, or a distance strictly below the tolerance); the containers
//! around them are the library's.

use nearly_eq::{nearly_eq, nearly_eq_eps, NdArray, NearlyEq};
use num_complex::Complex;

#[derive(Clone, Copy, Debug, PartialEq)]
struct F32(f32);

impl NearlyEq for F32 {
    fn eps() -> F32 {
        F32(1e-6)
    }

    fn eq(&self, other: &F32, eps: &F32) -> bool {
        self.0 == other.0 || (self.0 - other.0).abs() < eps.0
    }
}

#[derive(Clone, Copy, Debug, PartialEq)]
struct F64(f64);

impl NearlyEq for F64 {
    fn eps() -> F64 {
        F64(1e-11)
    }

    fn eq(&self, other: &F64, eps: &F64) -> bool {
        self.0 == other.0 || (self.0 - other.0).abs() < eps.0
    }
}

fn f32s(xs: &[f32]) -> Vec<F32> {
    xs.iter().map(|&x| F32(x)).collect()
}

fn f64s(xs: &[f64]) -> Vec<F64> {
    xs.iter().map(|&x| F64(x)).collect()
}

fn f32_array(xs: [f32; 10]) -> [F32; 10] {
    xs.map(F32)
}

fn nd(shape: &[usize], xs: &[f64]) -> NdArray<F64> {
    NdArray::new(shape.to_vec(), f64s(xs)).unwrap()
}

fn assert_nearly_eq<A: ?Sized, B, C: NearlyEq<A, B> + ?Sized>(a: &C, b: &A) {
    assert!(nearly_eq(a, b), "assertion failed: `(left == right)`");
}

fn assert_nearly_eq_eps<A: ?Sized, B, C: NearlyEq<A, B> + ?Sized>(a: &C, b: &A, eps: &B) {
    assert!(nearly_eq_eps(a, b, eps), "assertion failed: `(left == right)`");
}

#[test]
fn it_should_not_panic_if_values_are_nearly_equal() {
    assert_nearly_eq(&F32(8f32), &F32(8f32 + 1e-7));
}

#[test]
fn it_should_not_panic_if_values_are_nearly_equal_f64() {
    assert_nearly_eq(&F64(0f64), &F64(1e-12 as f64));
}

#[test]
#[should_panic]
fn it_should_panic_if_values_are_not_nearly_equal() {
    assert_nearly_eq(&F32(8f32), &F32(8f32 - 1e-5));
}

#[test]
fn compare_with_explicit_eps() {
    assert_nearly_eq_eps(&F64(3f64), &F64(4f64), &F64(2f64));
}

#[test]
#[should_panic]
fn bad_compare_with_explicit_eps() {
    assert_nearly_eq_eps(&F64(3f64), &F64(4f64), &F64(1e-3f64));
}

#[test]
fn compare_with_vector() {
    let left = f32s(&[1f32, 2.0, 3.0, 4.0, 5.0, 6.0, 7.0, 8.0, 9.0, 10.0]);
    let right = f32s(&[1f32, 2.0, 3.0, 4.0, 5.0, 6.0, 7.0, 8.0, 9.0, 10.0]);
    assert_nearly_eq(&left, &right);
}

#[test]
#[should_panic]
fn bad_compare_with_vector() {
    let left = f32s(&[1f32, 2.0, 3.0, 4.0, 5.0, 6.0, 7.0, 8.0, 9.0, 10.01]);
    let right = f32s(&[1f32, 2.0, 3.0, 4.0, 5.0, 6.0, 7.0, 8.0, 9.0, 10.0]);
    assert_nearly_eq(&left, &right);
}

#[test]
#[should_panic]
fn bad_len_compare_with_vector() {
    let left = f32s(&[1f32, 2.0, 3.0, 4.0, 5.0, 6.0, 7.0, 8.0, 9.0]);
    let right = f32s(&[1f32, 2.0, 3.0, 4.0, 5.0, 6.0, 7.0, 8.0, 9.0, 10.0]);
    assert_nearly_eq(&left, &right);
}

#[test]
fn compare_with_slice() {
    let left = f32_array([1f32, 2.0, 3.0, 4.0, 5.0, 6.0, 7.0, 8.0, 9.0, 10.0]);
    let right = f32_array([1f32, 2.0, 3.0, 4.0, 5.0, 6.0, 7.0, 8.0, 9.0, 10.0]);
    assert_nearly_eq(&left as &[F32], &right as &[F32]);
}

#[test]
#[should_panic]
fn bad_compare_with_slice() {
    let left = f32_array([1f32, 2.0, 3.0, 4.0, 5.0, 6.0, 7.0, 8.0, 9.0, 10.01]);
    let right = f32_array([1f32, 2.0, 3.0, 4.0, 5.0, 6.0, 7.0, 8.0, 9.0, 10.0]);
    assert_nearly_eq(&left as &[F32], &right as &[F32]);
}

#[test]
#[should_panic]
fn bad_len_compare_with_slice() {
    let left = f32s(&[1f32, 2.0, 3.0, 4.0, 5.0, 6.0, 7.0, 8.0, 9.0]);
    let right = f32s(&[1f32, 2.0, 3.0, 4.0, 5.0, 6.0, 7.0, 8.0, 9.0, 10.0]);
    assert_nearly_eq(left.as_slice(), right.as_slice());
}

#[test]
fn compare_with_array() {
    let left = f32_array([1f32, 2.0, 3.0, 4.0, 5.0, 6.0, 7.0, 8.0, 9.0, 10.0]);
    let right = f32_array([1f32, 2.0, 3.0, 4.0, 5.0, 6.0, 7.0, 8.0, 9.0, 10.0]);
    assert_nearly_eq(&left, &right);
}

#[test]
#[should_panic]
fn bad_compare_with_array() {
    let left = f32_array([1f32, 2.0, 3.0, 4.0, 5.0, 6.0, 7.0, 8.0, 9.0, 10.01]);
    let right = f32_array([1f32, 2.0, 3.0, 4.0, 5.0, 6.0, 7.0, 8.0, 9.0, 10.0]);
    assert_nearly_eq(&left, &right);
}

#[test]
fn compare_with_complex() {
    let left = Complex::new(F64(1.0f64), F64(0.0));
    let right = Complex::new(F64(1.0f64), F64(1e-12));
    assert_nearly_eq(&left, &right);
}

#[test]
#[should_panic]
fn bad_compare_with_complex() {
    let left = Complex::new(F64(1.0f64), F64(0.0));
    let right = Complex::new(F64(1.0f64), F64(1e-8));
    assert_nearly_eq(&left, &right);
}

#[test]
fn compare_with_ndarray1d() {
    let left = nd(&[10], &[1f64, 2.0, 3.0, 4.0, 5.0, 6.0, 7.0, 8.0, 9.0, 10.0]);
    let right = nd(&[10], &[1f64, 2.0, 3.0, 4.0, 5.0, 6.0, 7.0, 8.0, 9.0, 10.0]);
    assert_nearly_eq(&left, &right);
}

#[test]
#[should_panic]
fn bad_compare_with_ndarray1d() {
    let left = nd(&[10], &[1f64, 2.0, 3.0, 4.0, 5.0, 6.0, 7.0, 8.0, 9.0, 10.0001]);
    let right = nd(&[10], &[1f64, 2.0, 3.0, 4.0, 5.0, 6.0, 7.0, 8.0, 9.0, 10.0]);
    assert_nearly_eq(&left, &right);
}

#[test]
fn compare_with_ndarray2d() {
    let left = nd(&[2, 5], &[1f64, 2.0, 3.0, 4.0, 5.0, 6.0, 7.0, 8.0, 9.0, 10.0]);
    let right = nd(&[2, 5], &[1f64, 2.0, 3.0, 4.0, 5.0, 6.0, 7.0, 8.0, 9.0, 10.0]);
    assert_nearly_eq(&left, &right);
}

#[test]
#[should_panic]
fn bad_compare_with_ndarray2d_val() {
    let left = nd(&[2, 5], &[1f64, 2.0, 3.0, 4.0, 5.0, 6.0, 7.0, 8.0, 9.0, 10.0001]);
    let right = nd(&[2, 5], &[1f64, 2.0, 3.0, 4.0, 5.0, 6.0, 7.0, 8.0, 9.0, 10.0]);
    assert_nearly_eq(&left, &right);
}

#[test]
#[should_panic]
fn bad_compare_with_ndarray2d_len() {
    let left = nd(&[2, 5], &[1f64, 2.0, 3.0, 4.0, 5.0, 6.0, 7.0, 8.0, 9.0, 10.0]);
    let right = nd(&[5, 2], &[1f64, 2.0, 3.0, 4.0, 5.0, 6.0, 7.0, 8.0, 9.0, 10.0]);
    assert_nearly_eq(&left, &right);
}

#[test]
fn compare_with_ndarray3d() {
    let left = nd(&[2, 2, 2], &[1f64, 2.0, 4.0, 5.0, 6.0, 7.0, 9.0, 10.0]);
    let right = nd(&[2, 2, 2], &[1f64, 2.0, 4.0, 5.0, 6.0, 7.0, 9.0, 10.0]);
    assert_nearly_eq(&left, &right);
}

#[test]
#[should_panic]
fn bad_compare_with_ndarray3d() {
    let left = nd(&[2, 2, 2], &[1f64, 2.0, 4.0, 5.0, 6.0, 7.0, 9.0, 10.0001]);
    let right = nd(&[2, 2, 2], &[1f64, 2.0, 4.0, 5.0, 6.0, 7.0, 9.0, 10.0]);
    assert_nearly_eq(&left, &right);
}

#[test]
#[should_panic]
fn bad_compare_with_ndarraynd() {
    let left = nd(&[2, 3, 4, 5, 6, 7], &vec![0f64; 5040]);
    let right = nd(&[2, 3, 4, 5, 6], &vec![0f64; 720]);
    assert_nearly_eq(&left, &right);
}

#[test]
fn compare_with_option_both_some() {
    let left = Option::Some(F64(0f64));
    let right = Option::Some(F64(1e-12));
    assert_nearly_eq(&left, &right);
}

#[test]
fn compare_with_option_both_none() {
    let left: Option<F64> = Option::None;
    let right = Option::None;
    assert_nearly_eq(&left, &right);
}

#[test]
#[should_panic]
fn bad_compare_with_option_both_some() {
    let left = Option::Some(F64(0f64));
    let right = Option::Some(F64(1f64));
    assert_nearly_eq(&left, &right);
}

#[test]
#[should_panic]
fn bad_compare_with_option_left_some() {
    let left = Option::Some(F64(0f64));
    let right = Option::None;
    assert_nearly_eq(&left, &right);
}

#[test]
#[should_panic]
fn bad_compare_with_option_right_some() {
    let left: Option<F64> = Option::None;
    let right = Option::Some(F64(0f64));
    assert_nearly_eq(&left, &right);
}

#[test]
fn float_defaults_and_explicit_tolerances() {
    assert!(nearly_eq(&F32(8.0), &F32(8.0 + 1e-7)));
    assert!(!nearly_eq(&F32(8.0), &F32(8.0 - 1e-5)));
    assert!(nearly_eq(&F64(0.0), &F64(1e-12)));
    assert!(nearly_eq_eps(&F64(3.0), &F64(4.0), &F64(2.0)));
    assert!(!nearly_eq_eps(&F64(3.0), &F64(4.0), &F64(0.001)));
    assert!(nearly_eq_eps(&F64(1.5), &F64(1.5), &F64(0.0)));
}

#[test]
fn complex_one_part_outside_fails() {
    let eps = F64(0.1);
    let a = Complex::new(F64(1.0), F64(2.0));
    assert!(nearly_eq_eps(&a, &Complex::new(F64(1.05), F64(2.05)), &eps));
    assert!(!nearly_eq_eps(&a, &Complex::new(F64(1.5), F64(2.0)), &eps));
    assert!(!nearly_eq_eps(&a, &Complex::new(F64(1.0), F64(2.5)), &eps));
}
