//! Tests of the multi-limb time value: carry and borrow propagation,
//! normal form, the arithmetic inverse, the order, and the projection
//! into a sequence.

use std::cmp::Ordering;

use remacs_lisp::time::LispTime;

fn t(hi: i64, lo: i32, us: i32, ps: i32) -> LispTime {
    LispTime { hi, lo, us, ps }
}

#[test]
fn test_add_carries_through_all_limbs() {
    // ps carries into us, us carries into lo.
    let a = t(0, 0, 999_999, 999_999);
    let b = t(0, 0, 0, 2);
    assert_eq!(a.add(b), t(0, 1, 0, 1));
}

#[test]
fn test_add_carry_into_hi() {
    let a = t(0, 65_535, 999_999, 999_999);
    let b = t(0, 0, 0, 1);
    assert_eq!(a.add(b), t(1, 0, 0, 0));
}

#[test]
fn test_add_normal_form() {
    // Mildly denormalized inputs still sum to normal form: one carry
    // per limb suffices.
    let a = t(2, 70_000, 1_500_000, 1_999_999);
    let b = t(1, 0, 0, 0);
    let c = a.add(b);
    assert!(c.lo >= 0 && c.lo < 65_536);
    assert!(c.us >= 0 && c.us < 1_000_000);
    assert!(c.ps >= 0 && c.ps < 1_000_000);
    assert_eq!(c, t(4, 4_465, 500_001, 999_999));
}

#[test]
fn test_sub_borrows() {
    let a = t(0, 1, 0, 1);
    let b = t(0, 0, 0, 2);
    assert_eq!(a.sub(b), t(0, 0, 999_999, 999_999));
}

#[test]
fn test_sub_hi_sign_correction() {
    // The hi-sign correction: a negative hi is decremented once more
    // and a full lo radix is added back.
    let a = t(0, 0, 0, 0);
    let b = t(1, 0, 0, 0);
    assert_eq!(a.sub(b), t(-2, 65_536, 0, 0));
}

#[test]
fn test_sub_keeps_lo_unborrowed() {
    // When hi stays nonnegative no correction happens, even though
    // lo went negative: the asymmetry is preserved exactly.
    let a = t(1, 0, 0, 0);
    let b = t(0, 1, 0, 0);
    assert_eq!(a.sub(b), t(1, -1, 0, 0));
}

#[test]
fn test_sub_add_inverse() {
    let a = t(5, 100, 300, 400);
    let b = t(2, 65_000, 999_000, 999_500);
    assert_eq!(a.add(b).sub(b), a);
}

#[test]
fn test_order_consistency() {
    let a = t(1, 2, 3, 4);
    let b = t(1, 2, 4, 0);
    assert!(a < b);
    let d = b.sub(a);
    // The difference is positive and adds back to reconstruct b.
    assert!(t(0, 0, 0, 0) < d);
    assert_eq!(a.add(d), b);
}

#[test]
fn test_lexicographic_order() {
    let base = t(1, 2, 3, 4);
    assert!(t(0, 9, 9, 9) < base);
    assert!(t(1, 1, 9, 9) < base);
    assert!(t(1, 2, 2, 9) < base);
    assert!(t(1, 2, 3, 3) < base);
    assert!(base < t(2, 0, 0, 0));
    assert_eq!(base.partial_cmp(&base), Some(Ordering::Equal));
    assert_eq!(t(0, 0, 0, 0).partial_cmp(&base), Some(Ordering::Less));
    assert_eq!(base.partial_cmp(&t(0, 0, 0, 0)), Some(Ordering::Greater));
    assert!(base == t(1, 2, 3, 4));
}

#[test]
fn test_into_vec() {
    let v = t(7, 8, 9, 10);
    assert_eq!(v.into_vec(0), Vec::<i64>::new());
    assert_eq!(v.into_vec(1), Vec::<i64>::new());
    assert_eq!(v.into_vec(2), vec![7i64, 8]);
    assert_eq!(v.into_vec(3), vec![7i64, 8, 9]);
    assert_eq!(v.into_vec(4), vec![7i64, 8, 9, 10]);
    assert_eq!(v.into_vec(9), vec![7i64, 8, 9, 10]);
}
