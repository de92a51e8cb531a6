//! Tests of the word-level operations, the well-known symbols, the
//! error taxonomy of the numeric conversions, and the nil-directed
//! combinators.

use remacs_lisp::heap::LispHeap;
use remacs_lisp::object::{
    LispObject, QINTEGER_OR_MARKER_P, QNIL, QT, QWHOLENUMP,
};

#[test]
fn test_raw_conversions() {
    let v = LispObject::from_C(-12345);
    assert_eq!(v.to_C(), -12345);
    let u = LispObject::from_C_unsigned(0xdead_beef);
    assert_eq!(u.to_C_unsigned(), 0xdead_beef);
    let neg = LispObject::from_C(-1);
    assert_eq!(neg.to_C_unsigned(), u64::MAX);
}

#[test]
fn test_nil_and_t() {
    let nil = LispObject(QNIL);
    let t = LispObject(QT);
    assert!(nil.is_nil());
    assert!(!nil.is_not_nil());
    assert!(!nil.is_t());
    assert!(t.is_t());
    assert!(t.is_not_nil());
    assert!(!t.is_nil());
}

#[test]
fn test_from_bool() {
    assert!(LispObject::from_bool(true).is_t());
    assert!(LispObject::from_bool(false).is_nil());
}

#[test]
fn test_eq_is_word_identity() {
    let a = LispObject::from_fixnum(10);
    let b = LispObject::from_fixnum(10);
    let c = LispObject::from_fixnum(11);
    assert!(a.eq(b));
    assert!(!a.eq(c));
}

#[test]
fn test_fixnum_error_on_string() {
    let mut heap = LispHeap::new();
    let s = heap.make_string(b"hello".to_vec());
    let err = s.as_fixnum_or_error().unwrap_err();
    assert_eq!(err.expected, LispObject(QINTEGER_OR_MARKER_P));
    assert_eq!(err.value, s);
}

#[test]
fn test_natnum_error_on_negative() {
    let v = LispObject::from_fixnum(-3);
    let err = v.as_natnum_or_error().unwrap_err();
    assert_eq!(err.expected, LispObject(QWHOLENUMP));
    assert_eq!(err.value, v);
    let ok = LispObject::from_fixnum(3);
    assert_eq!(ok.as_natnum_or_error().unwrap(), 3);
}

#[test]
fn test_map_or() {
    let nil = LispObject(QNIL);
    let five = LispObject::from_fixnum(5);
    assert_eq!(nil.map_or(99i64, |v| v.as_fixnum().unwrap()), 99);
    assert_eq!(five.map_or(99i64, |v| v.as_fixnum().unwrap()), 5);
}

#[test]
fn test_map_or_else() {
    let nil = LispObject(QNIL);
    let five = LispObject::from_fixnum(5);
    assert_eq!(nil.map_or_else(|| 42i64, |v| v.as_fixnum().unwrap()), 42);
    assert_eq!(five.map_or_else(|| 42i64, |v| v.as_fixnum().unwrap()), 5);
}

#[test]
fn test_tag_and_untag() {
    let mut heap = LispHeap::new();
    let s = heap.make_string(b"x".to_vec());
    // The payload of a freshly allocated object names it in the heap.
    let addr = s.get_untaggedptr();
    assert!(addr >= 8 && addr % 8 == 0);
}
