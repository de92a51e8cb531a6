//! Tests of the three equality relations and their lattice of
//! strictness.

use remacs_lisp::equality::equal_kind;
use remacs_lisp::heap::LispHeap;
use remacs_lisp::object::{LispObject, QNIL, QT};

#[test]
fn test_eql_on_distinct_float_boxes() {
    // Two distinct float boxes, both holding 3.14: eq is false, eql
    // and equal are true.
    let mut heap = LispHeap::new();
    let bits = (3.14f64).to_bits();
    let a = heap.make_float(bits);
    let b = heap.make_float(bits);
    assert!(!a.eq(b));
    assert!(a.eql(b, &heap));
    assert!(a.equal(b, &heap));
    assert!(a.equal_no_quit(b, &heap));
}

#[test]
fn test_eql_on_unequal_floats() {
    let mut heap = LispHeap::new();
    let a = heap.make_float((1.5f64).to_bits());
    let b = heap.make_float((2.5f64).to_bits());
    assert!(!a.eql(b, &heap));
    assert!(!a.equal(b, &heap));
}

#[test]
fn test_eq_implies_eql_implies_equal() {
    let mut heap = LispHeap::new();
    let values = [
        LispObject(QNIL),
        LispObject(QT),
        LispObject::from_fixnum(12),
        heap.make_string(b"abc".to_vec()),
        heap.make_float((0.5f64).to_bits()),
    ];
    for v in values {
        assert!(v.eq(v));
        assert!(v.eql(v, &heap));
        assert!(v.equal(v, &heap));
    }
}

#[test]
fn test_eql_is_identity_off_floats() {
    let mut heap = LispHeap::new();
    let a = heap.make_string(b"abc".to_vec());
    let b = heap.make_string(b"abc".to_vec());
    // Equal contents, distinct boxes: equal but neither eq nor eql.
    assert!(!a.eq(b));
    assert!(!a.eql(b, &heap));
    assert!(a.equal(b, &heap));
}

#[test]
fn test_equal_symmetry() {
    let mut heap = LispHeap::new();
    let nil = LispObject(QNIL);
    let a = heap.make_cons(LispObject::from_fixnum(1), nil);
    let b = heap.make_cons(LispObject::from_fixnum(1), nil);
    let c = heap.make_cons(LispObject::from_fixnum(2), nil);
    assert_eq!(a.equal(b, &heap), b.equal(a, &heap));
    assert!(a.equal(b, &heap));
    assert_eq!(a.equal(c, &heap), c.equal(a, &heap));
    assert!(!a.equal(c, &heap));
}

#[test]
fn test_equal_structural_lists() {
    let mut heap = LispHeap::new();
    let nil = LispObject(QNIL);
    let one = LispObject::from_fixnum(1);
    let two = LispObject::from_fixnum(2);
    let t1 = heap.make_cons(two, nil);
    let l1 = heap.make_cons(one, t1);
    let t2 = heap.make_cons(two, nil);
    let l2 = heap.make_cons(one, t2);
    let t3 = heap.make_cons(one, nil);
    let l3 = heap.make_cons(one, t3);
    assert!(l1.equal(l2, &heap));
    assert!(!l1.equal(l3, &heap));
    assert!(!l1.equal(one, &heap));
}

#[test]
fn test_equal_vectors() {
    let mut heap = LispHeap::new();
    let s1 = heap.make_string(b"x".to_vec());
    let s2 = heap.make_string(b"x".to_vec());
    let v1 = heap.make_vector(vec![LispObject::from_fixnum(3), s1]);
    let v2 = heap.make_vector(vec![LispObject::from_fixnum(3), s2]);
    let v3 = heap.make_vector(vec![LispObject::from_fixnum(4), s1]);
    let v4 = heap.make_vector(vec![LispObject::from_fixnum(3)]);
    assert!(v1.equal(v2, &heap));
    assert!(!v1.equal(v3, &heap));
    assert!(!v1.equal(v4, &heap));
}

#[test]
fn test_marker_equality() {
    let mut heap = LispHeap::new();
    let m1 = heap.make_marker(7, 100);
    let m2 = heap.make_marker(7, 100);
    let m3 = heap.make_marker(7, 200);
    let m4 = heap.make_marker(8, 100);
    // Detached markers compare equal regardless of position.
    let d1 = heap.make_marker(0, 1);
    let d2 = heap.make_marker(0, 2);
    assert!(m1.equal(m2, &heap));
    assert!(!m1.equal(m3, &heap));
    assert!(!m1.equal(m4, &heap));
    assert!(d1.equal(d2, &heap));
}

#[test]
fn test_overlay_equality_and_cross_subtype() {
    let mut heap = LispHeap::new();
    let o1 = heap.make_overlay(1, 9);
    let o2 = heap.make_overlay(1, 9);
    let o3 = heap.make_overlay(1, 8);
    let m = heap.make_marker(1, 9);
    assert!(o1.equal(o2, &heap));
    assert!(!o1.equal(o3, &heap));
    // Cross-subtype misc comparisons are defined as unequal.
    assert!(!o1.equal(m, &heap));
}

#[test]
fn test_misc_ref_equal() {
    let mut heap = LispHeap::new();
    let m1 = heap.make_marker(3, 4);
    let m2 = heap.make_marker(3, 4);
    let o = heap.make_overlay(3, 4);
    let h1 = m1.as_misc().unwrap();
    let h2 = m2.as_misc().unwrap();
    let ho = o.as_misc().unwrap();
    let nil = LispObject(QNIL);
    assert!(h1.equal(h2, equal_kind::EQUAL_PLAIN, 0, nil, &heap));
    assert!(h1.equal(h2, equal_kind::EQUAL_NO_QUIT, 0, nil, &heap));
    assert!(!h1.equal(ho, equal_kind::EQUAL_PLAIN, 0, nil, &heap));
}

#[test]
fn test_equal_empty_contents() {
    let mut heap = LispHeap::new();
    let e1 = heap.make_string(Vec::new());
    let e2 = heap.make_string(Vec::new());
    let ne = heap.make_string(b"a".to_vec());
    assert!(e1.equal(e2, &heap));
    assert!(!e1.equal(ne, &heap));
    let v1 = heap.make_vector(Vec::new());
    let v2 = heap.make_vector(Vec::new());
    assert!(v1.equal(v2, &heap));
    assert_eq!(e1.debug_format(&heap), "\"\"");
    assert_eq!(v1.debug_format(&heap), "[]");
}

#[test]
fn test_equal_on_cyclic_list_terminates() {
    // A self-referential cons: the descent quota must end the
    // comparison instead of looping.
    let mut heap = LispHeap::new();
    let nil = LispObject(QNIL);
    let cell = heap.make_cons(nil, nil);
    let addr = cell.get_untaggedptr();
    let idx = (addr / 8 - 1) as usize;
    heap.objects[idx] = remacs_lisp::heap::HeapObject::Cons(remacs_lisp::heap::Lisp_Cons {
        car: LispObject::from_fixnum(1),
        cdr: cell,
    });
    let other = heap.make_cons(LispObject::from_fixnum(1), nil);
    // Must terminate; the cyclic list is not equal to the finite one.
    assert!(!cell.equal(other, &heap));
    // Identity still holds by the eq short-circuit.
    assert!(cell.equal(cell, &heap));
    // Two distinct self-referential cells: the descent quota ends the
    // otherwise unbounded comparison and reports unequal.
    let cell2 = heap.make_cons(nil, nil);
    let addr2 = cell2.get_untaggedptr();
    let idx2 = (addr2 / 8 - 1) as usize;
    heap.objects[idx2] = remacs_lisp::heap::HeapObject::Cons(remacs_lisp::heap::Lisp_Cons {
        car: LispObject::from_fixnum(1),
        cdr: cell2,
    });
    assert!(!cell.equal(cell2, &heap));
}
