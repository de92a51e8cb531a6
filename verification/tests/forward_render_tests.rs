//! Tests of the forwarding descriptors and of the diagnostic
//! renderer.

use remacs_lisp::forward::{
    boolfwd_read, boolfwd_write, Lisp_Boolfwd, Lisp_Buffer_Objfwd, Lisp_Fwd, Lisp_Fwd_Bool,
    Lisp_Fwd_Buffer_Obj, Lisp_Fwd_Int, Lisp_Fwd_Kboard_Obj, Lisp_Fwd_Obj, Lisp_Intfwd,
    Lisp_Kboard_Objfwd, Lisp_Objfwd,
};
use remacs_lisp::heap::{pvec_type, LispHeap};
use remacs_lisp::object::{LispObject, QNIL, QT};

#[test]
fn test_forward_descriptor_kinds() {
    let i = Lisp_Intfwd::new(0x100);
    let b = Lisp_Boolfwd::new(0x108);
    let o = Lisp_Objfwd::new(0x110);
    let bo = Lisp_Buffer_Objfwd::new(24, LispObject(QNIL));
    let ko = Lisp_Kboard_Objfwd::new(32);
    assert_eq!(i.ty, Lisp_Fwd_Int);
    assert_eq!(i.intvar, 0x100);
    assert_eq!(b.ty, Lisp_Fwd_Bool);
    assert_eq!(o.ty, Lisp_Fwd_Obj);
    assert_eq!(o.objvar, 0x110);
    assert_eq!(bo.ty, Lisp_Fwd_Buffer_Obj);
    assert_eq!(bo.offset, 24);
    assert_eq!(bo.predicate, LispObject(QNIL));
    assert_eq!(ko.ty, Lisp_Fwd_Kboard_Obj);
    assert_eq!(ko.offset, 32);
    assert_eq!(Lisp_Fwd::Int(i).kind(), Lisp_Fwd_Int);
    assert_eq!(Lisp_Fwd::Bool(b).kind(), Lisp_Fwd_Bool);
    assert_eq!(Lisp_Fwd::Obj(o).kind(), Lisp_Fwd_Obj);
    assert_eq!(Lisp_Fwd::BufferObj(bo).kind(), Lisp_Fwd_Buffer_Obj);
    assert_eq!(Lisp_Fwd::KboardObj(ko).kind(), Lisp_Fwd_Kboard_Obj);
}

#[test]
fn test_boolfwd_mapping() {
    assert!(boolfwd_read(true).is_t());
    assert!(boolfwd_read(false).is_nil());
    assert!(!boolfwd_write(LispObject(QNIL)));
    assert!(boolfwd_write(LispObject(QT)));
    // Writing any non-nil value is treated as true.
    assert!(boolfwd_write(LispObject::from_fixnum(0)));
}

#[test]
fn test_render_simple_values() {
    let mut heap = LispHeap::new();
    assert_eq!(LispObject(QNIL).debug_format(&heap), "nil");
    assert_eq!(LispObject(QT).debug_format(&heap), "'t");
    assert_eq!(LispObject::from_fixnum(42).debug_format(&heap), "42");
    assert_eq!(LispObject::from_fixnum(-7).debug_format(&heap), "-7");
    assert_eq!(LispObject::from_fixnum(0).debug_format(&heap), "0");
    let s = heap.make_string(b"abc".to_vec());
    assert_eq!(s.debug_format(&heap), "\"abc\"");
    let odd = heap.make_string(vec![65, 0, 66]);
    assert_eq!(odd.debug_format(&heap), "\"A?B\"");
}

#[test]
fn test_render_lists_and_vectors() {
    let mut heap = LispHeap::new();
    let nil = LispObject(QNIL);
    let one = LispObject::from_fixnum(1);
    let two = LispObject::from_fixnum(2);
    let tail = heap.make_cons(two, nil);
    let list = heap.make_cons(one, tail);
    assert_eq!(list.debug_format(&heap), "'(1 2 )");
    let dotted = heap.make_cons(one, two);
    assert_eq!(dotted.debug_format(&heap), "'(1 . 2");
    let vector = heap.make_vector(vec![one, two]);
    assert_eq!(vector.debug_format(&heap), "[1 2 ]");
    let sym = heap.make_symbol(b"foo".to_vec());
    assert_eq!(sym.debug_format(&heap), "'foo");
}

#[test]
fn test_render_opaque_values() {
    let mut heap = LispHeap::new();
    let f = heap.make_float((2.0f64).to_bits());
    assert_eq!(f.debug_format(&heap), "#<FLOAT 0x4000000000000000>");
    let m = heap.make_marker(0, 0);
    assert!(m.debug_format(&heap).starts_with("#<MISC @ 0x"));
    let pv = heap.make_pseudovector(pvec_type::PVEC_MUTEX);
    assert!(pv.debug_format(&heap).starts_with("#<VECTOR-LIKE @ 0x"));
    // A pointer payload naming no object degrades, never fails.
    let dangling = LispObject::from_C(0x7000 + 4);
    assert_eq!(dangling.debug_format(&heap), "\"#<dangling>\"");
}

#[test]
fn test_render_cyclic_list_terminates() {
    let mut heap = LispHeap::new();
    let nil = LispObject(QNIL);
    let cell = heap.make_cons(nil, nil);
    let addr = cell.get_untaggedptr();
    let idx = (addr / 8 - 1) as usize;
    heap.objects[idx] = remacs_lisp::heap::HeapObject::Cons(remacs_lisp::heap::Lisp_Cons {
        car: LispObject::from_fixnum(9),
        cdr: cell,
    });
    let rendered = cell.debug_format(&heap);
    assert!(rendered.starts_with("'(9 9 "));
    assert!(rendered.ends_with("..."));
}
