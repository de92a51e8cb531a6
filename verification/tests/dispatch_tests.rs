//! Tests of the variant dispatch layer: predicate exclusivity, the
//! down-casts, pseudovector narrowing, derived predicates, and the
//! subroutine record views.

use remacs_lisp::dispatch::is_autoload;
use remacs_lisp::heap::{pvec_type, Lisp_Misc_Type, LispHeap};
use remacs_lisp::object::{LispObject, QAUTOLOAD, QLAMBDA, QNIL, QSUBRP, QT};
use remacs_lisp::ptr::ExternalPtr;
use remacs_lisp::subr::{MANY, UNEVALLED};

fn predicate_vector(v: LispObject) -> [bool; 7] {
    [
        v.is_cons(),
        v.is_symbol(),
        v.is_string(),
        v.is_float(),
        v.is_fixnum(),
        v.is_vectorlike(),
        v.is_misc(),
    ]
}

#[test]
fn test_dispatch_exclusivity() {
    let mut heap = LispHeap::new();
    let nil = LispObject(QNIL);
    let cons = heap.make_cons(nil, nil);
    let string = heap.make_string(b"s".to_vec());
    let float = heap.make_float(0x4009_1eb8_51eb_851f);
    let fix = LispObject::from_fixnum(7);
    let vector = heap.make_vector(vec![nil]);
    let marker = heap.make_marker(0, 0);
    let values = [nil, cons, string, float, fix, vector, marker];
    let expected_index = [1usize, 0, 2, 3, 4, 5, 6];
    for (v, idx) in values.iter().zip(expected_index.iter()) {
        let preds = predicate_vector(*v);
        let count = preds.iter().filter(|p| **p).count();
        assert_eq!(count, 1);
        assert!(preds[*idx]);
    }
}

#[test]
fn test_as_misc_and_get_type() {
    let mut heap = LispHeap::new();
    let marker = heap.make_marker(1, 10);
    let overlay = heap.make_overlay(2, 5);
    assert!(marker.is_misc());
    let m = marker.as_misc().unwrap();
    assert_eq!(m.get_type(&heap), Some(Lisp_Misc_Type::Marker));
    let o = overlay.as_misc().unwrap();
    assert_eq!(o.get_type(&heap), Some(Lisp_Misc_Type::Overlay));
    assert!(LispObject(QNIL).as_misc().is_none());
}

#[test]
fn test_as_cons() {
    let mut heap = LispHeap::new();
    let car = LispObject::from_fixnum(1);
    let cdr = LispObject::from_fixnum(2);
    let cell = heap.make_cons(car, cdr);
    let h = cell.as_cons().unwrap();
    assert!(h.car(&heap).eq(car));
    assert!(h.cdr(&heap).eq(cdr));
    assert!(LispObject(QT).as_cons().is_none());
}

#[test]
fn test_subr_narrowing() {
    let mut heap = LispHeap::new();
    let subr = heap.make_subr(1, 2, b"car".to_vec());
    assert!(subr.is_subr(&heap));
    let h = subr.as_subr(&heap).unwrap();
    assert_eq!(h.min_args(&heap), 1);
    assert_eq!(h.max_args(&heap), 2);
    assert_eq!(h.symbol_name(&heap), b"car".to_vec());
    assert!(!h.is_many(&heap));
    assert!(!h.is_unevalled(&heap));

    let varargs = heap.make_subr(0, MANY, b"list".to_vec());
    let hv = varargs.as_subr(&heap).unwrap();
    assert!(hv.is_many(&heap));
    assert!(!hv.is_unevalled(&heap));

    let special = heap.make_subr(0, UNEVALLED, b"quote".to_vec());
    let hs = special.as_subr(&heap).unwrap();
    assert!(hs.is_unevalled(&heap));
    assert!(!hs.is_many(&heap));
}

#[test]
fn test_as_subr_or_error() {
    let mut heap = LispHeap::new();
    let not_subr = heap.make_string(b"no".to_vec());
    let err = not_subr.as_subr_or_error(&heap).unwrap_err();
    assert_eq!(err.expected, LispObject(QSUBRP));
    assert_eq!(err.value, not_subr);
    let subr = heap.make_subr(0, 0, b"f".to_vec());
    assert!(subr.as_subr_or_error(&heap).is_ok());
}

#[test]
fn test_pseudovector_predicates() {
    let mut heap = LispHeap::new();
    let mutex = heap.make_pseudovector(pvec_type::PVEC_MUTEX);
    let condvar = heap.make_pseudovector(pvec_type::PVEC_CONDVAR);
    let compiled = heap.make_pseudovector(pvec_type::PVEC_COMPILED);
    let modfn = heap.make_pseudovector(pvec_type::PVEC_MODULE_FUNCTION);
    let record = heap.make_pseudovector(pvec_type::PVEC_RECORD);
    assert!(mutex.is_mutex(&heap) && !condvar.is_mutex(&heap));
    assert!(condvar.is_condition_variable(&heap) && !mutex.is_condition_variable(&heap));
    assert!(compiled.is_byte_code_function(&heap) && !record.is_byte_code_function(&heap));
    assert!(modfn.is_module_function(&heap) && !compiled.is_module_function(&heap));
    assert!(record.is_record(&heap) && !modfn.is_record(&heap));
    // Narrowing never succeeds across mismatched discriminants.
    assert!(mutex.as_subr(&heap).is_none());
}

#[test]
fn test_is_array_and_sequence() {
    let mut heap = LispHeap::new();
    let nil = LispObject(QNIL);
    let vector = heap.make_vector(vec![]);
    let string = heap.make_string(b"a".to_vec());
    let chartab = heap.make_pseudovector(pvec_type::PVEC_CHAR_TABLE);
    let boolvec = heap.make_pseudovector(pvec_type::PVEC_BOOL_VECTOR);
    let cons = heap.make_cons(nil, nil);
    let fix = LispObject::from_fixnum(0);
    for v in [vector, string, chartab, boolvec] {
        assert!(v.is_array(&heap));
        assert!(v.is_sequence(&heap));
    }
    assert!(!cons.is_array(&heap));
    assert!(cons.is_sequence(&heap));
    assert!(nil.is_sequence(&heap));
    assert!(!nil.is_array(&heap));
    assert!(!fix.is_array(&heap));
    assert!(!fix.is_sequence(&heap));
}

#[test]
fn test_is_function() {
    let mut heap = LispHeap::new();
    let subr = heap.make_subr(0, 1, b"g".to_vec());
    let compiled = heap.make_pseudovector(pvec_type::PVEC_COMPILED);
    let lambda = heap.make_cons(LispObject(QLAMBDA), LispObject(QNIL));
    let plain = heap.make_cons(LispObject(QT), LispObject(QNIL));
    let string = heap.make_string(b"f".to_vec());
    assert!(subr.is_function(&heap));
    assert!(compiled.is_function(&heap));
    assert!(lambda.is_function(&heap));
    assert!(!plain.is_function(&heap));
    assert!(!string.is_function(&heap));
}

#[test]
fn test_is_autoload() {
    let mut heap = LispHeap::new();
    let auto = heap.make_cons(LispObject(QAUTOLOAD), LispObject(QNIL));
    let other = heap.make_cons(LispObject(QT), LispObject(QNIL));
    assert!(is_autoload(auto, &heap));
    assert!(!is_autoload(other, &heap));
    assert!(!is_autoload(LispObject(QNIL), &heap));
    assert!(!is_autoload(LispObject::from_fixnum(1), &heap));
}

#[test]
fn test_external_ptr() {
    let p: ExternalPtr<u64> = ExternalPtr::new(0);
    assert!(p.is_null());
    assert_eq!(p.as_ptr(), 0);
    let mut q: ExternalPtr<u64> = ExternalPtr::new(0x100);
    assert!(!q.is_null());
    assert_eq!(q.as_ptr(), 0x100);
    assert_eq!(q.as_mut(), 0x100);
    assert!(ExternalPtr::<u64>::from_ptr(0).is_none());
    let r = ExternalPtr::<u64>::from_ptr(0x200).unwrap();
    assert_eq!(r.as_ptr(), 0x200);
    assert!(r == ExternalPtr::<u64>::new(0x200));
    assert!(r != q);
}
