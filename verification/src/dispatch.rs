//! The variant dispatch layer: type predicates over tagged values,
//! safe down-casts to typed handles, pseudovector subtype
//! discrimination, and the derived predicates composed from them.
//!
//! Predicates on the word alone (`is_cons`, `is_misc`, ...) ask only
//! the tag.  Predicates that narrow a vector-like value by its
//! header's pseudovector subtype, and the down-casts that read an
//! object, take the heap the value's payload points into.  Narrowing
//! never succeeds across mismatched discriminants; a failed narrowing
//! yields an absent result, never an invalid handle.

use vstd::prelude::*;

use crate::codec::Lisp_Type;
use crate::heap::{
    pvec_of_object, pvec_type, HeapObject, Lisp_Cons, Lisp_Misc_Any, Lisp_Misc_Type, LispHeap,
};
use crate::object::{LispObject, WrongTypeError, QAUTOLOAD, QCLOSURE, QLAMBDA, QSUBRP};
use crate::ptr::ExternalPtr;

verus! {

/// A typed view of a misc object's header.
pub type LispMiscRef = ExternalPtr<Lisp_Misc_Any>;

/// A typed view of a cons cell.
pub type LispConsRef = ExternalPtr<Lisp_Cons>;

impl LispObject {
    /// Whether the value's payload names an object of the heap whose
    /// kind agrees with the value's tag.
    pub open spec fn spec_points_to(self, heap: &LispHeap, t: Lisp_Type) -> bool {
        &&& self.has_type(t)
        &&& match heap.spec_lookup(self.spec_untagged()) {
            Some(o) => crate::heap::tag_of_object(o) == t,
            None => false,
        }
    }

    /// Whether the value is vector-like and its header carries the
    /// given pseudovector subtype.
    pub open spec fn spec_is_pseudovector(self, heap: &LispHeap, pv: pvec_type) -> bool {
        &&& self.has_type(Lisp_Type::Lisp_Vectorlike)
        &&& match heap.spec_lookup(self.spec_untagged()) {
            Some(o) => pvec_of_object(o) == Some(pv),
            None => false,
        }
    }

    /// Whether the value carries the cons tag.
    pub fn is_cons(self) -> (r: bool)
        ensures
            r == self.has_type(Lisp_Type::Lisp_Cons),
    {
        matches!(self.get_type(), Some(Lisp_Type::Lisp_Cons))
    }

    /// Whether the value carries the symbol tag.
    pub fn is_symbol(self) -> (r: bool)
        ensures
            r == self.has_type(Lisp_Type::Lisp_Symbol),
    {
        matches!(self.get_type(), Some(Lisp_Type::Lisp_Symbol))
    }

    /// Whether the value carries the string tag.
    pub fn is_string(self) -> (r: bool)
        ensures
            r == self.has_type(Lisp_Type::Lisp_String),
    {
        matches!(self.get_type(), Some(Lisp_Type::Lisp_String))
    }

    /// Whether the value carries the float tag.
    pub fn is_float(self) -> (r: bool)
        ensures
            r == self.has_type(Lisp_Type::Lisp_Float),
    {
        matches!(self.get_type(), Some(Lisp_Type::Lisp_Float))
    }

    /// Whether the value carries the vector-like tag.
    pub fn is_vectorlike(self) -> (r: bool)
        ensures
            r == self.has_type(Lisp_Type::Lisp_Vectorlike),
    {
        matches!(self.get_type(), Some(Lisp_Type::Lisp_Vectorlike))
    }

    /// Whether the value carries the misc tag.
    pub fn is_misc(self) -> (r: bool)
        ensures
            r == self.has_type(Lisp_Type::Lisp_Misc),
    {
        matches!(self.get_type(), Some(Lisp_Type::Lisp_Misc))
    }

    /// Narrows to a misc handle: present exactly on misc-tagged
    /// values, wrapping the untagged address.
    pub fn as_misc(self) -> (r: Option<LispMiscRef>)
        ensures
            r is Some <==> self.has_type(Lisp_Type::Lisp_Misc),
            r matches Some(h) ==> h.addr == self.spec_untagged(),
    {
        if self.is_misc() {
            Some(ExternalPtr::new(self.get_untaggedptr()))
        } else {
            None
        }
    }

    /// Narrows to a cons handle: present exactly on cons-tagged
    /// values, wrapping the untagged address.
    pub fn as_cons(self) -> (r: Option<LispConsRef>)
        ensures
            r is Some <==> self.has_type(Lisp_Type::Lisp_Cons),
            r matches Some(h) ==> h.addr == self.spec_untagged(),
    {
        if self.is_cons() {
            Some(ExternalPtr::new(self.get_untaggedptr()))
        } else {
            None
        }
    }

    /// Whether the value is a subroutine record: vector-like with the
    /// subroutine pseudovector subtype.
    pub fn is_subr(self, heap: &LispHeap) -> (r: bool)
        ensures
            r == self.spec_is_pseudovector(heap, pvec_type::PVEC_SUBR),
    {
        self.is_pseudovector(heap, pvec_type::PVEC_SUBR)
    }

    /// Narrows to a subroutine handle: present exactly when the value
    /// is a subroutine record, wrapping the untagged address.
    pub fn as_subr(self, heap: &LispHeap) -> (r: Option<crate::subr::LispSubrRef>)
        ensures
            r is Some <==> self.spec_is_pseudovector(heap, pvec_type::PVEC_SUBR),
            r matches Some(h) ==> h.addr == self.spec_untagged(),
    {
        if self.is_subr(heap) {
            Some(ExternalPtr::new(self.get_untaggedptr()))
        } else {
            None
        }
    }

    /// Narrows to a subroutine handle, or the wrong-type condition
    /// with the `subrp` descriptor when the value is no subroutine
    /// record.
    pub fn as_subr_or_error(self, heap: &LispHeap) -> (r: Result<
        crate::subr::LispSubrRef,
        WrongTypeError,
    >)
        ensures
            r is Ok <==> self.spec_is_pseudovector(heap, pvec_type::PVEC_SUBR),
            r matches Ok(h) ==> h.addr == self.spec_untagged(),
            r matches Err(e) ==> e == (WrongTypeError {
                expected: LispObject(QSUBRP),
                value: self,
            }),
    {
        match self.as_subr(heap) {
            Some(h) => Ok(h),
            None => Err(WrongTypeError { expected: LispObject(QSUBRP), value: self }),
        }
    }

    /// Whether the value is a mutex pseudovector.
    pub fn is_mutex(self, heap: &LispHeap) -> (r: bool)
        ensures
            r == self.spec_is_pseudovector(heap, pvec_type::PVEC_MUTEX),
    {
        self.is_pseudovector(heap, pvec_type::PVEC_MUTEX)
    }

    /// Whether the value is a condition-variable pseudovector.
    pub fn is_condition_variable(self, heap: &LispHeap) -> (r: bool)
        ensures
            r == self.spec_is_pseudovector(heap, pvec_type::PVEC_CONDVAR),
    {
        self.is_pseudovector(heap, pvec_type::PVEC_CONDVAR)
    }

    /// Whether the value is a compiled-function pseudovector.
    pub fn is_byte_code_function(self, heap: &LispHeap) -> (r: bool)
        ensures
            r == self.spec_is_pseudovector(heap, pvec_type::PVEC_COMPILED),
    {
        self.is_pseudovector(heap, pvec_type::PVEC_COMPILED)
    }

    /// Whether the value is a module-function pseudovector.
    pub fn is_module_function(self, heap: &LispHeap) -> (r: bool)
        ensures
            r == self.spec_is_pseudovector(heap, pvec_type::PVEC_MODULE_FUNCTION),
    {
        self.is_pseudovector(heap, pvec_type::PVEC_MODULE_FUNCTION)
    }

    /// Whether the value is a record pseudovector.
    pub fn is_record(self, heap: &LispHeap) -> (r: bool)
        ensures
            r == self.spec_is_pseudovector(heap, pvec_type::PVEC_RECORD),
    {
        self.is_pseudovector(heap, pvec_type::PVEC_RECORD)
    }

    /// Whether the value is an ordinary vector.
    pub fn is_vector(self, heap: &LispHeap) -> (r: bool)
        ensures
            r == self.spec_is_pseudovector(heap, pvec_type::PVEC_NORMAL_VECTOR),
    {
        self.is_pseudovector(heap, pvec_type::PVEC_NORMAL_VECTOR)
    }

    /// Whether the value is a char-table pseudovector.
    pub fn is_char_table(self, heap: &LispHeap) -> (r: bool)
        ensures
            r == self.spec_is_pseudovector(heap, pvec_type::PVEC_CHAR_TABLE),
    {
        self.is_pseudovector(heap, pvec_type::PVEC_CHAR_TABLE)
    }

    /// Whether the value is a bool-vector pseudovector.
    pub fn is_bool_vector(self, heap: &LispHeap) -> (r: bool)
        ensures
            r == self.spec_is_pseudovector(heap, pvec_type::PVEC_BOOL_VECTOR),
    {
        self.is_pseudovector(heap, pvec_type::PVEC_BOOL_VECTOR)
    }

    /// Whether the value is vector-like and its header carries the
    /// given pseudovector subtype.
    pub fn is_pseudovector(self, heap: &LispHeap, pv: pvec_type) -> (r: bool)
        ensures
            r == self.spec_is_pseudovector(heap, pv),
    {
        if !self.is_vectorlike() {
            return false;
        }
        match heap.lookup(self.get_untaggedptr()) {
            Some(HeapObject::Vector(_)) => pv == pvec_type::PVEC_NORMAL_VECTOR,
            Some(HeapObject::Subr(_)) => pv == pvec_type::PVEC_SUBR,
            Some(HeapObject::Pseudovector(p)) => *p == pv,
            _ => false,
        }
    }

    /// Derived predicate: an array is a vector, a string, a
    /// char-table or a bool-vector.
    pub fn is_array(self, heap: &LispHeap) -> (r: bool)
        ensures
            r == (self.spec_is_pseudovector(heap, pvec_type::PVEC_NORMAL_VECTOR) || self.has_type(
                Lisp_Type::Lisp_String,
            ) || self.spec_is_pseudovector(heap, pvec_type::PVEC_CHAR_TABLE)
                || self.spec_is_pseudovector(heap, pvec_type::PVEC_BOOL_VECTOR)),
    {
        self.is_vector(heap) || self.is_string() || self.is_char_table(heap) || self.is_bool_vector(
            heap,
        )
    }

    /// Derived predicate: a sequence is a cons, `nil`, or an array.
    pub fn is_sequence(self, heap: &LispHeap) -> (r: bool)
        ensures
            r == (self.has_type(Lisp_Type::Lisp_Cons) || self.spec_is_nil()
                || self.spec_is_pseudovector(heap, pvec_type::PVEC_NORMAL_VECTOR) || self.has_type(
                Lisp_Type::Lisp_String,
            ) || self.spec_is_pseudovector(heap, pvec_type::PVEC_CHAR_TABLE)
                || self.spec_is_pseudovector(heap, pvec_type::PVEC_BOOL_VECTOR)),
    {
        self.is_cons() || self.is_nil() || self.is_array(heap)
    }

    /// Whether the value is a function object: a subroutine record, a
    /// compiled function, a module function, or a cons whose head is
    /// `lambda` or `closure`.  A symbol naming a function is resolved
    /// through its function cell by the evaluator collaborator, which
    /// is outside this library.
    pub fn is_function(self, heap: &LispHeap) -> (r: bool)
        ensures
            r == (self.spec_is_pseudovector(heap, pvec_type::PVEC_SUBR)
                || self.spec_is_pseudovector(heap, pvec_type::PVEC_COMPILED)
                || self.spec_is_pseudovector(heap, pvec_type::PVEC_MODULE_FUNCTION)
                || spec_car_is(self, heap, QLAMBDA) || spec_car_is(self, heap, QCLOSURE)),
    {
        self.is_subr(heap) || self.is_byte_code_function(heap) || self.is_module_function(heap)
            || car_is(self, heap, QLAMBDA) || car_is(self, heap, QCLOSURE)
    }
}

impl ExternalPtr<Lisp_Cons> {
    /// The head of the cons cell the handle points at.
    pub fn car(self, heap: &LispHeap) -> (r: LispObject)
        requires
            heap.spec_lookup(self.addr) matches Some(HeapObject::Cons(_)),
        ensures
            heap.spec_lookup(self.addr) matches Some(HeapObject::Cons(c)) && r == c.car,
    {
        match heap.lookup(self.addr) {
            Some(HeapObject::Cons(c)) => c.car,
            _ => {
                proof {
                    assert(false);
                }
                LispObject(crate::object::QNIL)
            },
        }
    }

    /// The tail of the cons cell the handle points at.
    pub fn cdr(self, heap: &LispHeap) -> (r: LispObject)
        requires
            heap.spec_lookup(self.addr) matches Some(HeapObject::Cons(_)),
        ensures
            heap.spec_lookup(self.addr) matches Some(HeapObject::Cons(c)) && r == c.cdr,
    {
        match heap.lookup(self.addr) {
            Some(HeapObject::Cons(c)) => c.cdr,
            _ => {
                proof {
                    assert(false);
                }
                LispObject(crate::object::QNIL)
            },
        }
    }
}

impl ExternalPtr<Lisp_Misc_Any> {
    /// The misc subtype of the pointee's header; `None` when the
    /// handle does not point at a misc object of the heap or the
    /// header's discriminant lies outside the enumeration.
    pub fn get_type(self, heap: &LispHeap) -> (r: Option<Lisp_Misc_Type>)
        ensures
            r == spec_misc_type(heap, self.addr),
    {
        match heap.lookup(self.addr) {
            Some(HeapObject::Misc(m)) => m.any.type_(),
            _ => None,
        }
    }
}

/// The misc subtype of the object at an address, `None` where there
/// is no misc object or its discriminant is unknown.
pub open spec fn spec_misc_type(heap: &LispHeap, addr: u64) -> Option<Lisp_Misc_Type> {
    match heap.spec_lookup(addr) {
        Some(HeapObject::Misc(m)) => m.any.spec_type(),
        _ => None,
    }
}

/// Whether a value is a cons of the heap whose head is the given
/// symbol word.
pub open spec fn spec_car_is(v: LispObject, heap: &LispHeap, sym: i64) -> bool {
    &&& v.has_type(Lisp_Type::Lisp_Cons)
    &&& match heap.spec_lookup(v.spec_untagged()) {
        Some(HeapObject::Cons(c)) => c.car.0 == sym,
        _ => false,
    }
}

/// Tests whether a value is a cons whose head is the given symbol
/// word; false on anything else, a dangling cons payload included.
fn car_is(v: LispObject, heap: &LispHeap, sym: i64) -> (r: bool)
    ensures
        r == spec_car_is(v, heap, sym),
{
    if !v.is_cons() {
        return false;
    }
    match heap.lookup(v.get_untaggedptr()) {
        Some(HeapObject::Cons(c)) => c.car.0 == sym,
        _ => false,
    }
}

/// Whether a function value is an autoload form: a cons whose head is
/// the symbol `autoload`.
pub fn is_autoload(function: LispObject, heap: &LispHeap) -> (r: bool)
    ensures
        r == spec_car_is(function, heap, QAUTOLOAD),
{
    car_is(function, heap, QAUTOLOAD)
}

/// Dispatch exclusivity: a word carries at most one tag, so at most
/// one of the seven variant predicates holds of any tagged value —
/// the two integer tags counting together as the fixnum variant.
pub proof fn lemma_dispatch_exclusive(v: LispObject)
    ensures
        v.has_type(Lisp_Type::Lisp_Cons) ==> !(v.has_type(Lisp_Type::Lisp_Symbol) || v.has_type(
            Lisp_Type::Lisp_String,
        ) || v.has_type(Lisp_Type::Lisp_Float) || v.spec_is_fixnum() || v.has_type(
            Lisp_Type::Lisp_Vectorlike,
        ) || v.has_type(Lisp_Type::Lisp_Misc)),
        v.has_type(Lisp_Type::Lisp_Symbol) ==> !(v.has_type(Lisp_Type::Lisp_Cons) || v.has_type(
            Lisp_Type::Lisp_String,
        ) || v.has_type(Lisp_Type::Lisp_Float) || v.spec_is_fixnum() || v.has_type(
            Lisp_Type::Lisp_Vectorlike,
        ) || v.has_type(Lisp_Type::Lisp_Misc)),
        v.has_type(Lisp_Type::Lisp_String) ==> !(v.has_type(Lisp_Type::Lisp_Cons) || v.has_type(
            Lisp_Type::Lisp_Symbol,
        ) || v.has_type(Lisp_Type::Lisp_Float) || v.spec_is_fixnum() || v.has_type(
            Lisp_Type::Lisp_Vectorlike,
        ) || v.has_type(Lisp_Type::Lisp_Misc)),
        v.has_type(Lisp_Type::Lisp_Float) ==> !(v.has_type(Lisp_Type::Lisp_Cons) || v.has_type(
            Lisp_Type::Lisp_Symbol,
        ) || v.has_type(Lisp_Type::Lisp_String) || v.spec_is_fixnum() || v.has_type(
            Lisp_Type::Lisp_Vectorlike,
        ) || v.has_type(Lisp_Type::Lisp_Misc)),
        v.spec_is_fixnum() ==> !(v.has_type(Lisp_Type::Lisp_Cons) || v.has_type(
            Lisp_Type::Lisp_Symbol,
        ) || v.has_type(Lisp_Type::Lisp_String) || v.has_type(Lisp_Type::Lisp_Float) || v.has_type(
            Lisp_Type::Lisp_Vectorlike,
        ) || v.has_type(Lisp_Type::Lisp_Misc)),
        v.has_type(Lisp_Type::Lisp_Vectorlike) ==> !(v.has_type(Lisp_Type::Lisp_Cons)
            || v.has_type(Lisp_Type::Lisp_Symbol) || v.has_type(Lisp_Type::Lisp_String)
            || v.has_type(Lisp_Type::Lisp_Float) || v.spec_is_fixnum() || v.has_type(
            Lisp_Type::Lisp_Misc,
        )),
        v.has_type(Lisp_Type::Lisp_Misc) ==> !(v.has_type(Lisp_Type::Lisp_Cons) || v.has_type(
            Lisp_Type::Lisp_Symbol,
        ) || v.has_type(Lisp_Type::Lisp_String) || v.has_type(Lisp_Type::Lisp_Float)
            || v.spec_is_fixnum() || v.has_type(Lisp_Type::Lisp_Vectorlike)),
{
}

} // verus!
