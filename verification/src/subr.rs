//! Typed views of subroutine records: the fixed-shape descriptions of
//! registered native functions, carrying their argument-count bounds
//! and symbol name.  Two reserved maximum-argument sentinels mark a
//! variadic subroutine and one that receives its arguments
//! unevaluated.

use vstd::prelude::*;

use vstd::slice::slice_to_vec;

use crate::heap::{HeapObject, Lisp_Subr, LispHeap};
use crate::ptr::ExternalPtr;

verus! {

/// Maximum-argument sentinel of a subroutine with no limit on its
/// argument count.
pub const MANY: i16 = -2;

/// Maximum-argument sentinel of a subroutine that receives its
/// arguments unevaluated.
pub const UNEVALLED: i16 = -1;

/// A typed view of a subroutine record.
pub type LispSubrRef = ExternalPtr<Lisp_Subr>;

/// The subroutine record at an address of the heap, if any.
pub open spec fn spec_subr_at(heap: &LispHeap, addr: u64) -> Option<Lisp_Subr> {
    match heap.spec_lookup(addr) {
        Some(HeapObject::Subr(s)) => Some(s),
        _ => None,
    }
}

/// Whether a non-null handle points at a subroutine record whose
/// maximum-argument field holds the given value.
pub open spec fn spec_max_args_is(heap: &LispHeap, addr: u64, n: i16) -> bool {
    &&& addr != 0
    &&& match spec_subr_at(heap, addr) {
        Some(s) => s.max_args == n,
        None => false,
    }
}

impl ExternalPtr<Lisp_Subr> {
    /// The record's maximum argument count, one of the two sentinels
    /// included.
    pub fn max_args(self, heap: &LispHeap) -> (r: i16)
        requires
            spec_subr_at(heap, self.addr) is Some,
        ensures
            spec_subr_at(heap, self.addr) matches Some(s) && r == s.max_args,
    {
        match heap.lookup(self.addr) {
            Some(HeapObject::Subr(s)) => s.max_args,
            _ => {
                proof {
                    assert(false);
                }
                0
            },
        }
    }

    /// The record's minimum argument count.
    pub fn min_args(self, heap: &LispHeap) -> (r: i16)
        requires
            spec_subr_at(heap, self.addr) is Some,
        ensures
            spec_subr_at(heap, self.addr) matches Some(s) && r == s.min_args,
    {
        match heap.lookup(self.addr) {
            Some(HeapObject::Subr(s)) => s.min_args,
            _ => {
                proof {
                    assert(false);
                }
                0
            },
        }
    }

    /// The print name of the subroutine's symbol, as bytes.
    pub fn symbol_name(self, heap: &LispHeap) -> (r: Vec<u8>)
        requires
            spec_subr_at(heap, self.addr) is Some,
        ensures
            spec_subr_at(heap, self.addr) matches Some(s) && r@ == s.symbol_name@,
    {
        match heap.lookup(self.addr) {
            Some(HeapObject::Subr(s)) => slice_to_vec(s.symbol_name.as_slice()),
            _ => {
                proof {
                    assert(false);
                }
                Vec::new()
            },
        }
    }

    /// Whether the handle names a variadic subroutine: non-null and
    /// its record's maximum-argument field holds the `MANY` sentinel.
    pub fn is_many(self, heap: &LispHeap) -> (r: bool)
        ensures
            r == spec_max_args_is(heap, self.addr, MANY),
    {
        if self.is_null() {
            return false;
        }
        match heap.lookup(self.addr) {
            Some(HeapObject::Subr(s)) => s.max_args == MANY,
            _ => false,
        }
    }

    /// Whether the handle names a subroutine that receives its
    /// arguments unevaluated: non-null and its record's
    /// maximum-argument field holds the `UNEVALLED` sentinel.
    pub fn is_unevalled(self, heap: &LispHeap) -> (r: bool)
        ensures
            r == spec_max_args_is(heap, self.addr, UNEVALLED),
    {
        if self.is_null() {
            return false;
        }
        match heap.lookup(self.addr) {
            Some(HeapObject::Subr(s)) => s.max_args == UNEVALLED,
            _ => false,
        }
    }
}

} // verus!
