//! The three equality relations over tagged values, a lattice of
//! strictness:
//!
//! * `eq` — raw word identity; total, constant-time, never fails.
//! * `eql` — word identity, except that a float left operand falls
//!   back to structural comparison, because distinct boxed floats can
//!   hold the same bit pattern.
//! * `equal` / `equal_no_quit` — deep structural equality by
//!   recursive descent over the heap.  The two differ only in whether
//!   the traversal polls for user interrupts, which has no observable
//!   effect here; both share one recursion.
//!
//! The descent carries a depth quota: descent below the quota reports
//! the operands unequal rather than looping on a cyclic structure.
//! Cons cells, strings, boxed floats, ordinary vectors and the two
//! comparable misc subtypes (markers and overlays) compare
//! structurally; every other variant compares by identity alone, and
//! misc objects of different or unsupported subtypes are unequal.

use vstd::prelude::*;

use crate::codec::Lisp_Type;
use crate::heap::{HeapObject, Lisp_Misc, Lisp_Misc_Any, Lisp_Misc_Type, LispHeap};
use crate::object::LispObject;
use crate::ptr::ExternalPtr;

verus! {

/// The strictness mode a deep-equality traversal runs under.  The
/// no-quit mode suppresses user-interrupt polling, for contexts where
/// interruption is unsafe; the including-properties mode additionally
/// compares text properties, which lie outside this library.
#[allow(non_camel_case_types)]
#[derive(Clone, Copy, PartialEq, Eq, Structural, Debug)]
pub enum equal_kind {
    EQUAL_PLAIN,
    EQUAL_NO_QUIT,
    EQUAL_INCLUDING_PROPERTIES,
}

/// The recursion-depth quota of the deep-equality descent.
pub const EQUAL_DEPTH_LIMIT: u32 = 200;

/// Structural equality of two misc objects: defined only between two
/// markers and between two overlays.  Markers are equal when they
/// point into the same buffer and, unless detached, at the same
/// position; overlays are equal when their bounds agree.  Any other
/// pairing, the same unsupported subtype included, is unequal.
pub open spec fn spec_misc_equal(m1: Lisp_Misc, m2: Lisp_Misc) -> bool {
    match (m1.any.spec_type(), m2.any.spec_type()) {
        (Some(Lisp_Misc_Type::Marker), Some(Lisp_Misc_Type::Marker)) => m1.a == m2.a && (m1.a == 0
            || m1.b == m2.b),
        (Some(Lisp_Misc_Type::Overlay), Some(Lisp_Misc_Type::Overlay)) => m1.a == m2.a && m1.b
            == m2.b,
        _ => false,
    }
}

/// Deep structural equality with a descent quota.  Word identity
/// short-circuits first, so the relation is reflexive at any quota;
/// an exhausted quota reports unequal.
pub open spec fn equal_rec(heap: &LispHeap, a: LispObject, b: LispObject, fuel: nat) -> bool
    decreases fuel, 0int, 0int,
{
    if a == b {
        true
    } else if fuel == 0 {
        false
    } else if a.spec_get_type() != b.spec_get_type() {
        false
    } else {
        match a.spec_get_type() {
            Some(Lisp_Type::Lisp_Cons) => match (
                heap.spec_lookup(a.spec_untagged()),
                heap.spec_lookup(b.spec_untagged()),
            ) {
                (Some(HeapObject::Cons(c1)), Some(HeapObject::Cons(c2))) => equal_rec(
                    heap,
                    c1.car,
                    c2.car,
                    (fuel - 1) as nat,
                ) && equal_rec(heap, c1.cdr, c2.cdr, (fuel - 1) as nat),
                _ => false,
            },
            Some(Lisp_Type::Lisp_String) => match (
                heap.spec_lookup(a.spec_untagged()),
                heap.spec_lookup(b.spec_untagged()),
            ) {
                (Some(HeapObject::Str(s1)), Some(HeapObject::Str(s2))) => s1.bytes@ == s2.bytes@,
                _ => false,
            },
            Some(Lisp_Type::Lisp_Float) => match (
                heap.spec_lookup(a.spec_untagged()),
                heap.spec_lookup(b.spec_untagged()),
            ) {
                (Some(HeapObject::Float(f1)), Some(HeapObject::Float(f2))) => f1.bits == f2.bits,
                _ => false,
            },
            Some(Lisp_Type::Lisp_Misc) => match (
                heap.spec_lookup(a.spec_untagged()),
                heap.spec_lookup(b.spec_untagged()),
            ) {
                (Some(HeapObject::Misc(m1)), Some(HeapObject::Misc(m2))) => spec_misc_equal(
                    m1,
                    m2,
                ),
                _ => false,
            },
            Some(Lisp_Type::Lisp_Vectorlike) => match (
                heap.spec_lookup(a.spec_untagged()),
                heap.spec_lookup(b.spec_untagged()),
            ) {
                (Some(HeapObject::Vector(v1)), Some(HeapObject::Vector(v2))) => v1.contents@.len()
                    == v2.contents@.len() && equal_vec_rec(
                    heap,
                    v1.contents@,
                    v2.contents@,
                    (fuel - 1) as nat,
                ),
                _ => false,
            },
            _ => false,
        }
    }
}

/// Element-wise deep equality of two sequences, each element compared
/// at the given quota.
pub open spec fn equal_vec_rec(
    heap: &LispHeap,
    s1: Seq<LispObject>,
    s2: Seq<LispObject>,
    fuel: nat,
) -> bool
    decreases fuel, 1int, s1.len(),
{
    if s1.len() != s2.len() {
        false
    } else if s1.len() == 0 {
        true
    } else {
        equal_rec(heap, s1[0], s2[0], fuel) && equal_vec_rec(heap, s1.skip(1), s2.skip(1), fuel)
    }
}

/// The deep-equality relation as the library's functions expose it:
/// the recursive descent at the full depth quota.
pub open spec fn spec_equal(heap: &LispHeap, a: LispObject, b: LispObject) -> bool {
    equal_rec(heap, a, b, EQUAL_DEPTH_LIMIT as nat)
}

/// The `eql` relation: word identity, except that a float left
/// operand compares structurally.
pub open spec fn spec_eql(heap: &LispHeap, a: LispObject, b: LispObject) -> bool {
    if a.has_type(Lisp_Type::Lisp_Float) {
        spec_equal(heap, a, b)
    } else {
        a == b
    }
}

/// Element-wise equality of sequences is equality at every index.
pub proof fn lemma_equal_vec_char(heap: &LispHeap, s1: Seq<LispObject>, s2: Seq<LispObject>, fuel: nat)
    ensures
        equal_vec_rec(heap, s1, s2, fuel) <==> (s1.len() == s2.len() && forall|j: int|
            0 <= j < s1.len() ==> #[trigger] equal_rec(heap, s1[j], s2[j], fuel)),
    decreases s1.len(),
{
    if s1.len() == s2.len() && s1.len() > 0 {
        lemma_equal_vec_char(heap, s1.skip(1), s2.skip(1), fuel);
        assert(forall|j: int|
            0 <= j < s1.skip(1).len() ==> s1.skip(1)[j] == s1[j + 1] && s2.skip(1)[j] == s2[j + 1]);
        if equal_vec_rec(heap, s1, s2, fuel) {
            assert forall|j: int| 0 <= j < s1.len() implies #[trigger] equal_rec(
                heap,
                s1[j],
                s2[j],
                fuel,
            ) by {
                if j > 0 {
                    assert(equal_rec(heap, s1.skip(1)[j - 1], s2.skip(1)[j - 1], fuel));
                }
            }
        } else {
            if s1.len() == s2.len() && forall|j: int|
                0 <= j < s1.len() ==> #[trigger] equal_rec(heap, s1[j], s2[j], fuel) {
                assert forall|j: int| 0 <= j < s1.skip(1).len() implies #[trigger] equal_rec(
                    heap,
                    s1.skip(1)[j],
                    s2.skip(1)[j],
                    fuel,
                ) by {
                    assert(equal_rec(heap, s1[j + 1], s2[j + 1], fuel));
                }
                assert(equal_rec(heap, s1[0], s2[0], fuel));
                assert(false);
            }
        }
    }
}

/// The deep-equality descent is symmetric at every quota.
pub proof fn lemma_equal_rec_symmetric(heap: &LispHeap, a: LispObject, b: LispObject, fuel: nat)
    ensures
        equal_rec(heap, a, b, fuel) == equal_rec(heap, b, a, fuel),
    decreases fuel, 0int, 0int,
{
    if a == b || fuel == 0 || a.spec_get_type() != b.spec_get_type() {
    } else {
        match a.spec_get_type() {
            Some(Lisp_Type::Lisp_Cons) => {
                match (heap.spec_lookup(a.spec_untagged()), heap.spec_lookup(b.spec_untagged())) {
                    (Some(HeapObject::Cons(c1)), Some(HeapObject::Cons(c2))) => {
                        lemma_equal_rec_symmetric(heap, c1.car, c2.car, (fuel - 1) as nat);
                        lemma_equal_rec_symmetric(heap, c1.cdr, c2.cdr, (fuel - 1) as nat);
                    },
                    _ => {},
                }
            },
            Some(Lisp_Type::Lisp_Vectorlike) => {
                match (heap.spec_lookup(a.spec_untagged()), heap.spec_lookup(b.spec_untagged())) {
                    (Some(HeapObject::Vector(v1)), Some(HeapObject::Vector(v2))) => {
                        lemma_equal_vec_symmetric(
                            heap,
                            v1.contents@,
                            v2.contents@,
                            (fuel - 1) as nat,
                        );
                    },
                    _ => {},
                }
            },
            _ => {},
        }
    }
}

/// Element-wise deep equality is symmetric at every quota.
pub proof fn lemma_equal_vec_symmetric(
    heap: &LispHeap,
    s1: Seq<LispObject>,
    s2: Seq<LispObject>,
    fuel: nat,
)
    ensures
        equal_vec_rec(heap, s1, s2, fuel) == equal_vec_rec(heap, s2, s1, fuel),
    decreases fuel, 1int, s1.len(),
{
    if s1.len() == s2.len() && s1.len() > 0 {
        lemma_equal_rec_symmetric(heap, s1[0], s2[0], fuel);
        lemma_equal_vec_symmetric(heap, s1.skip(1), s2.skip(1), fuel);
    }
}

/// Reflexivity: every value equals itself under the deep relation,
/// at any quota, by the identity short-circuit.
pub proof fn lemma_equal_reflexive(heap: &LispHeap, a: LispObject)
    ensures
        spec_equal(heap, a, a),
{
}

/// Symmetry of the deep relation as exposed.
pub proof fn lemma_equal_symmetric(heap: &LispHeap, a: LispObject, b: LispObject)
    ensures
        spec_equal(heap, a, b) == spec_equal(heap, b, a),
{
    lemma_equal_rec_symmetric(heap, a, b, EQUAL_DEPTH_LIMIT as nat);
}

/// The lattice of strictness, first step: word identity implies
/// `eql`.
pub proof fn lemma_eq_implies_eql(heap: &LispHeap, a: LispObject, b: LispObject)
    ensures
        a == b ==> spec_eql(heap, a, b),
{
}

/// The lattice of strictness, second step: `eql` implies deep
/// equality.  The converse fails: two distinct float boxes holding
/// the same bit pattern are `equal` and `eql` but not `eq`.
pub proof fn lemma_eql_implies_equal(heap: &LispHeap, a: LispObject, b: LispObject)
    ensures
        spec_eql(heap, a, b) ==> spec_equal(heap, a, b),
{
}

/// Byte-wise equality of two byte vectors.
fn bytes_eq(x: &Vec<u8>, y: &Vec<u8>) -> (r: bool)
    ensures
        r == (x@ == y@),
{
    if x.len() != y.len() {
        return false;
    }
    let n = x.len();
    let mut i: usize = 0;
    while i < n
        invariant
            i <= n,
            n == x@.len(),
            x@.len() == y@.len(),
            forall|j: int| 0 <= j < i ==> x@[j] == y@[j],
        decreases n - i,
    {
        if x[i] != y[i] {
            return false;
        }
        i += 1;
    }
    proof {
        assert(x@ =~= y@);
    }
    true
}

/// Structural equality of two misc objects, by subtype rule.
fn misc_equal_fields(m1: &Lisp_Misc, m2: &Lisp_Misc) -> (r: bool)
    ensures
        r == spec_misc_equal(*m1, *m2),
{
    match (m1.any.type_(), m2.any.type_()) {
        (Some(Lisp_Misc_Type::Marker), Some(Lisp_Misc_Type::Marker)) => m1.a == m2.a && (m1.a == 0
            || m1.b == m2.b),
        (Some(Lisp_Misc_Type::Overlay), Some(Lisp_Misc_Type::Overlay)) => m1.a == m2.a && m1.b
            == m2.b,
        _ => false,
    }
}

/// The deep-equality descent: the recursive collaborator that
/// `equal` and `equal_no_quit` delegate to.
#[verifier::loop_isolation(false)]
fn equal_internal(heap: &LispHeap, a: LispObject, b: LispObject, fuel: u32) -> (r: bool)
    ensures
        r == equal_rec(heap, a, b, fuel as nat),
    decreases fuel,
{
    if a.eq(b) {
        return true;
    }
    if fuel == 0 {
        return false;
    }
    match (a.get_type(), b.get_type()) {
        (Some(Lisp_Type::Lisp_Cons), Some(Lisp_Type::Lisp_Cons)) => {
            let parts: Option<(LispObject, LispObject, LispObject, LispObject)> = match (
                heap.lookup(a.get_untaggedptr()),
                heap.lookup(b.get_untaggedptr()),
            ) {
                (Some(HeapObject::Cons(c1)), Some(HeapObject::Cons(c2))) => Some(
                    (c1.car, c1.cdr, c2.car, c2.cdr),
                ),
                _ => None,
            };
            match parts {
                Some((car1, cdr1, car2, cdr2)) => equal_internal(heap, car1, car2, fuel - 1)
                    && equal_internal(heap, cdr1, cdr2, fuel - 1),
                None => false,
            }
        },
        (Some(Lisp_Type::Lisp_String), Some(Lisp_Type::Lisp_String)) => {
            match (heap.lookup(a.get_untaggedptr()), heap.lookup(b.get_untaggedptr())) {
                (Some(HeapObject::Str(s1)), Some(HeapObject::Str(s2))) => bytes_eq(
                    &s1.bytes,
                    &s2.bytes,
                ),
                _ => false,
            }
        },
        (Some(Lisp_Type::Lisp_Float), Some(Lisp_Type::Lisp_Float)) => {
            match (heap.lookup(a.get_untaggedptr()), heap.lookup(b.get_untaggedptr())) {
                (Some(HeapObject::Float(f1)), Some(HeapObject::Float(f2))) => f1.bits == f2.bits,
                _ => false,
            }
        },
        (Some(Lisp_Type::Lisp_Misc), Some(Lisp_Type::Lisp_Misc)) => {
            match (heap.lookup(a.get_untaggedptr()), heap.lookup(b.get_untaggedptr())) {
                (Some(HeapObject::Misc(m1)), Some(HeapObject::Misc(m2))) => misc_equal_fields(
                    m1,
                    m2,
                ),
                _ => false,
            }
        },
        (Some(Lisp_Type::Lisp_Vectorlike), Some(Lisp_Type::Lisp_Vectorlike)) => {
            match (heap.lookup(a.get_untaggedptr()), heap.lookup(b.get_untaggedptr())) {
                (Some(HeapObject::Vector(v1)), Some(HeapObject::Vector(v2))) => {
                    if v1.contents.len() != v2.contents.len() {
                        proof {
                            lemma_equal_vec_char(
                                heap,
                                v1.contents@,
                                v2.contents@,
                                (fuel - 1) as nat,
                            );
                        }
                        return false;
                    }
                    let n = v1.contents.len();
                    let mut i: usize = 0;
                    while i < n
                        invariant
                            i <= n,
                            n == v1.contents@.len(),
                            v1.contents@.len() == v2.contents@.len(),
                            fuel >= 1,
                            forall|j: int|
                                0 <= j < i ==> #[trigger] equal_rec(
                                    heap,
                                    v1.contents@[j],
                                    v2.contents@[j],
                                    (fuel - 1) as nat,
                                ),
                        decreases n - i,
                    {
                        if !equal_internal(heap, v1.contents[i], v2.contents[i], fuel - 1) {
                            proof {
                                lemma_equal_vec_char(
                                    heap,
                                    v1.contents@,
                                    v2.contents@,
                                    (fuel - 1) as nat,
                                );
                                assert(!equal_rec(
                                    heap,
                                    v1.contents@[i as int],
                                    v2.contents@[i as int],
                                    (fuel - 1) as nat,
                                ));
                                assert(!equal_vec_rec(
                                    heap,
                                    v1.contents@,
                                    v2.contents@,
                                    (fuel - 1) as nat,
                                ));
                            }
                            return false;
                        }
                        i += 1;
                    }
                    proof {
                        lemma_equal_vec_char(heap, v1.contents@, v2.contents@, (fuel - 1) as nat);
                    }
                    true
                },
                _ => false,
            }
        },
        _ => false,
    }
}

impl LispObject {
    /// The middle equality relation: word identity, except that a
    /// float left operand compares structurally, since distinct float
    /// boxes may hold the same bit pattern.
    pub fn eql(self, other: LispObject, heap: &LispHeap) -> (r: bool)
        ensures
            r == spec_eql(heap, self, other),
    {
        if self.is_float() {
            self.equal_no_quit(other, heap)
        } else {
            self.eq(other)
        }
    }

    /// Deep structural equality in the plain strictness mode.
    pub fn equal(self, other: LispObject, heap: &LispHeap) -> (r: bool)
        ensures
            r == spec_equal(heap, self, other),
    {
        equal_internal(heap, self, other, EQUAL_DEPTH_LIMIT)
    }

    /// Deep structural equality with interrupt polling suppressed:
    /// the same relation as `equal`, for contexts where interruption
    /// is unsafe.
    pub fn equal_no_quit(self, other: LispObject, heap: &LispHeap) -> (r: bool)
        ensures
            r == spec_equal(heap, self, other),
    {
        equal_internal(heap, self, other, EQUAL_DEPTH_LIMIT)
    }
}

impl ExternalPtr<Lisp_Misc_Any> {
    /// Structural equality of two misc objects: equal subtype first,
    /// then the subtype's own rule; only markers and overlays have
    /// one.  The strictness mode, depth counter and visited-set
    /// handle belong to the surrounding traversal's bookkeeping and
    /// do not alter this leaf comparison.
    pub fn equal(
        self,
        other: ExternalPtr<Lisp_Misc_Any>,
        kind: equal_kind,
        depth: i32,
        ht: LispObject,
        heap: &LispHeap,
    ) -> (r: bool)
        ensures
            r == match (heap.spec_lookup(self.addr), heap.spec_lookup(other.addr)) {
                (Some(HeapObject::Misc(m1)), Some(HeapObject::Misc(m2))) => spec_misc_equal(m1, m2),
                _ => false,
            },
    {
        match (heap.lookup(self.addr), heap.lookup(other.addr)) {
            (Some(HeapObject::Misc(m1)), Some(HeapObject::Misc(m2))) => misc_equal_fields(m1, m2),
            _ => false,
        }
    }
}

} // verus!
