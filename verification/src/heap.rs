//! The model of externally-owned storage that pointer-carrying
//! values reference.
//!
//! The allocator and collector are collaborators outside this
//! library: they hand out addresses and guarantee their lifetime.
//! Here they are modelled by an explicit heap value: a sequence of
//! objects, the object at index `i` living at address `8 * (i + 1)`.
//! Address zero is never used, so it can stand for the null pointer,
//! and every address is aligned and small enough to serve as a
//! pointer payload of the tag codec.  The heap only ever grows;
//! nothing is freed or relocated, mirroring the collaborator's
//! guarantee that addresses stay valid for the lifetime of any live
//! tagged value.
//!
//! The first eight objects are the well-known symbols whose words the
//! `object` module names (`nil`, `t`, and the rest).

use vstd::prelude::*;

use vstd::slice::slice_to_vec;
use vstd::string::StringSliceAdditionalSpecFns;

use crate::codec::{spec_valid_payload, Lisp_Type};
use crate::object::{LispObject, EmacsInt};

verus! {

/// Discriminant of a free misc cell in the misc header's type field.
pub const MISC_FREE: u32 = 0x5eab;

/// Discriminant of a marker in the misc header's type field.
pub const MISC_MARKER: u32 = 0x5eac;

/// Discriminant of an overlay in the misc header's type field.
pub const MISC_OVERLAY: u32 = 0x5ead;

/// Discriminant of a saved value in the misc header's type field.
pub const MISC_SAVE_VALUE: u32 = 0x5eae;

/// Discriminant of a finalizer in the misc header's type field.
pub const MISC_FINALIZER: u32 = 0x5eaf;

/// The secondary subtype of a misc object.
#[allow(non_camel_case_types)]
#[derive(Clone, Copy, PartialEq, Eq, Structural, Debug)]
pub enum Lisp_Misc_Type {
    Free,
    Marker,
    Overlay,
    SaveValue,
    Finalizer,
}

/// The misc subtype a numeric discriminant names, if any.
pub open spec fn spec_misc_from_code(c: u32) -> Option<Lisp_Misc_Type> {
    if c == MISC_FREE {
        Some(Lisp_Misc_Type::Free)
    } else if c == MISC_MARKER {
        Some(Lisp_Misc_Type::Marker)
    } else if c == MISC_OVERLAY {
        Some(Lisp_Misc_Type::Overlay)
    } else if c == MISC_SAVE_VALUE {
        Some(Lisp_Misc_Type::SaveValue)
    } else if c == MISC_FINALIZER {
        Some(Lisp_Misc_Type::Finalizer)
    } else {
        None
    }
}

/// The header common to every misc object: sixteen subtype bits, a
/// mark bit and a spacer, packed into one 32-bit word.
#[allow(non_camel_case_types)]
#[derive(Clone, Copy, PartialEq, Eq, Structural, Debug)]
pub struct Lisp_Misc_Any {
    /// The packed header word; the low sixteen bits hold the subtype
    /// discriminant.
    pub word: u32,
}

impl Lisp_Misc_Any {
    /// The subtype discriminant held in the header's low bits.
    pub open spec fn spec_type_code(self) -> u32 {
        self.word & 0xffff
    }

    /// The subtype the header names, or `None` for a discriminant
    /// outside the enumeration.
    pub open spec fn spec_type(self) -> Option<Lisp_Misc_Type> {
        spec_misc_from_code(self.spec_type_code())
    }

    /// A header naming the given subtype.
    pub fn new(t: Lisp_Misc_Type) -> (r: Self)
        ensures
            r.spec_type() == Some(t),
    {
        let c: u32 = match t {
            Lisp_Misc_Type::Free => MISC_FREE,
            Lisp_Misc_Type::Marker => MISC_MARKER,
            Lisp_Misc_Type::Overlay => MISC_OVERLAY,
            Lisp_Misc_Type::SaveValue => MISC_SAVE_VALUE,
            Lisp_Misc_Type::Finalizer => MISC_FINALIZER,
        };
        proof {
            assert(c & 0xffff == c) by (bit_vector)
                requires
                    c <= 0xffff,
            ;
        }
        Lisp_Misc_Any { word: c }
    }

    /// Reads the subtype out of the header.
    pub fn type_(self) -> (r: Option<Lisp_Misc_Type>)
        ensures
            r == self.spec_type(),
    {
        let c = self.word & 0xffff;
        if c == MISC_FREE {
            Some(Lisp_Misc_Type::Free)
        } else if c == MISC_MARKER {
            Some(Lisp_Misc_Type::Marker)
        } else if c == MISC_OVERLAY {
            Some(Lisp_Misc_Type::Overlay)
        } else if c == MISC_SAVE_VALUE {
            Some(Lisp_Misc_Type::SaveValue)
        } else if c == MISC_FINALIZER {
            Some(Lisp_Misc_Type::Finalizer)
        } else {
            None
        }
    }
}

/// A misc object: the packed header and the two payload fields the
/// defined subtypes use.  For a marker, `a` identifies the buffer
/// (zero when detached) and `b` is the character position; for an
/// overlay, `a` and `b` are its start and end.
#[allow(non_camel_case_types)]
#[derive(Clone, Copy, PartialEq, Eq, Structural, Debug)]
pub struct Lisp_Misc {
    /// The packed subtype header.
    pub any: Lisp_Misc_Any,
    /// First payload field: a marker's buffer, an overlay's start.
    pub a: EmacsInt,
    /// Second payload field: a marker's position, an overlay's end.
    pub b: EmacsInt,
}

/// A cons cell: a pair of tagged values.
#[allow(non_camel_case_types)]
#[derive(Clone, Copy, PartialEq, Eq, Structural, Debug)]
pub struct Lisp_Cons {
    pub car: LispObject,
    pub cdr: LispObject,
}

/// A symbol: here only its print name; value and function cells
/// belong to the symbol-value resolver collaborator.
#[allow(non_camel_case_types)]
#[derive(Clone, Debug)]
pub struct Lisp_Symbol {
    pub name: Vec<u8>,
}

/// A string's byte contents.
#[allow(non_camel_case_types)]
#[derive(Clone, Debug)]
pub struct Lisp_String {
    pub bytes: Vec<u8>,
}

/// A boxed float, held as its raw bit pattern: the library treats
/// float contents as opaque bits and never computes with them.
#[allow(non_camel_case_types)]
#[derive(Clone, Copy, PartialEq, Eq, Structural, Debug)]
pub struct Lisp_Float {
    pub bits: u64,
}

/// A subroutine record: the fixed-shape description of a registered
/// native function that the evaluator dispatches on.
#[allow(non_camel_case_types)]
#[derive(Clone, Debug)]
pub struct Lisp_Subr {
    /// Minimum number of arguments.
    pub min_args: i16,
    /// Maximum number of arguments, or one of the two reserved
    /// sentinels `MANY` and `UNEVALLED`.
    pub max_args: i16,
    /// Print name of the subroutine's symbol.
    pub symbol_name: Vec<u8>,
}

/// An ordinary vector's elements.
#[allow(non_camel_case_types)]
#[derive(Clone, Debug)]
pub struct Lisp_Vector {
    pub contents: Vec<LispObject>,
}

/// The pseudovector subtype discriminant a vector-like header
/// carries.
#[allow(non_camel_case_types)]
#[derive(Clone, Copy, PartialEq, Eq, Structural, Debug)]
pub enum pvec_type {
    PVEC_NORMAL_VECTOR,
    PVEC_PROCESS,
    PVEC_FRAME,
    PVEC_WINDOW,
    PVEC_BOOL_VECTOR,
    PVEC_BUFFER,
    PVEC_HASH_TABLE,
    PVEC_TERMINAL,
    PVEC_WINDOW_CONFIGURATION,
    PVEC_SUBR,
    PVEC_THREAD,
    PVEC_MUTEX,
    PVEC_CONDVAR,
    PVEC_MODULE_FUNCTION,
    PVEC_COMPILED,
    PVEC_CHAR_TABLE,
    PVEC_SUB_CHAR_TABLE,
    PVEC_RECORD,
    PVEC_FONT,
    PVEC_OTHER,
}

/// An object in externally-owned storage, as the dispatch layer can
/// observe it.  Vector-like objects other than ordinary vectors and
/// subroutine records are opaque here beyond their pseudovector
/// subtype.
#[derive(Clone, Debug)]
pub enum HeapObject {
    Cons(Lisp_Cons),
    Symbol(Lisp_Symbol),
    Str(Lisp_String),
    Float(Lisp_Float),
    Misc(Lisp_Misc),
    Vector(Lisp_Vector),
    Subr(Lisp_Subr),
    Pseudovector(pvec_type),
}

/// The tag a heap object is referenced under.
pub open spec fn tag_of_object(obj: HeapObject) -> Lisp_Type {
    match obj {
        HeapObject::Cons(_) => Lisp_Type::Lisp_Cons,
        HeapObject::Symbol(_) => Lisp_Type::Lisp_Symbol,
        HeapObject::Str(_) => Lisp_Type::Lisp_String,
        HeapObject::Float(_) => Lisp_Type::Lisp_Float,
        HeapObject::Misc(_) => Lisp_Type::Lisp_Misc,
        HeapObject::Vector(_) => Lisp_Type::Lisp_Vectorlike,
        HeapObject::Subr(_) => Lisp_Type::Lisp_Vectorlike,
        HeapObject::Pseudovector(_) => Lisp_Type::Lisp_Vectorlike,
    }
}

/// The pseudovector subtype of a vector-like heap object, `None` for
/// objects that are not vector-like.
pub open spec fn pvec_of_object(obj: HeapObject) -> Option<pvec_type> {
    match obj {
        HeapObject::Vector(_) => Some(pvec_type::PVEC_NORMAL_VECTOR),
        HeapObject::Subr(_) => Some(pvec_type::PVEC_SUBR),
        HeapObject::Pseudovector(p) => Some(p),
        _ => None,
    }
}

/// The model heap: object `i` lives at address `8 * (i + 1)`.
pub struct LispHeap {
    pub objects: Vec<HeapObject>,
}

/// Upper bound on the heap's object count, keeping every address a
/// valid pointer payload.
pub const HEAP_CAPACITY: u64 = 0x03ff_ffff_ffff_ffff;

impl LispHeap {
    /// Whether an address names an object of this heap.
    pub open spec fn spec_valid_addr(&self, addr: u64) -> bool {
        addr % 8 == 0 && addr >= 8 && addr as int / 8 - 1 < self.objects@.len()
    }

    /// The object at a valid address.
    pub open spec fn spec_at(&self, addr: u64) -> HeapObject {
        self.objects@[addr as int / 8 - 1]
    }

    /// The object at an address, or `None` outside the heap.
    pub open spec fn spec_lookup(&self, addr: u64) -> Option<HeapObject> {
        if self.spec_valid_addr(addr) {
            Some(self.spec_at(addr))
        } else {
            None
        }
    }

    /// Whether this heap holds every object of a prior heap,
    /// unchanged and at the same address.  Allocation only ever
    /// extends the heap.
    pub open spec fn spec_extends(&self, prior: LispHeap) -> bool {
        &&& prior.objects@.len() <= self.objects@.len()
        &&& forall|i: int|
            0 <= i < prior.objects@.len() ==> self.objects@[i] == prior.objects@[i]
    }

    /// An empty heap holding only the eight well-known symbols, at
    /// the addresses the symbol words of the `object` module name.
    pub fn new() -> (r: Self)
        ensures
            r.objects@.len() == 8,
            forall|i: int| 0 <= i < 8 ==> (#[trigger] r.objects@[i]) is Symbol,
            r.spec_at(crate::object::QNIL as u64) matches HeapObject::Symbol(s) && s.name@
                == "nil".spec_bytes(),
            r.spec_at(crate::object::QT as u64) matches HeapObject::Symbol(s) && s.name@
                == "t".spec_bytes(),
            r.spec_at(crate::object::QAUTOLOAD as u64) matches HeapObject::Symbol(s) && s.name@
                == "autoload".spec_bytes(),
            r.spec_at(crate::object::QSUBRP as u64) matches HeapObject::Symbol(s) && s.name@
                == "subrp".spec_bytes(),
            r.spec_at(crate::object::QINTEGER_OR_MARKER_P as u64) matches HeapObject::Symbol(s)
                && s.name@ == "integer-or-marker-p".spec_bytes(),
            r.spec_at(crate::object::QWHOLENUMP as u64) matches HeapObject::Symbol(s) && s.name@
                == "wholenump".spec_bytes(),
            r.spec_at(crate::object::QLAMBDA as u64) matches HeapObject::Symbol(s) && s.name@
                == "lambda".spec_bytes(),
            r.spec_at(crate::object::QCLOSURE as u64) matches HeapObject::Symbol(s) && s.name@
                == "closure".spec_bytes(),
    {
        let mut objects: Vec<HeapObject> = Vec::new();
        objects.push(HeapObject::Symbol(Lisp_Symbol { name: slice_to_vec("nil".as_bytes()) }));
        objects.push(HeapObject::Symbol(Lisp_Symbol { name: slice_to_vec("t".as_bytes()) }));
        objects.push(
            HeapObject::Symbol(Lisp_Symbol { name: slice_to_vec("autoload".as_bytes()) }),
        );
        objects.push(HeapObject::Symbol(Lisp_Symbol { name: slice_to_vec("subrp".as_bytes()) }));
        objects.push(
            HeapObject::Symbol(
                Lisp_Symbol { name: slice_to_vec("integer-or-marker-p".as_bytes()) },
            ),
        );
        objects.push(
            HeapObject::Symbol(Lisp_Symbol { name: slice_to_vec("wholenump".as_bytes()) }),
        );
        objects.push(HeapObject::Symbol(Lisp_Symbol { name: slice_to_vec("lambda".as_bytes()) }));
        objects.push(HeapObject::Symbol(Lisp_Symbol { name: slice_to_vec("closure".as_bytes()) }));
        LispHeap { objects }
    }

    /// Places an object in fresh storage and yields its address:
    /// aligned, non-null, and a valid pointer payload.  Every address
    /// the heap already served stays valid and unchanged.
    pub fn allocate(&mut self, obj: HeapObject) -> (r: u64)
        requires
            old(self).objects@.len() < HEAP_CAPACITY,
        ensures
            final(self).objects@ == old(self).objects@.push(obj),
            r == 8 * (old(self).objects@.len() + 1),
            spec_valid_payload(r),
            final(self).spec_valid_addr(r),
            final(self).spec_at(r) == obj,
            final(self).spec_extends(*old(self)),
    {
        let addr: u64 = 8 * (self.objects.len() as u64 + 1);
        self.objects.push(obj);
        addr
    }

    /// Allocates a cons cell and yields the tagged value referencing
    /// it.
    pub fn make_cons(&mut self, car: LispObject, cdr: LispObject) -> (r: LispObject)
        requires
            old(self).objects@.len() < HEAP_CAPACITY,
        ensures
            final(self).objects@ == old(self).objects@.push(
                HeapObject::Cons((Lisp_Cons { car, cdr })),
            ),
            r.has_type(Lisp_Type::Lisp_Cons),
            final(self).spec_valid_addr(r.spec_untagged()),
            final(self).spec_at(r.spec_untagged()) == HeapObject::Cons((Lisp_Cons { car, cdr })),
            final(self).spec_extends(*old(self)),
    {
        let addr = self.allocate(HeapObject::Cons(Lisp_Cons { car, cdr }));
        LispObject::tag_ptr(crate::ptr::ExternalPtr::<Lisp_Cons>::new(addr), Lisp_Type::Lisp_Cons)
    }

    /// Allocates a symbol with the given print name and yields the
    /// tagged value referencing it.
    pub fn make_symbol(&mut self, name: Vec<u8>) -> (r: LispObject)
        requires
            old(self).objects@.len() < HEAP_CAPACITY,
        ensures
            final(self).objects@ == old(self).objects@.push(
                HeapObject::Symbol((Lisp_Symbol { name })),
            ),
            r.has_type(Lisp_Type::Lisp_Symbol),
            final(self).spec_valid_addr(r.spec_untagged()),
            final(self).spec_at(r.spec_untagged()) == HeapObject::Symbol((Lisp_Symbol { name })),
            final(self).spec_extends(*old(self)),
    {
        let addr = self.allocate(HeapObject::Symbol(Lisp_Symbol { name }));
        LispObject::tag_ptr(
            crate::ptr::ExternalPtr::<Lisp_Symbol>::new(addr),
            Lisp_Type::Lisp_Symbol,
        )
    }

    /// Allocates a string with the given byte contents and yields the
    /// tagged value referencing it.
    pub fn make_string(&mut self, bytes: Vec<u8>) -> (r: LispObject)
        requires
            old(self).objects@.len() < HEAP_CAPACITY,
        ensures
            final(self).objects@ == old(self).objects@.push(
                HeapObject::Str((Lisp_String { bytes })),
            ),
            r.has_type(Lisp_Type::Lisp_String),
            final(self).spec_valid_addr(r.spec_untagged()),
            final(self).spec_at(r.spec_untagged()) == HeapObject::Str((Lisp_String { bytes })),
            final(self).spec_extends(*old(self)),
    {
        let addr = self.allocate(HeapObject::Str(Lisp_String { bytes }));
        LispObject::tag_ptr(
            crate::ptr::ExternalPtr::<Lisp_String>::new(addr),
            Lisp_Type::Lisp_String,
        )
    }

    /// Allocates a boxed float holding the given bit pattern and
    /// yields the tagged value referencing it.  Distinct calls yield
    /// distinct boxes even for equal bit patterns, which is why word
    /// identity is unreliable on floats.
    pub fn make_float(&mut self, bits: u64) -> (r: LispObject)
        requires
            old(self).objects@.len() < HEAP_CAPACITY,
        ensures
            final(self).objects@ == old(self).objects@.push(
                HeapObject::Float((Lisp_Float { bits })),
            ),
            r.has_type(Lisp_Type::Lisp_Float),
            final(self).spec_valid_addr(r.spec_untagged()),
            final(self).spec_at(r.spec_untagged()) == HeapObject::Float((Lisp_Float { bits })),
            final(self).spec_extends(*old(self)),
    {
        let addr = self.allocate(HeapObject::Float(Lisp_Float { bits }));
        LispObject::tag_ptr(crate::ptr::ExternalPtr::<Lisp_Float>::new(addr), Lisp_Type::Lisp_Float)
    }

    /// Allocates a marker pointing at the given buffer (zero for a
    /// detached marker) and position, and yields the tagged value
    /// referencing it.
    pub fn make_marker(&mut self, buffer: EmacsInt, charpos: EmacsInt) -> (r: LispObject)
        requires
            old(self).objects@.len() < HEAP_CAPACITY,
        ensures
            final(self).spec_valid_addr(r.spec_untagged()),
            final(self).spec_at(r.spec_untagged()) matches HeapObject::Misc(m)
                && m.any.spec_type() == Some(Lisp_Misc_Type::Marker) && m.a == buffer && m.b
                == charpos,
            r.has_type(Lisp_Type::Lisp_Misc),
            final(self).spec_extends(*old(self)),
            final(self).objects@.len() == old(self).objects@.len() + 1,
    {
        let any = Lisp_Misc_Any::new(Lisp_Misc_Type::Marker);
        let addr = self.allocate(HeapObject::Misc(Lisp_Misc { any, a: buffer, b: charpos }));
        LispObject::tag_ptr(crate::ptr::ExternalPtr::<Lisp_Misc>::new(addr), Lisp_Type::Lisp_Misc)
    }

    /// Allocates an overlay with the given start and end and yields
    /// the tagged value referencing it.
    pub fn make_overlay(&mut self, start: EmacsInt, end: EmacsInt) -> (r: LispObject)
        requires
            old(self).objects@.len() < HEAP_CAPACITY,
        ensures
            final(self).spec_valid_addr(r.spec_untagged()),
            final(self).spec_at(r.spec_untagged()) matches HeapObject::Misc(m)
                && m.any.spec_type() == Some(Lisp_Misc_Type::Overlay) && m.a == start && m.b == end,
            r.has_type(Lisp_Type::Lisp_Misc),
            final(self).spec_extends(*old(self)),
            final(self).objects@.len() == old(self).objects@.len() + 1,
    {
        let any = Lisp_Misc_Any::new(Lisp_Misc_Type::Overlay);
        let addr = self.allocate(HeapObject::Misc(Lisp_Misc { any, a: start, b: end }));
        LispObject::tag_ptr(crate::ptr::ExternalPtr::<Lisp_Misc>::new(addr), Lisp_Type::Lisp_Misc)
    }

    /// Allocates an ordinary vector with the given elements and
    /// yields the tagged value referencing it.
    pub fn make_vector(&mut self, contents: Vec<LispObject>) -> (r: LispObject)
        requires
            old(self).objects@.len() < HEAP_CAPACITY,
        ensures
            final(self).objects@ == old(self).objects@.push(
                HeapObject::Vector((Lisp_Vector { contents })),
            ),
            r.has_type(Lisp_Type::Lisp_Vectorlike),
            final(self).spec_valid_addr(r.spec_untagged()),
            final(self).spec_at(r.spec_untagged()) == HeapObject::Vector(
                (Lisp_Vector { contents }),
            ),
            final(self).spec_extends(*old(self)),
    {
        let addr = self.allocate(HeapObject::Vector(Lisp_Vector { contents }));
        LispObject::tag_ptr(
            crate::ptr::ExternalPtr::<Lisp_Vector>::new(addr),
            Lisp_Type::Lisp_Vectorlike,
        )
    }

    /// Allocates a subroutine record and yields the tagged value
    /// referencing it.  The record's shape is what the registration
    /// collaborator exposes to the evaluator: argument bounds and the
    /// subroutine's symbol name.
    pub fn make_subr(&mut self, min_args: i16, max_args: i16, symbol_name: Vec<u8>) -> (r:
        LispObject)
        requires
            old(self).objects@.len() < HEAP_CAPACITY,
        ensures
            final(self).objects@ == old(self).objects@.push(
                HeapObject::Subr((Lisp_Subr { min_args, max_args, symbol_name })),
            ),
            r.has_type(Lisp_Type::Lisp_Vectorlike),
            final(self).spec_valid_addr(r.spec_untagged()),
            final(self).spec_at(r.spec_untagged()) == HeapObject::Subr(
                (Lisp_Subr { min_args, max_args, symbol_name }),
            ),
            final(self).spec_extends(*old(self)),
    {
        let addr = self.allocate(HeapObject::Subr(Lisp_Subr { min_args, max_args, symbol_name }));
        LispObject::tag_ptr(
            crate::ptr::ExternalPtr::<Lisp_Subr>::new(addr),
            Lisp_Type::Lisp_Vectorlike,
        )
    }

    /// Allocates an opaque pseudovector of the given subtype and
    /// yields the tagged value referencing it.  Ordinary vectors and
    /// subroutine records have constructors of their own.
    pub fn make_pseudovector(&mut self, pv: pvec_type) -> (r: LispObject)
        requires
            old(self).objects@.len() < HEAP_CAPACITY,
            pv != pvec_type::PVEC_NORMAL_VECTOR,
            pv != pvec_type::PVEC_SUBR,
        ensures
            final(self).objects@ == old(self).objects@.push(HeapObject::Pseudovector(pv)),
            r.has_type(Lisp_Type::Lisp_Vectorlike),
            final(self).spec_valid_addr(r.spec_untagged()),
            final(self).spec_at(r.spec_untagged()) == HeapObject::Pseudovector(pv),
            final(self).spec_extends(*old(self)),
    {
        let addr = self.allocate(HeapObject::Pseudovector(pv));
        LispObject::tag_ptr(crate::ptr::ExternalPtr::<u64>::new(addr), Lisp_Type::Lisp_Vectorlike)
    }

    /// Reads the object an address names, or `None` when the address
    /// lies outside the heap.
    pub fn lookup(&self, addr: u64) -> (r: Option<&HeapObject>)
        ensures
            match r {
                Some(o) => self.spec_lookup(addr) == Some(*o),
                None => self.spec_lookup(addr) is None,
            },
    {
        if addr % 8 == 0 && addr >= 8 {
            let idx: u64 = addr / 8 - 1;
            if idx < self.objects.len() as u64 {
                Some(&self.objects[idx as usize])
            } else {
                None
            }
        } else {
            None
        }
    }
}

impl LispObject {
    /// Boxes a float given as its raw bit pattern and yields the
    /// tagged value referencing the box.  Turning a native float into
    /// bits happens outside the library, which never computes with
    /// float contents.
    pub fn from_float(heap: &mut LispHeap, bits: u64) -> (r: LispObject)
        requires
            old(heap).objects@.len() < HEAP_CAPACITY,
        ensures
            final(heap).objects@ == old(heap).objects@.push(
                HeapObject::Float((Lisp_Float { bits })),
            ),
            r.has_type(Lisp_Type::Lisp_Float),
            final(heap).spec_valid_addr(r.spec_untagged()),
            final(heap).spec_at(r.spec_untagged()) == HeapObject::Float((Lisp_Float { bits })),
            final(heap).spec_extends(*old(heap)),
    {
        heap.make_float(bits)
    }
}

} // verus!
