//! Forwarding descriptors: the metadata describing how a special
//! variable's value cell indirects to native storage.
//!
//! A descriptor is chosen once per variable at startup and never
//! changes.  Native addresses and record offsets are held as plain
//! integers; the actual load or store against a live buffer or
//! keyboard record is performed by the symbol-value resolver
//! collaborator, which must supply a record of the matching layout —
//! a caller contract, not a runtime check.  The discriminant field of
//! each payload struct always agrees with the struct's kind: the
//! constructors establish it and the closed `Lisp_Fwd` union keeps a
//! payload only under its own discriminant.

use vstd::prelude::*;

use crate::object::{LispObject, QNIL, QT};

verus! {

/// The numeric kind of a forwarding descriptor.
#[allow(non_camel_case_types)]
pub type Lisp_Fwd_Type = u32;

/// Forwarding to a native integer variable.
#[allow(non_upper_case_globals)]
pub const Lisp_Fwd_Int: Lisp_Fwd_Type = 0;

/// Forwarding to a native boolean variable.
#[allow(non_upper_case_globals)]
pub const Lisp_Fwd_Bool: Lisp_Fwd_Type = 1;

/// Forwarding to a native tagged-value variable.
#[allow(non_upper_case_globals)]
pub const Lisp_Fwd_Obj: Lisp_Fwd_Type = 2;

/// Forwarding to a tagged-value slot of the current buffer record.
#[allow(non_upper_case_globals)]
pub const Lisp_Fwd_Buffer_Obj: Lisp_Fwd_Type = 3;

/// Forwarding to a tagged-value slot of the current keyboard record.
#[allow(non_upper_case_globals)]
pub const Lisp_Fwd_Kboard_Obj: Lisp_Fwd_Type = 4;

/// Forwarding pointer to a native integer variable: the symbol's
/// value really lives in that variable.
#[allow(non_camel_case_types)]
#[derive(Clone, Copy, PartialEq, Eq, Structural, Debug)]
pub struct Lisp_Intfwd {
    /// Always `Lisp_Fwd_Int`.
    pub ty: Lisp_Fwd_Type,
    /// Address of the native integer cell.
    pub intvar: u64,
}

/// Boolean forwarding pointer: like `Lisp_Intfwd`, but the
/// ostensible value of the symbol is `t` when the native variable is
/// true and `nil` when it is false.
#[allow(non_camel_case_types)]
#[derive(Clone, Copy, PartialEq, Eq, Structural, Debug)]
pub struct Lisp_Boolfwd {
    /// Always `Lisp_Fwd_Bool`.
    pub ty: Lisp_Fwd_Type,
    /// Address of the native boolean cell.
    pub boolvar: u64,
}

/// Forwarding pointer to a native tagged-value variable.
#[allow(non_camel_case_types)]
#[derive(Clone, Copy, PartialEq, Eq, Structural, Debug)]
pub struct Lisp_Objfwd {
    /// Always `Lisp_Fwd_Obj`.
    pub ty: Lisp_Fwd_Type,
    /// Address of the native value cell.
    pub objvar: u64,
}

/// Like `Lisp_Objfwd`, except that the value lives in a slot of the
/// current buffer record, at the given byte offset.
#[allow(non_camel_case_types)]
#[derive(Clone, Copy, PartialEq, Eq, Structural, Debug)]
pub struct Lisp_Buffer_Objfwd {
    /// Always `Lisp_Fwd_Buffer_Obj`.
    pub ty: Lisp_Fwd_Type,
    /// Byte offset of the slot within a buffer record.
    pub offset: u64,
    /// Predicate symbol constraining which values may be stored;
    /// enforced by the external caller, not by this component.
    pub predicate: LispObject,
}

/// Like `Lisp_Objfwd`, except that the value lives in a slot of the
/// current keyboard record, at the given byte offset.
#[allow(non_camel_case_types)]
#[derive(Clone, Copy, PartialEq, Eq, Structural, Debug)]
pub struct Lisp_Kboard_Objfwd {
    /// Always `Lisp_Fwd_Kboard_Obj`.
    pub ty: Lisp_Fwd_Type,
    /// Byte offset of the slot within a keyboard record.
    pub offset: u64,
}

impl Lisp_Intfwd {
    /// The discriminant agrees with the kind.
    pub open spec fn wf(self) -> bool {
        self.ty == Lisp_Fwd_Int
    }

    /// A well-formed integer forwarding descriptor.
    pub fn new(intvar: u64) -> (r: Self)
        ensures
            r.wf(),
            r.intvar == intvar,
    {
        Lisp_Intfwd { ty: Lisp_Fwd_Int, intvar }
    }
}

impl Lisp_Boolfwd {
    /// The discriminant agrees with the kind.
    pub open spec fn wf(self) -> bool {
        self.ty == Lisp_Fwd_Bool
    }

    /// A well-formed boolean forwarding descriptor.
    pub fn new(boolvar: u64) -> (r: Self)
        ensures
            r.wf(),
            r.boolvar == boolvar,
    {
        Lisp_Boolfwd { ty: Lisp_Fwd_Bool, boolvar }
    }
}

impl Lisp_Objfwd {
    /// The discriminant agrees with the kind.
    pub open spec fn wf(self) -> bool {
        self.ty == Lisp_Fwd_Obj
    }

    /// A well-formed value forwarding descriptor.
    pub fn new(objvar: u64) -> (r: Self)
        ensures
            r.wf(),
            r.objvar == objvar,
    {
        Lisp_Objfwd { ty: Lisp_Fwd_Obj, objvar }
    }
}

impl Lisp_Buffer_Objfwd {
    /// The discriminant agrees with the kind.
    pub open spec fn wf(self) -> bool {
        self.ty == Lisp_Fwd_Buffer_Obj
    }

    /// A well-formed buffer-slot forwarding descriptor.
    pub fn new(offset: u64, predicate: LispObject) -> (r: Self)
        ensures
            r.wf(),
            r.offset == offset,
            r.predicate == predicate,
    {
        Lisp_Buffer_Objfwd { ty: Lisp_Fwd_Buffer_Obj, offset, predicate }
    }
}

impl Lisp_Kboard_Objfwd {
    /// The discriminant agrees with the kind.
    pub open spec fn wf(self) -> bool {
        self.ty == Lisp_Fwd_Kboard_Obj
    }

    /// A well-formed keyboard-slot forwarding descriptor.
    pub fn new(offset: u64) -> (r: Self)
        ensures
            r.wf(),
            r.offset == offset,
    {
        Lisp_Kboard_Objfwd { ty: Lisp_Fwd_Kboard_Obj, offset }
    }
}

/// The closed union of forwarding descriptors: each payload can only
/// stand under its own kind, so a mismatched discriminant/payload
/// pair cannot be constructed.
#[allow(non_camel_case_types)]
#[derive(Clone, Copy, PartialEq, Eq, Structural, Debug)]
pub enum Lisp_Fwd {
    Int(Lisp_Intfwd),
    Bool(Lisp_Boolfwd),
    Obj(Lisp_Objfwd),
    BufferObj(Lisp_Buffer_Objfwd),
    KboardObj(Lisp_Kboard_Objfwd),
}

impl Lisp_Fwd {
    /// The payload's own discriminant agrees with the variant.
    pub open spec fn wf(self) -> bool {
        match self {
            Lisp_Fwd::Int(f) => f.wf(),
            Lisp_Fwd::Bool(f) => f.wf(),
            Lisp_Fwd::Obj(f) => f.wf(),
            Lisp_Fwd::BufferObj(f) => f.wf(),
            Lisp_Fwd::KboardObj(f) => f.wf(),
        }
    }

    /// The numeric kind of the descriptor.
    pub fn kind(self) -> (r: Lisp_Fwd_Type)
        requires
            self.wf(),
        ensures
            r == match self {
                Lisp_Fwd::Int(_) => Lisp_Fwd_Int,
                Lisp_Fwd::Bool(_) => Lisp_Fwd_Bool,
                Lisp_Fwd::Obj(_) => Lisp_Fwd_Obj,
                Lisp_Fwd::BufferObj(_) => Lisp_Fwd_Buffer_Obj,
                Lisp_Fwd::KboardObj(_) => Lisp_Fwd_Kboard_Obj,
            },
    {
        match self {
            Lisp_Fwd::Int(f) => f.ty,
            Lisp_Fwd::Bool(f) => f.ty,
            Lisp_Fwd::Obj(f) => f.ty,
            Lisp_Fwd::BufferObj(f) => f.ty,
            Lisp_Fwd::KboardObj(f) => f.ty,
        }
    }
}

/// The read half of the boolean forwarding mapping: a true native
/// variable reads as `t`, a false one as `nil`.
pub fn boolfwd_read(native: bool) -> (r: LispObject)
    ensures
        r.0 == if native { QT } else { QNIL },
{
    LispObject::from_bool(native)
}

/// The write half of the boolean forwarding mapping: storing any
/// value other than `nil` sets the native variable true.
pub fn boolfwd_write(value: LispObject) -> (r: bool)
    ensures
        r == !value.spec_is_nil(),
{
    value.is_not_nil()
}

} // verus!
