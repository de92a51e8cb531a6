//! The ownership wrapper for foreign pointers: a thin, copyable,
//! nullable handle to a `T` instance owned outside the library.
//!
//! The handle carries only the address of the pointee; the pointee
//! itself lives in externally-owned storage (modelled by the `heap`
//! module) and is never freed or relocated through a handle.
//! Dereference is only defined for non-null handles: the caller
//! checks `is_null` first, or builds the handle through `from_ptr`,
//! the null-checked construction path.  Equality of handles is
//! address identity.

use vstd::prelude::*;

verus! {

/// A copyable, nullable, non-owning handle to externally-owned
/// memory holding a `T`.
#[verifier::reject_recursive_types(T)]
#[derive(Debug)]
pub struct ExternalPtr<T> {
    /// The pointee's address; zero marks the null handle.
    pub addr: u64,
    /// The pointee type the handle is a view of.
    pub pointee: core::marker::PhantomData<T>,
}

impl<T> Copy for ExternalPtr<T> {

}

impl<T> Clone for ExternalPtr<T> {
    /// Copies the handle; handles are plain views, never owners.
    fn clone(&self) -> (r: Self)
        ensures
            r == *self,
    {
        ExternalPtr { addr: self.addr, pointee: core::marker::PhantomData }
    }
}

impl<T> ExternalPtr<T> {
    /// Wraps any raw address, including null, with no validation.
    pub fn new(p: u64) -> (r: Self)
        ensures
            r.addr == p,
    {
        ExternalPtr { addr: p, pointee: core::marker::PhantomData }
    }

    /// Whether the handle is null.
    pub fn is_null(self) -> (r: bool)
        ensures
            r == (self.addr == 0),
    {
        self.addr == 0
    }

    /// The pointee's address, for read access.
    pub fn as_ptr(self) -> (r: u64)
        ensures
            r == self.addr,
    {
        self.addr
    }

    /// The pointee's address, for write access.
    pub fn as_mut(&mut self) -> (r: u64)
        ensures
            r == old(self).addr,
            *final(self) == *old(self),
    {
        self.addr
    }

    /// The null-checked construction path: absent for a null address,
    /// else a handle on it.  This is the only safe way to wrap a
    /// pointer whose nullity is meaningful.
    pub fn from_ptr(p: u64) -> (r: Option<Self>)
        ensures
            r is Some <==> p != 0,
            r matches Some(h) ==> h.addr == p,
    {
        if p == 0 {
            None
        } else {
            Some(ExternalPtr { addr: p, pointee: core::marker::PhantomData })
        }
    }
}

impl<T> PartialEq for ExternalPtr<T> {
    /// Handle equality is pointer identity.
    fn eq(&self, other: &Self) -> (r: bool) {
        self.addr == other.addr
    }
}

impl<T> vstd::std_specs::cmp::PartialEqSpecImpl for ExternalPtr<T> {
    open spec fn obeys_eq_spec() -> bool {
        true
    }

    open spec fn eq_spec(&self, other: &Self) -> bool {
        self.addr == other.addr
    }
}

} // verus!
