//! Handles on native objects that may travel between threads.
//!
//! A native object must only be touched on the executor thread. What other
//! threads may hold is its identity: a handle records where the object lives
//! and offers nothing but that identity, equality and an order. It confers no
//! ownership and is freely copied.

use core::cmp::Ordering;
use vstd::prelude::*;
use vstd::std_specs::cmp::PartialOrdSpecImpl;

verus! {

/// The identity of a native object: the address at which it lives.
#[derive(Clone, Copy, Debug, PartialEq, Eq, Ord, Hash, Structural)]
pub struct SafeHandle {
    addr: usize,
}

impl SafeHandle {
    /// The address that the handle records.
    pub closed spec fn spec_addr(self) -> usize {
        self.addr
    }

    /// The handle on the object at `addr`.
    pub fn new(addr: usize) -> (h: SafeHandle)
        ensures
            h.spec_addr() == addr,
    {
        SafeHandle { addr }
    }

    /// The handle that stands for no object.
    pub fn null() -> (h: SafeHandle)
        ensures
            h.spec_addr() == 0,
    {
        SafeHandle { addr: 0 }
    }

    /// The address that the handle records.
    #[verifier::when_used_as_spec(spec_addr)]
    pub fn addr(self) -> (a: usize)
        ensures
            a == self.spec_addr(),
    {
        self.addr
    }

    /// Whether the handle stands for no object.
    pub fn is_null(self) -> (r: bool)
        ensures
            r == (self.spec_addr() == 0),
    {
        self.addr == 0
    }

    /// Whether both handles stand for the same object.
    pub fn same_object(self, other: SafeHandle) -> (r: bool)
        ensures
            r == (self.spec_addr() == other.spec_addr()),
            r == (self == other),
    {
        self.addr == other.addr
    }
}

impl PartialOrdSpecImpl for SafeHandle {
    open spec fn obeys_partial_cmp_spec() -> bool {
        true
    }

    open spec fn partial_cmp_spec(&self, other: &SafeHandle) -> Option<Ordering> {
        if self.spec_addr() < other.spec_addr() {
            Some(Ordering::Less)
        } else if self.spec_addr() == other.spec_addr() {
            Some(Ordering::Equal)
        } else {
            Some(Ordering::Greater)
        }
    }
}

impl PartialOrd for SafeHandle {
    /// Handles are ordered by the addresses they record.
    fn partial_cmp(&self, other: &SafeHandle) -> (r: Option<Ordering>) {
        if self.addr < other.addr {
            Some(Ordering::Less)
        } else if self.addr == other.addr {
            Some(Ordering::Equal)
        } else {
            Some(Ordering::Greater)
        }
    }
}

/// Two handles are equal exactly when they record the same address: handles
/// on the same object compare equal, handles on different objects unequal.
pub proof fn lemma_handle_equality_is_identity(a: SafeHandle, b: SafeHandle)
    ensures
        (a == b) <==> a.spec_addr() == b.spec_addr(),
{
}

} // verus!
