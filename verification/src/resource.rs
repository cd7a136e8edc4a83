//! The ownership of a native object.
//!
//! A native object is shared by everyone who holds a clone of its wrapper.
//! It is destroyed when the last of them lets go, by a command on the
//! runtime that made it, and never more than once.

use crate::error::ObsError;
use crate::handle::SafeHandle;
use vstd::prelude::*;

verus! {

/// The count of the owners of one native object.
#[derive(Debug)]
pub struct ResourceGuard {
    handle: SafeHandle,
    owners: u64,
}

impl ResourceGuard {
    /// The native object.
    pub closed spec fn spec_handle(&self) -> SafeHandle {
        self.handle
    }

    /// How many owners the object has. An object without owners is gone.
    pub closed spec fn spec_owners(&self) -> nat {
        self.owners as nat
    }

    /// The guard of an object that was just made: it has one owner.
    pub fn new(handle: SafeHandle) -> (guard: ResourceGuard)
        ensures
            guard.spec_handle() == handle,
            guard.spec_owners() == 1,
    {
        ResourceGuard { handle, owners: 1 }
    }

    /// The native object.
    pub fn handle(&self) -> (handle: SafeHandle)
        ensures
            handle == self.spec_handle(),
    {
        self.handle
    }

    /// How many owners the object has.
    pub fn owners(&self) -> (n: u64)
        ensures
            n == self.spec_owners(),
    {
        self.owners
    }

    /// Records one more owner. An object that is gone cannot be shared, and
    /// the count cannot run over.
    pub fn share(&mut self) -> (r: Result<(), ObsError>)
        ensures
            final(self).spec_handle() == old(self).spec_handle(),
            match r {
                Ok(()) => 0 < old(self).spec_owners() < u64::MAX && final(self).spec_owners()
                    == old(self).spec_owners() + 1,
                Err(e) => e == ObsError::InvalidOperation && (old(self).spec_owners() == 0
                    || old(self).spec_owners() == u64::MAX) && final(self).spec_owners() == old(
                    self,
                ).spec_owners(),
            },
    {
        if self.owners == 0 || self.owners == u64::MAX {
            return Err(ObsError::InvalidOperation);
        }
        self.owners = self.owners + 1;
        Ok(())
    }

    /// Records that an owner let go. When the last owner lets go the object
    /// is to be destroyed: its handle comes back, to be handed to the
    /// runtime as a destructor.
    pub fn let_go(&mut self) -> (destroy: Option<SafeHandle>)
        ensures
            final(self).spec_handle() == old(self).spec_handle(),
            final(self).spec_owners() == if old(self).spec_owners() == 0 {
                0
            } else {
                old(self).spec_owners() - 1
            },
            destroy == if old(self).spec_owners() == 1 {
                Some(old(self).spec_handle())
            } else {
                None::<SafeHandle>
            },
    {
        if self.owners == 0 {
            return None;
        }
        self.owners = self.owners - 1;
        if self.owners == 0 {
            Some(self.handle)
        } else {
            None
        }
    }
}

} // verus!
