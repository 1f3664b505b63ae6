//! Single-owner references to native resources.

use vstd::prelude::*;

use crate::error::Error;
use crate::native::CreateOutcome;

verus! {

/// An opaque reference to a resource of the native engine.
///
/// A `Handle` is the sole title to its resource: it cannot be cloned or
/// copied, so exactly one owning value exists at a time, and the native
/// free may be performed exactly once, by whoever holds it, through
/// [`Handle::release`]. Ownership moves with the value.
pub struct Handle {
    raw: usize,
}

impl View for Handle {
    type V = usize;

    closed spec fn view(&self) -> usize {
        self.raw
    }
}

impl Handle {
    /// Take title to the resource at a native address the shell obtained.
    pub fn from_raw(raw: usize) -> (r: Handle)
        ensures
            r@ == raw,
    {
        Handle { raw }
    }

    /// Classify a native constructor's reply: title to the fresh resource,
    /// or the engine's failure.
    pub fn acquire(reply: CreateOutcome) -> (r: Result<Handle, Error>)
        ensures
            reply matches CreateOutcome::Created { handle } ==> r matches Ok(h) && h@ == handle,
            reply matches CreateOutcome::Failed { code, message } ==> r == Err::<Handle, Error>(
                Error::Native { code, message },
            ),
    {
        match reply {
            CreateOutcome::Created { handle } => Ok(Handle { raw: handle }),
            CreateOutcome::Failed { code, message } => Err(Error::Native { code, message }),
        }
    }

    /// Expose the native address without giving up ownership.
    pub fn as_raw(&self) -> (r: usize)
        ensures
            r == self@,
    {
        self.raw
    }

    /// Give up the handle for teardown: the returned address is what the
    /// owner passes to the native free, after which no owning value remains.
    pub fn release(self) -> (r: usize)
        ensures
            r == self@,
    {
        self.raw
    }
}

} // verus!
