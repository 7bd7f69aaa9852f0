//! A resource that is nothing but a native handle.

use crate::element::FlockElement;
use crate::sys::RawFlock;
use vstd::prelude::*;

verus! {

/// A bare native handle, lockable as it is. The caller keeps the handle open while it is
/// locked; closing it is not this type's business.
#[derive(Clone, Copy, Debug, PartialEq, Eq)]
pub struct RawFile<P> {
    ptr: P,
}

impl<P: Copy> RawFile<P> {
    /// The handle held.
    pub closed spec fn spec_ptr(self) -> P {
        self.ptr
    }

    /// Wraps the handle `ptr`.
    pub fn from_ptr(ptr: P) -> (r: RawFile<P>)
        ensures
            r.spec_ptr() == ptr,
    {
        RawFile { ptr }
    }

    /// The handle held.
    pub fn get_file_ptr(&self) -> (r: P)
        ensures
            r == self.spec_ptr(),
    {
        self.ptr
    }
}

impl<P: RawFlock + Copy> FlockElement for RawFile<P> {
    type FilePtr = P;

    open spec fn spec_file_ptr(&self) -> P {
        self.spec_ptr()
    }

    fn as_file_ptr(&self) -> (r: P) {
        self.ptr
    }
}

} // verus!
