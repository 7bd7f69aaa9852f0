//! The capability a resource needs to be lockable: it yields a native handle.

use crate::sys::RawFlock;
use vstd::prelude::*;

verus! {

/// A resource that can be locked: it yields the native handle (a file descriptor, a
/// file handle) on which the platform's lock primitive works.
pub trait FlockElement {
    /// The native handle.
    type FilePtr: RawFlock;

    /// The native handle of the resource, in specifications.
    spec fn spec_file_ptr(&self) -> Self::FilePtr;

    /// The native handle of the resource. It must not unwind: the guard's destructor
    /// calls it.
    fn as_file_ptr(&self) -> (r: Self::FilePtr)
        ensures
            r == self.spec_file_ptr(),
    ;
}

impl<T: FlockElement> FlockElement for Box<T> {
    type FilePtr = T::FilePtr;

    open spec fn spec_file_ptr(&self) -> Self::FilePtr {
        (**self).spec_file_ptr()
    }

    fn as_file_ptr(&self) -> (r: Self::FilePtr) {
        (**self).as_file_ptr()
    }
}

impl<'a, T: FlockElement> FlockElement for &'a T {
    type FilePtr = T::FilePtr;

    open spec fn spec_file_ptr(&self) -> Self::FilePtr {
        (**self).spec_file_ptr()
    }

    fn as_file_ptr(&self) -> (r: Self::FilePtr) {
        (**self).as_file_ptr()
    }
}

impl<'a, T: FlockElement> FlockElement for &'a mut T {
    type FilePtr = T::FilePtr;

    open spec fn spec_file_ptr(&self) -> Self::FilePtr {
        (**self).spec_file_ptr()
    }

    fn as_file_ptr(&self) -> (r: Self::FilePtr) {
        (**self).as_file_ptr()
    }
}

} // verus!
