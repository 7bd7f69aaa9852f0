//! Advisory locks on open files, whole-file or over a byte range, shared or exclusive,
//! waiting or not, released exactly once.
//!
//! A resource is lockable when it implements [`element::FlockElement`]: it yields a native
//! handle, and the handle's type carries the platform's lock primitive
//! ([`sys::RawFlock`]). A successful attempt gives a [`lock::FlockLock`] guard that owns
//! the resource and releases the lock when dropped or consumed; a failed one gives the
//! resource back inside the error.

pub mod element;
pub mod err;
pub mod lock;
pub mod range;
pub mod rawfile;
pub mod sys;

pub use crate::element::FlockElement;
pub use crate::err::{Error, ErrorKind, FlockError, FlockFnError};
pub use crate::lock::FlockLock;
pub use crate::range::{FlockRange, FlockRangeErr, FlockRangeShape};
pub use crate::rawfile::RawFile;
pub use crate::sys::{FlockMode, FlockPlatform, RawFlock};

use crate::lock::{accepts_guard, lock_fn_post, lock_post, lock_range_post, whole_file};
use vstd::prelude::*;

verus! {

/// Exclusive locks: one holder at a time.
pub trait ExclusiveFlock: FlockElement + Sized {
    /// An exclusive lock on the whole resource, or an error at once.
    fn try_lock(self) -> (r: Result<FlockLock<Self>, FlockError<Self>>)
        ensures
            lock_post(self, FlockMode::TryExclusive, whole_file(), r),
    ;

    /// An exclusive lock on the whole resource, waiting until it is granted.
    fn wait_lock(self) -> (r: Result<FlockLock<Self>, FlockError<Self>>)
        ensures
            lock_post(self, FlockMode::WaitExclusive, whole_file(), r),
    ;

    /// An exclusive lock over `range`, or an error at once.
    fn try_lock_range(self, range: FlockRange) -> (r: Result<FlockLock<Self>, FlockError<Self>>)
        ensures
            lock_range_post(self, FlockMode::TryExclusive, range, r),
    ;

    /// An exclusive lock over `range`, waiting until it is granted.
    fn wait_lock_range(self, range: FlockRange) -> (r: Result<FlockLock<Self>, FlockError<Self>>)
        ensures
            lock_range_post(self, FlockMode::WaitExclusive, range, r),
    ;

    /// Runs `f` under an exclusive lock on the whole resource, or fails at once.
    fn try_lock_fn<R, F: FnOnce(FlockLock<Self>) -> R>(self, f: F) -> (r: Result<
        R,
        FlockFnError<Self, F>,
    >)
        requires
            accepts_guard::<Self, R, F>(f),
        ensures
            lock_fn_post(self, FlockMode::TryExclusive, Ok(whole_file()), f, r),
    ;

    /// Runs `f` under an exclusive lock on the whole resource, waiting for the lock.
    fn wait_lock_fn<R, F: FnOnce(FlockLock<Self>) -> R>(self, f: F) -> (r: Result<
        R,
        FlockFnError<Self, F>,
    >)
        requires
            accepts_guard::<Self, R, F>(f),
        ensures
            lock_fn_post(self, FlockMode::WaitExclusive, Ok(whole_file()), f, r),
    ;
}

/// Shared locks: many holders at a time; an exclusive lock waits for all of them.
pub trait SharedFlock: FlockElement + Sized {
    /// A shared lock on the whole resource, or an error at once.
    fn try_lock(self) -> (r: Result<FlockLock<Self>, FlockError<Self>>)
        ensures
            lock_post(self, FlockMode::TryShared, whole_file(), r),
    ;

    /// A shared lock on the whole resource, waiting until it is granted.
    fn wait_lock(self) -> (r: Result<FlockLock<Self>, FlockError<Self>>)
        ensures
            lock_post(self, FlockMode::WaitShared, whole_file(), r),
    ;

    /// A shared lock over `range`, or an error at once.
    fn try_lock_range(self, range: FlockRange) -> (r: Result<FlockLock<Self>, FlockError<Self>>)
        ensures
            lock_range_post(self, FlockMode::TryShared, range, r),
    ;

    /// A shared lock over `range`, waiting until it is granted.
    fn wait_lock_range(self, range: FlockRange) -> (r: Result<FlockLock<Self>, FlockError<Self>>)
        ensures
            lock_range_post(self, FlockMode::WaitShared, range, r),
    ;

    /// Runs `f` under a shared lock on the whole resource, or fails at once.
    fn try_lock_fn<R, F: FnOnce(FlockLock<Self>) -> R>(self, f: F) -> (r: Result<
        R,
        FlockFnError<Self, F>,
    >)
        requires
            accepts_guard::<Self, R, F>(f),
        ensures
            lock_fn_post(self, FlockMode::TryShared, Ok(whole_file()), f, r),
    ;

    /// Runs `f` under a shared lock on the whole resource, waiting for the lock.
    fn wait_lock_fn<R, F: FnOnce(FlockLock<Self>) -> R>(self, f: F) -> (r: Result<
        R,
        FlockFnError<Self, F>,
    >)
        requires
            accepts_guard::<Self, R, F>(f),
        ensures
            lock_fn_post(self, FlockMode::WaitShared, Ok(whole_file()), f, r),
    ;
}

impl<T: FlockElement> ExclusiveFlock for T {
    fn try_lock(self) -> (r: Result<FlockLock<Self>, FlockError<Self>>) {
        FlockLock::lock(self, FlockMode::TryExclusive)
    }

    fn wait_lock(self) -> (r: Result<FlockLock<Self>, FlockError<Self>>) {
        FlockLock::lock(self, FlockMode::WaitExclusive)
    }

    fn try_lock_range(self, range: FlockRange) -> (r: Result<FlockLock<Self>, FlockError<Self>>) {
        FlockLock::lock_range(self, FlockMode::TryExclusive, range)
    }

    fn wait_lock_range(self, range: FlockRange) -> (r: Result<FlockLock<Self>, FlockError<Self>>) {
        FlockLock::lock_range(self, FlockMode::WaitExclusive, range)
    }

    fn try_lock_fn<R, F: FnOnce(FlockLock<Self>) -> R>(self, f: F) -> (r: Result<
        R,
        FlockFnError<Self, F>,
    >) {
        FlockLock::lock_fn(self, FlockMode::TryExclusive, f)
    }

    fn wait_lock_fn<R, F: FnOnce(FlockLock<Self>) -> R>(self, f: F) -> (r: Result<
        R,
        FlockFnError<Self, F>,
    >) {
        FlockLock::lock_fn(self, FlockMode::WaitExclusive, f)
    }
}

impl<T: FlockElement> SharedFlock for T {
    fn try_lock(self) -> (r: Result<FlockLock<Self>, FlockError<Self>>) {
        FlockLock::lock(self, FlockMode::TryShared)
    }

    fn wait_lock(self) -> (r: Result<FlockLock<Self>, FlockError<Self>>) {
        FlockLock::lock(self, FlockMode::WaitShared)
    }

    fn try_lock_range(self, range: FlockRange) -> (r: Result<FlockLock<Self>, FlockError<Self>>) {
        FlockLock::lock_range(self, FlockMode::TryShared, range)
    }

    fn wait_lock_range(self, range: FlockRange) -> (r: Result<FlockLock<Self>, FlockError<Self>>) {
        FlockLock::lock_range(self, FlockMode::WaitShared, range)
    }

    fn try_lock_fn<R, F: FnOnce(FlockLock<Self>) -> R>(self, f: F) -> (r: Result<
        R,
        FlockFnError<Self, F>,
    >) {
        FlockLock::lock_fn(self, FlockMode::TryShared, f)
    }

    fn wait_lock_fn<R, F: FnOnce(FlockLock<Self>) -> R>(self, f: F) -> (r: Result<
        R,
        FlockFnError<Self, F>,
    >) {
        FlockLock::lock_fn(self, FlockMode::WaitShared, f)
    }
}

} // verus!
