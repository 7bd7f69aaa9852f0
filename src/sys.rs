//! The platform's lock primitive, and how its outcome is read the same way on every
//! platform.

use crate::err::{Error, ErrorKind};
use crate::range::pair_legal;
use vstd::prelude::*;

verus! {

/// The raw code with which Windows reports that a range is locked elsewhere
/// (`ERROR_LOCK_VIOLATION`).
pub const ERROR_LOCK_VIOLATION: i32 = 33;

/// The native locking model that a primitive follows.
#[derive(Clone, Copy, Debug, PartialEq, Eq, Structural)]
pub enum FlockPlatform {
    /// `flock`: whole-file locks; ranges are not passed to the system.
    Posix,
    /// `LockFileEx` / `UnlockFileEx`: per-range locks; unlock names the range that was locked.
    Windows,
}

/// A lock request: shared or exclusive, waiting or not.
#[derive(Clone, Copy, Debug, PartialEq, Eq, Structural)]
pub enum FlockMode {
    /// A shared lock, or an error at once.
    TryShared,
    /// A shared lock, waiting until it is granted.
    WaitShared,
    /// An exclusive lock, or an error at once.
    TryExclusive,
    /// An exclusive lock, waiting until it is granted.
    WaitExclusive,
}

impl FlockMode {
    /// Whether the request is for an exclusive lock.
    pub open spec fn spec_exclusive(self) -> bool {
        self is TryExclusive || self is WaitExclusive
    }

    /// Whether the request waits until the lock is granted.
    pub open spec fn spec_blocking(self) -> bool {
        self is WaitShared || self is WaitExclusive
    }

    /// Whether the request is for an exclusive lock.
    pub fn is_exclusive(&self) -> (r: bool)
        ensures
            r == self.spec_exclusive(),
    {
        matches!(self, FlockMode::TryExclusive | FlockMode::WaitExclusive)
    }

    /// Whether the request waits until the lock is granted.
    pub fn is_blocking(&self) -> (r: bool)
        ensures
            r == self.spec_blocking(),
    {
        matches!(self, FlockMode::WaitShared | FlockMode::WaitExclusive)
    }
}

/// The lock primitive of a platform, offered by its native handle type.
///
/// Each call is one system call; what it returns depends on the state of the system. The
/// spec functions name what each call means on the implementing handle. Implementations
/// must not unwind: the guard's destructor makes the unlock call.
pub trait RawFlock {
    /// The native model that this handle's primitive follows.
    spec fn spec_platform(&self) -> FlockPlatform;

    /// That `r` is the platform's answer to a lock call on this handle, exclusive or
    /// shared, waiting or not, over the platform numbers `range`. Each implementation says
    /// what its lock call means.
    spec fn spec_locked(&self, exclusive: bool, blocking: bool, range: (u64, u64), r: Result<
        (),
        Error,
    >) -> bool;

    /// That `r` is the platform's answer to an unlock call on this handle over the platform
    /// numbers `range`. Each implementation says what its unlock call means.
    spec fn spec_unlocked(&self, range: (u64, u64), r: Result<(), Error>) -> bool;

    /// The native model that the primitive follows.
    fn platform(&self) -> (r: FlockPlatform)
        ensures
            r == self.spec_platform(),
    ;

    /// Asks for a lock over the platform numbers `range` (a `Posix` primitive locks the
    /// whole file whatever the range) and gives the platform's answer: the error is the one
    /// the platform reported. Only a legal range is ever handed in.
    fn raw_lock(&self, exclusive: bool, blocking: bool, range: (u64, u64)) -> (r: Result<(), Error>)
        requires
            pair_legal(range),
        ensures
            self.spec_locked(exclusive, blocking, range, r),
    ;

    /// Releases the lock over the same `range` that was locked, and gives the platform's
    /// answer. It must not unwind.
    fn raw_unlock(&self, range: (u64, u64)) -> (r: Result<(), Error>)
        requires
            pair_legal(range),
        ensures
            self.spec_unlocked(range, r),
    ;
}

/// Whether `e` is Windows' report of a range locked elsewhere, on a non-blocking request.
pub open spec fn is_lock_violation(platform: FlockPlatform, blocking: bool, e: Error) -> bool {
    platform == FlockPlatform::Windows && !blocking && e.spec_code() == Some(ERROR_LOCK_VIOLATION)
}

/// The error of a failed lock request as callers see it: Windows' lock violation on a
/// non-blocking request reads as `WouldBlock`; every other error stays as reported.
pub open spec fn spec_normalize(platform: FlockPlatform, blocking: bool, e: Error) -> Error {
    if is_lock_violation(platform, blocking, e) {
        e.spec_with_kind(ErrorKind::WouldBlock)
    } else {
        e
    }
}

/// Reads the error of a failed lock request the same way on every platform.
pub fn normalize_lock_error(platform: FlockPlatform, blocking: bool, e: Error) -> (r: Error)
    ensures
        r == spec_normalize(platform, blocking, e),
{
    if platform == FlockPlatform::Windows && !blocking && e.raw_os_error() == Some(
        ERROR_LOCK_VIOLATION,
    ) {
        e.with_kind(ErrorKind::WouldBlock)
    } else {
        e
    }
}

/// The region that legal platform numbers `(start, end)` cover, in the words that
/// `LockFileEx` and `UnlockFileEx` take: the start offset (low, high) and the inclusive
/// length (low, high).
pub fn lock_region(range: (u64, u64)) -> (r: (u32, u32, u32, u32))
    requires
        pair_legal(range),
    ensures
        r.0 as int + r.1 as int * 0x1_0000_0000 == range.0,
        r.2 as int + r.3 as int * 0x1_0000_0000 == range.1 - range.0 + 1,
{
    let length: u64 = range.1 - range.0 + 1;
    if length == 0x1_0000_0000 {
        (range.0 as u32, 0, 0, 1)
    } else {
        (range.0 as u32, 0, length as u32, 0)
    }
}

} // verus!
