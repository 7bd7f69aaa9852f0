//! The lock guard: it owns a locked resource and releases the lock exactly once.

use crate::element::FlockElement;
use crate::err::{Error, FlockError, FlockFnError};
use crate::range::{
    pair_legal, FlockRange, FlockRangeErr, FlockSysRange, FLOCK_PNUM_MAX, FLOCK_PNUM_MIN,
};
use crate::sys::{normalize_lock_error, spec_normalize, FlockMode, FlockPlatform, RawFlock};
use vstd::prelude::*;

verus! {

/// The platform numbers of the whole file.
pub open spec fn whole_file() -> (u64, u64) {
    (FLOCK_PNUM_MIN, FLOCK_PNUM_MAX)
}

/// A lock held on a resource. It owns the resource, and releases the lock exactly once:
/// when it is dropped, or when it is consumed by one of its `unlock` methods.
pub struct FlockLock<T: FlockElement> {
    data: Option<T>,
    range: FlockSysRange,
}

/// That the lock call asked of `data`'s handle in `mode` over `pair` failed, and that
/// `err` is the platform's error as callers see it (see `spec_normalize`).
pub open spec fn lock_failed<T: FlockElement>(
    data: T,
    mode: FlockMode,
    pair: (u64, u64),
    err: Error,
) -> bool {
    let h = data.spec_file_ptr();
    exists|x: Error|
        #[trigger] h.spec_locked(mode.spec_exclusive(), mode.spec_blocking(), pair, Err(x)) && err
            == spec_normalize(h.spec_platform(), mode.spec_blocking(), x)
}

/// That the lock call asked of `data`'s handle in `mode` over `pair` succeeded.
pub open spec fn lock_granted<T: FlockElement>(data: T, mode: FlockMode, pair: (u64, u64)) -> bool {
    data.spec_file_ptr().spec_locked(mode.spec_exclusive(), mode.spec_blocking(), pair, Ok(()))
}

/// What a lock attempt in `mode` over the platform numbers `pair` promises: the lock call
/// is asked of the resource's handle in that mode over `pair`; if it succeeds, a guard that
/// holds the resource handed in and remembers `pair`; if it fails, an error that hands the
/// resource back with the platform's error.
pub open spec fn lock_post<T: FlockElement>(
    data: T,
    mode: FlockMode,
    pair: (u64, u64),
    r: Result<FlockLock<T>, FlockError<T>>,
) -> bool {
    match r {
        Ok(g) => g.is_locked() && g.spec_data() == data && g.spec_range() == pair && lock_granted(
            data,
            mode,
            pair,
        ),
        Err(e) => e.spec_data() == data && lock_failed(data, mode, pair, e.spec_err()),
    }
}

/// What a lock attempt in `mode` over `range` promises: a range that fails validation gives
/// its error with no call to the platform; a valid one is locked over its platform numbers.
pub open spec fn lock_range_post<T: FlockElement>(
    data: T,
    mode: FlockMode,
    range: FlockRange,
    r: Result<FlockLock<T>, FlockError<T>>,
) -> bool {
    match range.spec_check_and_get() {
        Err(re) => r matches Err(e) && e.spec_data() == data && e.spec_err() == re.spec_io_error(),
        Ok(pair) => lock_post(data, mode, pair, r),
    }
}

/// What a lock attempt of the callback form in `mode` promises, where `checked` is the
/// outcome of validating and resolving the range: on a granted lock, the callback's own
/// result, from a guard over the resource handed in, inside `Ok`; otherwise an error that
/// hands back the resource and the callback, which did not run, with the range's error or
/// the platform's.
pub open spec fn lock_fn_post<T: FlockElement, R, F: FnOnce(FlockLock<T>) -> R>(
    data: T,
    mode: FlockMode,
    checked: Result<(u64, u64), FlockRangeErr>,
    f: F,
    r: Result<R, FlockFnError<T, F>>,
) -> bool {
    match r {
        Ok(x) => checked matches Ok(pair) && lock_granted(data, mode, pair) && exists|
            g: FlockLock<T>,
        |
            g.is_locked() && g.spec_data() == data && g.spec_range() == pair && #[trigger] call_ensures(
                f,
                (g,),
                x,
            ),
        Err(e) => e.spec_data() == data && e.spec_function() == f && match checked {
            Err(re) => e.spec_err() == re.spec_io_error(),
            Ok(pair) => lock_failed(data, mode, pair, e.spec_err()),
        },
    }
}

/// Every guard is a valid argument of the callback.
pub open spec fn accepts_guard<T: FlockElement, R, F: FnOnce(FlockLock<T>) -> R>(f: F) -> bool {
    forall|g: FlockLock<T>| g.is_locked() ==> #[trigger] call_requires(f, (g,))
}

impl<T: FlockElement> FlockLock<T> {
    /// Whether the guard still holds its lock.
    pub closed spec fn is_locked(self) -> bool {
        self.data is Some
    }

    /// The resource that the guard holds.
    pub closed spec fn spec_data(self) -> T {
        self.data->Some_0
    }

    /// The platform numbers that were locked, and that the release names again.
    pub closed spec fn spec_range(self) -> (u64, u64) {
        self.range.spec_pair()
    }

    /// The guard once released: it holds nothing, and a further release does nothing.
    pub closed spec fn spec_released(self) -> FlockLock<T> {
        FlockLock { data: None, range: self.range }
    }

    /// Builds the outcome of a lock request from what the platform returned.
    pub(crate) fn lock_outcome(
        data: T,
        pair: (u64, u64),
        platform: FlockPlatform,
        blocking: bool,
        raw: Result<(), Error>,
    ) -> (r: Result<FlockLock<T>, FlockError<T>>)
        requires
            pair_legal(pair),
        ensures
            match raw {
                Ok(()) => r matches Ok(g) && g.is_locked() && g.spec_data() == data
                    && g.spec_range() == pair,
                Err(x) => r matches Err(e) && e.spec_data() == data && e.spec_err()
                    == spec_normalize(platform, blocking, x),
            },
    {
        match raw {
            Ok(()) => Ok(FlockLock { data: Some(data), range: FlockSysRange::new(pair) }),
            Err(x) => Err(FlockError::new(data, normalize_lock_error(platform, blocking, x))),
        }
    }

    /// Asks the platform for a lock of `mode` over the platform numbers `pair`.
    fn lock_pair(data: T, mode: FlockMode, pair: (u64, u64)) -> (r: Result<
        FlockLock<T>,
        FlockError<T>,
    >)
        requires
            pair_legal(pair),
        ensures
            lock_post(data, mode, pair, r),
    {
        let ptr = data.as_file_ptr();
        let blocking = mode.is_blocking();
        let raw = ptr.raw_lock(mode.is_exclusive(), blocking, pair);
        let platform = ptr.platform();
        let ghost answer = raw;
        let r = FlockLock::lock_outcome(data, pair, platform, blocking, raw);
        proof {
            match answer {
                Ok(u) => assert(u == ()),
                Err(x) => assert(ptr.spec_locked(mode.spec_exclusive(), blocking, pair, Err(x))),
            }
        }
        r
    }

    /// Locks the whole resource in `mode`.
    pub fn lock(data: T, mode: FlockMode) -> (r: Result<FlockLock<T>, FlockError<T>>)
        ensures
            lock_post(data, mode, whole_file(), r),
    {
        FlockLock::lock_pair(data, mode, (FLOCK_PNUM_MIN, FLOCK_PNUM_MAX))
    }

    /// Locks `range` of the resource in `mode`, once the range passes validation.
    pub fn lock_range(data: T, mode: FlockMode, range: FlockRange) -> (r: Result<
        FlockLock<T>,
        FlockError<T>,
    >)
        ensures
            lock_range_post(data, mode, range, r),
    {
        match range.check_range_and_get() {
            Ok(pair) => FlockLock::lock_pair(data, mode, pair),
            Err(re) => Err(FlockError::new(data, re.make_io_error())),
        }
    }

    /// Locks `range` of the resource in `mode` and runs `f` on the guard; the lock is
    /// released when `f` is done with the guard.
    pub fn lock_range_fn<R, F: FnOnce(FlockLock<T>) -> R>(
        data: T,
        mode: FlockMode,
        range: FlockRange,
        f: F,
    ) -> (r: Result<R, FlockFnError<T, F>>)
        requires
            accepts_guard::<T, R, F>(f),
        ensures
            lock_fn_post(data, mode, range.spec_check_and_get(), f, r),
    {
        match FlockLock::lock_range(data, mode, range) {
            Ok(g) => {
                let ghost held = g;
                let x = f(g);
                let r: Result<R, FlockFnError<T, F>> = Ok(x);
                assert(call_ensures(f, (held,), r->Ok_0));
                r
            },
            Err(e) => {
                let (data, err) = e.into_all();
                Err(FlockFnError::new(data, f, err))
            },
        }
    }

    /// Locks the whole resource in `mode` and runs `f` on the guard.
    pub fn lock_fn<R, F: FnOnce(FlockLock<T>) -> R>(data: T, mode: FlockMode, f: F) -> (r: Result<
        R,
        FlockFnError<T, F>,
    >)
        requires
            accepts_guard::<T, R, F>(f),
        ensures
            lock_fn_post(data, mode, Ok(whole_file()), f, r),
    {
        FlockLock::lock_range_fn(data, mode, FlockRange::full(), f)
    }

    /// Takes the resource out and releases its lock, if the guard still holds one. This
    /// is the one place that releases: the unlock call on the resource's handle, over the
    /// locked range, is made exactly when the result is `Some`, and its answer is the one
    /// returned; afterwards the guard holds nothing.
    fn take_and_unlock(&mut self) -> (r: Option<(T, Result<(), Error>)>)
        ensures
            r is Some <==> old(self).is_locked(),
            r matches Some((d, res)) ==> d == old(self).spec_data()
                && d.spec_file_ptr().spec_unlocked(old(self).spec_range(), res),
            *final(self) == old(self).spec_released(),
    {
        match self.data.take() {
            Some(d) => {
                let result = d.as_file_ptr().raw_unlock(self.range.pair());
                Some((d, result))
            },
            None => None,
        }
    }

    /// The resource, while the lock is held.
    pub fn as_data(&self) -> (r: &T)
        requires
            self.is_locked(),
        ensures
            *r == self.spec_data(),
    {
        self.data.as_ref().unwrap()
    }

    /// The resource, to use in place while the lock is held.
    pub fn as_mut_data(&mut self) -> (r: &mut T)
        requires
            old(self).is_locked(),
        ensures
            *r == old(self).spec_data(),
            final(self).is_locked(),
            final(self).spec_data() == *final(r),
            final(self).spec_range() == old(self).spec_range(),
    {
        self.data.as_mut().unwrap()
    }

    /// The platform numbers that were locked.
    pub fn range(&self) -> (r: (u64, u64))
        ensures
            r == self.spec_range(),
            pair_legal(r),
    {
        self.range.pair()
    }

    /// Releases the lock and gives the platform's answer; the resource is dropped.
    pub fn unlock(self) -> (r: Result<(), Error>)
        requires
            self.is_locked(),
        ensures
            self.spec_data().spec_file_ptr().spec_unlocked(self.spec_range(), r),
    {
        let mut guard = self;
        let (_, result) = guard.take_and_unlock().unwrap();
        result
    }

    /// Releases the lock, ignoring the platform's answer; the resource is dropped.
    pub fn unlock_no_err_result(self)
        requires
            self.is_locked(),
        ensures
            exists|res: Result<(), Error>|
                self.spec_data().spec_file_ptr().spec_unlocked(self.spec_range(), res),
    {
        let mut guard = self;
        let _ = guard.take_and_unlock();
    }

    /// Releases the lock and hands back the resource with the platform's answer.
    pub fn unlock_data(self) -> (r: (T, Result<(), Error>))
        requires
            self.is_locked(),
        ensures
            r.0 == self.spec_data(),
            self.spec_data().spec_file_ptr().spec_unlocked(self.spec_range(), r.1),
    {
        let mut guard = self;
        guard.take_and_unlock().unwrap()
    }

    /// Releases the lock, ignoring the platform's answer, and hands back the resource.
    pub fn unlock_data_no_err_result(self) -> (r: T)
        requires
            self.is_locked(),
        ensures
            r == self.spec_data(),
            exists|res: Result<(), Error>|
                self.spec_data().spec_file_ptr().spec_unlocked(self.spec_range(), res),
    {
        let mut guard = self;
        let (data, _) = guard.take_and_unlock().unwrap();
        data
    }
}

/// How many of `n` successive releases of `g` find the resource in the guard. By the
/// contract of `take_and_unlock`, a release makes the platform's unlock call (its answer
/// meets `spec_unlocked`) exactly when it finds the resource, so this counts unlock calls.
pub open spec fn releases_that_unlock<T: FlockElement>(g: FlockLock<T>, n: nat) -> nat
    decreases n,
{
    if n == 0 {
        0
    } else {
        (if g.is_locked() {
            1nat
        } else {
            0nat
        }) + releases_that_unlock(g.spec_released(), (n - 1) as nat)
    }
}

/// Release happens exactly once: however many times a held guard is released (by an
/// `unlock` method, then by its destructor), exactly one of those releases finds the
/// resource and so makes the unlock call; the released guard keeps the locked range.
pub proof fn lemma_release_exactly_once<T: FlockElement>(g: FlockLock<T>, n: nat)
    requires
        g.is_locked(),
        n >= 1,
    ensures
        releases_that_unlock(g, n) == 1,
        g.spec_released().spec_range() == g.spec_range(),
{
    lemma_released_makes_no_call(g.spec_released(), (n - 1) as nat);
}

/// A released guard is never found holding the resource again, however often it is
/// released.
proof fn lemma_released_makes_no_call<T: FlockElement>(g: FlockLock<T>, n: nat)
    requires
        !g.is_locked(),
    ensures
        releases_that_unlock(g, n) == 0,
    decreases n,
{
    if n > 0 {
        lemma_released_makes_no_call(g.spec_released(), (n - 1) as nat);
    }
}

/// The callback form keeps the callback's failure apart from the lock's: when the
/// callback can only fail with `x`, a granted lock gives `Ok(Err(x))`, while a lock that was
/// not granted gives `Err` with the resource and the callback handed back and the
/// platform's error, and a refused range gives its own range error.
pub proof fn lemma_callback_error_stays_inside_ok<T: FlockElement, U, E, F: FnOnce(FlockLock<T>) -> Result<U, E>>(
    data: T,
    mode: FlockMode,
    checked: Result<(u64, u64), FlockRangeErr>,
    f: F,
    r: Result<Result<U, E>, FlockFnError<T, F>>,
    x: E,
)
    requires
        lock_fn_post(data, mode, checked, f, r),
        forall|g: FlockLock<T>, y: Result<U, E>| #[trigger] call_ensures(f, (g,), y) ==> y == Err::<U, E>(x),
    ensures
        r is Ok ==> (checked matches Ok(pair) && lock_granted(data, mode, pair)),
        r is Ok ==> r->Ok_0 == Err::<U, E>(x),
        r is Err ==> r->Err_0.spec_data() == data && r->Err_0.spec_function() == f,
        checked matches Err(re) ==> r matches Err(e) && e.spec_err() == re.spec_io_error(),
        r is Err ==> (checked matches Ok(pair) ==> lock_failed(data, mode, pair, r->Err_0.spec_err())),
{
}

impl<T: FlockElement> Drop for FlockLock<T> {
    /// Releases the lock if the guard still holds it, through the one release function;
    /// after an `unlock` method the guard is already released and this does nothing.
    #[verifier::external_body]
    fn drop(&mut self)
        opens_invariants none
        no_unwind
    {
        let _ = self.take_and_unlock();
    }
}

} // verus!
