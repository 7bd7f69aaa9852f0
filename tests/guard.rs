use cluflock::err::FlockFnError;
use cluflock::sys::{lock_region, normalize_lock_error};
use cluflock::{
    Error, ErrorKind, ExclusiveFlock, FlockElement, FlockError, FlockLock, FlockMode, FlockPlatform,
    FlockRange, FlockRangeErr, RawFile, RawFlock, SharedFlock,
};
use std::cell::{Cell, RefCell};

/// A simulated system lock table for one file, with a log of every call.
#[derive(Default)]
struct Table {
    exclusive: Vec<u32>,
    shared: Vec<u32>,
    lock_calls: usize,
    unlock_calls: usize,
    locked_ranges: Vec<(u64, u64)>,
    unlocked_ranges: Vec<(u64, u64)>,
}

type TableRef = &'static RefCell<Table>;

/// A native handle of one owner (one open file description) on the simulated file.
#[derive(Clone, Copy)]
struct MockFd {
    owner: u32,
    platform: FlockPlatform,
    table: TableRef,
}

impl RawFlock for MockFd {
    // Meaning for specifications only; never called.
    fn spec_platform(&self) -> FlockPlatform {
        self.platform
    }

    // Meaning for specifications only; never called.
    fn spec_locked(&self, _exclusive: bool, _blocking: bool, _range: (u64, u64), _r: Result<(), Error>) -> bool {
        true
    }

    // Meaning for specifications only; never called.
    fn spec_unlocked(&self, _range: (u64, u64), _r: Result<(), Error>) -> bool {
        true
    }

    fn platform(&self) -> FlockPlatform {
        self.platform
    }

    fn raw_lock(&self, exclusive: bool, blocking: bool, range: (u64, u64)) -> Result<(), Error> {
        let mut t = self.table.borrow_mut();
        t.lock_calls += 1;
        t.locked_ranges.push(range);
        // flock: an owner's own lock never conflicts with its new request (it is converted);
        // LockFileEx: every lock counts, the owner's own too.
        let posix = self.platform == FlockPlatform::Posix;
        let blocks = |o: &u32| !(posix && *o == self.owner);
        let held_exclusive = t.exclusive.iter().any(blocks);
        let held_shared = t.shared.iter().any(blocks);
        let conflict = if exclusive { held_exclusive || held_shared } else { held_exclusive };
        if conflict {
            return Err(match (self.platform, blocking) {
                (FlockPlatform::Posix, false) => Error::from_raw_os_error(11, ErrorKind::WouldBlock),
                (FlockPlatform::Windows, false) => Error::from_raw_os_error(33, ErrorKind::Other),
                // a single thread cannot wait for itself
                (_, true) => Error::from_raw_os_error(35, ErrorKind::Other),
            });
        }
        if posix {
            let owner = self.owner;
            t.exclusive.retain(|o| *o != owner);
            t.shared.retain(|o| *o != owner);
        }
        if exclusive {
            t.exclusive.push(self.owner);
        } else {
            t.shared.push(self.owner);
        }
        Ok(())
    }

    fn raw_unlock(&self, range: (u64, u64)) -> Result<(), Error> {
        let mut t = self.table.borrow_mut();
        t.unlock_calls += 1;
        t.unlocked_ranges.push(range);
        let owner = self.owner;
        if let Some(i) = t.exclusive.iter().position(|o| *o == owner) {
            t.exclusive.remove(i);
            Ok(())
        } else if let Some(i) = t.shared.iter().position(|o| *o == owner) {
            t.shared.remove(i);
            Ok(())
        } else {
            Err(Error::from_raw_os_error(158, ErrorKind::Other))
        }
    }
}

/// A resource of the simulated file, with an identity of its own.
struct MockFile {
    id: u32,
    fd: MockFd,
}

impl FlockElement for MockFile {
    type FilePtr = MockFd;

    // Meaning for specifications only; never called.
    fn spec_file_ptr(&self) -> MockFd {
        self.fd
    }

    fn as_file_ptr(&self) -> MockFd {
        self.fd
    }
}

fn table() -> TableRef {
    Box::leak(Box::new(RefCell::new(Table::default())))
}

fn file(id: u32, owner: u32, platform: FlockPlatform, t: &TableRef) -> MockFile {
    MockFile { id, fd: MockFd { owner, platform, table: t } }
}

fn calls(t: &TableRef) -> (usize, usize) {
    let t = t.borrow();
    (t.lock_calls, t.unlock_calls)
}

#[test]
fn drop_releases_once() {
    let t = table();
    let f = file(1, 1, FlockPlatform::Posix, &t);
    {
        let guard = ExclusiveFlock::wait_lock(&f).ok().unwrap();
        assert_eq!(guard.as_data().id, 1);
        assert_eq!(calls(&t), (1, 0));
    }
    assert_eq!(calls(&t), (1, 1));
    assert!(t.borrow().exclusive.is_empty());
}

#[test]
fn unlock_releases_once() {
    let t = table();
    let f = file(1, 1, FlockPlatform::Posix, &t);
    let guard = ExclusiveFlock::try_lock(&f).ok().unwrap();
    assert!(guard.unlock().is_ok());
    assert_eq!(calls(&t), (1, 1));
}

#[test]
fn unlock_no_err_result_releases_once() {
    let t = table();
    let guard = SharedFlock::wait_lock(file(1, 1, FlockPlatform::Posix, &t)).ok().unwrap();
    guard.unlock_no_err_result();
    assert_eq!(calls(&t), (1, 1));
}

#[test]
fn unlock_data_releases_once_and_returns_resource() {
    let t = table();
    let guard = ExclusiveFlock::wait_lock(file(7, 1, FlockPlatform::Posix, &t)).ok().unwrap();
    let (data, result) = guard.unlock_data();
    assert!(result.is_ok());
    assert_eq!(data.id, 7);
    assert_eq!(calls(&t), (1, 1));
    drop(data);
    assert_eq!(calls(&t), (1, 1));
}

#[test]
fn unlock_data_no_err_result_releases_once_and_returns_resource() {
    let t = table();
    let guard = SharedFlock::try_lock(file(8, 1, FlockPlatform::Windows, &t)).ok().unwrap();
    let data = guard.unlock_data_no_err_result();
    assert_eq!(data.id, 8);
    assert_eq!(calls(&t), (1, 1));
    // the resource can be locked again
    let again = ExclusiveFlock::try_lock(data).ok().unwrap();
    drop(again);
    assert_eq!(calls(&t), (2, 2));
}

#[test]
fn unlock_reports_platform_error() {
    let t = table();
    let f = file(1, 1, FlockPlatform::Posix, &t);
    let guard = ExclusiveFlock::try_lock(&f).ok().unwrap();
    // the lock disappears behind the guard's back
    t.borrow_mut().exclusive.clear();
    let err = guard.unlock().err().unwrap();
    assert_eq!(err.raw_os_error(), Some(158));
    assert_eq!(calls(&t), (1, 1));
}

#[test]
fn as_mut_data_keeps_the_lock() {
    let t = table();
    let mut guard = ExclusiveFlock::try_lock(file(1, 1, FlockPlatform::Posix, &t)).ok().unwrap();
    guard.as_mut_data().id = 9;
    assert_eq!(guard.as_data().id, 9);
    assert_eq!(calls(&t), (1, 0));
    drop(guard);
    assert_eq!(calls(&t), (1, 1));
}

#[test]
fn plain_lock_covers_the_whole_extent() {
    let t = table();
    let guard = ExclusiveFlock::try_lock(file(1, 1, FlockPlatform::Windows, &t)).ok().unwrap();
    assert_eq!(guard.range(), (0, 0xFFFF_FFFF));
    drop(guard);
    assert_eq!(t.borrow().locked_ranges, vec![(0, 0xFFFF_FFFF)]);
    assert_eq!(t.borrow().unlocked_ranges, vec![(0, 0xFFFF_FFFF)]);
}

#[test]
fn range_lock_replays_its_range_once() {
    let t = table();
    let guard =
        ExclusiveFlock::try_lock_range(file(1, 1, FlockPlatform::Windows, &t), FlockRange::new(3, 7))
            .ok()
            .unwrap();
    assert_eq!(guard.range(), (3, 7));
    drop(guard);
    assert_eq!(t.borrow().locked_ranges, vec![(3, 7)]);
    assert_eq!(t.borrow().unlocked_ranges, vec![(3, 7)]);
    assert_eq!(calls(&t), (1, 1));
}

#[test]
fn invalid_range_never_reaches_the_system() {
    let t = table();
    let err = SharedFlock::wait_lock_range(file(4, 1, FlockPlatform::Windows, &t), FlockRange::new(7, 3))
        .err()
        .unwrap();
    assert_eq!(calls(&t), (0, 0));
    assert_eq!(err.as_err().kind(), ErrorKind::InvalidInput);
    assert_eq!(err.as_err().range_err(), Some(FlockRangeErr::InvalidStartEndPos(7, 3)));
    assert_eq!(err.as_err().raw_os_error(), None);
    assert_eq!(err.into_data().id, 4);
}

#[test]
fn unchecked_range_is_locked_without_check() {
    let t = table();
    let range = FlockRange::from_startpos(10).into_ignore_rangechecker();
    let guard = FlockLock::lock_range(file(1, 1, FlockPlatform::Windows, &t), FlockMode::WaitShared, range)
        .ok()
        .unwrap();
    assert_eq!(guard.range(), (10, 0xFFFF_FFFF));
}

#[test]
fn failed_lock_returns_the_same_resource() {
    let t = table();
    let a = file(1, 1, FlockPlatform::Posix, &t);
    let _held = ExclusiveFlock::try_lock(&a).ok().unwrap();
    let b = file(2, 2, FlockPlatform::Posix, &t);
    let err = ExclusiveFlock::try_lock(b).err().unwrap();
    assert!(err.is_would_block());
    assert_eq!(err.as_data().id, 2);
    let b = err.into_data();
    assert_eq!(b.id, 2);
    // the resource came back intact and is still usable
    assert!(ExclusiveFlock::try_lock(&b).is_err());
    assert_eq!(calls(&t), (3, 0));
}

#[test]
fn failed_wait_returns_the_same_resource() {
    let t = table();
    let a = file(1, 1, FlockPlatform::Posix, &t);
    let _held = SharedFlock::wait_lock(&a).ok().unwrap();
    let err = ExclusiveFlock::wait_lock(file(5, 2, FlockPlatform::Posix, &t)).err().unwrap();
    assert!(!err.is_would_block());
    assert_eq!(err.as_err().raw_os_error(), Some(35));
    assert_eq!(err.into_data().id, 5);
}

#[test]
fn mutual_exclusion_scenario() {
    let t = table();
    let a = file(1, 1, FlockPlatform::Posix, &t);
    let b = file(2, 2, FlockPlatform::Posix, &t);
    let held = ExclusiveFlock::try_lock(&a).ok().unwrap();
    let refused = ExclusiveFlock::try_lock(&b).err().unwrap();
    assert!(refused.is_would_block());
    assert!(refused.is_already_lock());
    // the error reads as the platform error it carries
    assert_eq!(refused.kind(), ErrorKind::WouldBlock);
    assert_eq!(refused.raw_os_error(), Some(11));
    drop(held);
    let second = ExclusiveFlock::try_lock(&b);
    assert!(second.is_ok());
}

#[test]
fn shared_compatibility_scenario() {
    let t = table();
    let a = file(1, 1, FlockPlatform::Posix, &t);
    let b = file(2, 2, FlockPlatform::Posix, &t);
    let c = file(3, 3, FlockPlatform::Posix, &t);
    let shared_a = SharedFlock::try_lock(&a).ok().unwrap();
    let shared_b = SharedFlock::try_lock(&b).ok().unwrap();
    assert!(ExclusiveFlock::try_lock(&c).err().unwrap().is_would_block());
    drop(shared_a);
    assert!(ExclusiveFlock::try_lock(&c).err().unwrap().is_would_block());
    drop(shared_b);
    assert!(ExclusiveFlock::try_lock(&c).is_ok());
}

#[test]
fn unix_exclusive_two_lock_behavior_onprocess() {
    // flock locks belong to the open file description: the same one locks again at once
    let t = table();
    let f = file(1, 1, FlockPlatform::Posix, &t);
    let one_exclusive = ExclusiveFlock::try_lock(&f);
    let one_exclusive2 = ExclusiveFlock::try_lock(&f);
    let one_exclusive3 = ExclusiveFlock::try_lock(&f);
    assert!(one_exclusive.is_ok());
    assert!(one_exclusive2.is_ok());
    assert!(one_exclusive3.is_ok());
    drop(one_exclusive);
    drop(one_exclusive2);
    drop(one_exclusive3);
    assert_eq!(calls(&t), (3, 3));
}

#[test]
fn windows_two_lock_behavior_onprocess() {
    // LockFileEx counts every lock, the process's own too
    let t = table();
    let f = file(1, 1, FlockPlatform::Windows, &t);
    assert!(ExclusiveFlock::wait_lock(&f).is_ok());

    let one_exclusive = ExclusiveFlock::wait_lock(&f);
    let one_exclusive2 = ExclusiveFlock::try_lock(&f);
    let one_exclusive3 = ExclusiveFlock::try_lock(&f);
    assert!(one_exclusive.is_ok());
    let e2 = one_exclusive2.err().unwrap();
    let e3 = one_exclusive3.err().unwrap();
    // the lock violation of a non-blocking request reads as "would block"
    assert!(e2.is_would_block());
    assert!(e3.is_would_block());
    assert_eq!(e2.as_err().raw_os_error(), Some(33));
}

#[test]
fn windows_blocking_failure_is_not_would_block() {
    let t = table();
    let a = file(1, 1, FlockPlatform::Windows, &t);
    let _held = ExclusiveFlock::wait_lock(&a).ok().unwrap();
    let err = ExclusiveFlock::wait_lock(&a).err().unwrap();
    assert!(!err.is_would_block());
    assert_eq!(err.as_err().kind(), ErrorKind::Other);
}

#[test]
fn normalize_remaps_windows_lock_violation_on_try_only() {
    let violation = Error::from_raw_os_error(33, ErrorKind::Other);
    let r = normalize_lock_error(FlockPlatform::Windows, false, violation);
    assert_eq!(r.kind(), ErrorKind::WouldBlock);
    assert_eq!(r.raw_os_error(), Some(33));
    assert_eq!(normalize_lock_error(FlockPlatform::Windows, true, violation), violation);
    assert_eq!(normalize_lock_error(FlockPlatform::Posix, false, violation), violation);
    let other = Error::from_raw_os_error(5, ErrorKind::Other);
    assert_eq!(normalize_lock_error(FlockPlatform::Windows, false, other), other);
}

#[test]
fn callback_form_propagates_closure_errors() {
    let t = table();
    let f = file(1, 1, FlockPlatform::Posix, &t);
    let r = ExclusiveFlock::wait_lock_fn(&f, |guard: FlockLock<&MockFile>| -> Result<u32, u32> {
        assert_eq!(guard.as_data().id, 1);
        Err(7)
    });
    match r {
        Ok(Err(7)) => {}
        _ => panic!("the closure's own error must come back inside Ok"),
    }
    assert_eq!(calls(&t), (1, 1));

    let ok = SharedFlock::try_lock_fn(&f, |guard: FlockLock<&MockFile>| guard.as_data().id + 1);
    assert!(matches!(ok, Ok(2)));
    assert_eq!(calls(&t), (2, 2));
}

#[test]
fn callback_form_lock_failure_hands_back_closure() {
    let t = table();
    let a = file(1, 1, FlockPlatform::Posix, &t);
    let _held = ExclusiveFlock::try_lock(&a).ok().unwrap();
    let b = file(2, 2, FlockPlatform::Posix, &t);
    let ran = Cell::new(false);
    let r = ExclusiveFlock::try_lock_fn(b, |_guard: FlockLock<MockFile>| -> Result<u32, u32> {
        ran.set(true);
        Ok(1)
    });
    let err: FlockFnError<MockFile, _> = match r {
        Ok(_) => panic!("the lock is held elsewhere"),
        Err(e) => e,
    };
    assert!(!ran.get());
    assert!(err.is_would_block());
    assert_eq!(err.as_data().id, 2);
    assert_eq!(err.as_err().raw_os_error(), Some(11));
    let (data, function, e) = err.into_all();
    assert_eq!(data.id, 2);
    assert_eq!(e.kind(), ErrorKind::WouldBlock);
    // the closure that came back was never run and still works
    drop(_held);
    let guard = ExclusiveFlock::try_lock(data).ok().unwrap();
    assert_eq!(function(guard), Ok(1));
    assert!(ran.get());
}

#[test]
fn callback_form_with_invalid_range() {
    let t = table();
    let r = FlockLock::lock_range_fn(
        file(3, 1, FlockPlatform::Windows, &t),
        FlockMode::TryExclusive,
        FlockRange::new_one_position(0x1_0000_0000),
        |_guard: FlockLock<MockFile>| 0u8,
    );
    let err = match r {
        Ok(_) => panic!("the range is out of bounds"),
        Err(e) => e,
    };
    assert_eq!(err.as_err().range_err(), Some(FlockRangeErr::InvalidShortRange(0x1_0000_0000)));
    assert_eq!(calls(&t), (0, 0));
}

#[test]
fn flock_error_accessors() {
    let t = table();
    let e = Error::from_raw_os_error(11, ErrorKind::WouldBlock);
    let mut err = FlockError::new(file(6, 1, FlockPlatform::Posix, &t), e);
    assert_eq!(err.get_debug_data().id, 6);
    assert_eq!(*err.get_debug_err(), e);
    assert_eq!(*err.as_err(), e);
    assert!(err.is_would_block());
    assert!(err.is_already_lock());
    *err.as_mut_err() = Error::new(ErrorKind::Other);
    assert!(!err.is_would_block());
    assert_eq!(err.as_data().id, 6);
    let (data, e2) = err.into_all();
    assert_eq!(data.id, 6);
    assert_eq!(e2.kind(), ErrorKind::Other);
    assert_eq!(e2.raw_os_error(), None);

    let err = FlockError::new(file(6, 1, FlockPlatform::Posix, &t), e);
    assert_eq!(err.into().id, 6);
    let err = FlockError::new(file(6, 1, FlockPlatform::Posix, &t), e);
    assert_eq!(err.into_err(), e);
    let err = FlockError::new(file(6, 1, FlockPlatform::Posix, &t), e);
    assert_eq!(err.err(), e);
    let err = FlockError::new(file(6, 1, FlockPlatform::Posix, &t), e);
    assert_eq!(err.error(), e);
    let err = FlockError::new(file(6, 1, FlockPlatform::Posix, &t), e);
    assert_eq!(err.value().id, 6);
    let err = FlockError::new(file(6, 1, FlockPlatform::Posix, &t), e);
    let (data, e3) = err.all();
    assert_eq!((data.id, e3), (6, e));
}

#[test]
fn error_constructors() {
    let e = Error::new(ErrorKind::UnsupportedErr);
    assert_eq!(e.kind(), ErrorKind::UnsupportedErr);
    assert_eq!(e.raw_os_error(), None);
    assert_eq!(e.range_err(), None);
    let e = Error::from_raw_os_error(13, ErrorKind::Other);
    assert_eq!(e.raw_os_error(), Some(13));
    assert_eq!(e.with_kind(ErrorKind::WouldBlock).kind(), ErrorKind::WouldBlock);
    assert_eq!(e.with_kind(ErrorKind::WouldBlock).raw_os_error(), Some(13));
    let e = FlockRangeErr::InvalidStartPos(9).make_io_error();
    assert_eq!(e.kind(), ErrorKind::InvalidInput);
    assert_eq!(e.range_err(), Some(FlockRangeErr::InvalidStartPos(9)));
}

#[test]
fn mode_flags() {
    assert!(FlockMode::TryExclusive.is_exclusive());
    assert!(!FlockMode::TryExclusive.is_blocking());
    assert!(FlockMode::WaitExclusive.is_exclusive());
    assert!(FlockMode::WaitExclusive.is_blocking());
    assert!(!FlockMode::TryShared.is_exclusive());
    assert!(!FlockMode::TryShared.is_blocking());
    assert!(!FlockMode::WaitShared.is_exclusive());
    assert!(FlockMode::WaitShared.is_blocking());
}

#[test]
fn raw_file_locks_through_its_handle() {
    let t = table();
    let fd = MockFd { owner: 1, platform: FlockPlatform::Posix, table: t };
    let raw = RawFile::from_ptr(fd);
    assert_eq!(raw.get_file_ptr().owner, 1);
    let guard = ExclusiveFlock::try_lock(raw).ok().unwrap();
    drop(guard);
    assert_eq!(calls(&t), (1, 1));
}

#[test]
fn boxed_and_borrowed_resources_lock() {
    let t = table();
    let mut f = file(1, 1, FlockPlatform::Posix, &t);
    {
        let g = ExclusiveFlock::try_lock(&mut f).ok().unwrap();
        assert_eq!(g.as_data().id, 1);
    }
    let g = ExclusiveFlock::try_lock(Box::new(f)).ok().unwrap();
    let boxed = g.unlock_data_no_err_result();
    assert_eq!(boxed.id, 1);
    assert_eq!(calls(&t), (2, 2));
}

#[test]
fn lock_region_words() {
    assert_eq!(lock_region((3, 7)), (3, 0, 5, 0));
    assert_eq!(lock_region((0, 0xFFFF_FFFF)), (0, 0, 0, 1));
    assert_eq!(lock_region((10, 0xFFFF_FFFF)), (10, 0, 0xFFFF_FFF6, 0));
    assert_eq!(lock_region((0xFFFF_FFFF, 0xFFFF_FFFF)), (0xFFFF_FFFF, 0, 1, 0));
}
