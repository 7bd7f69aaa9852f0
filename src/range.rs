//! The byte range that a lock covers, its validation and its platform numbers.

use vstd::prelude::*;

verus! {

/// The smallest platform number a range may hold.
pub const FLOCK_PNUM_MIN: u64 = 0;

/// The largest platform number a range may hold (a `DWORD`, as `LockFileEx` takes).
pub const FLOCK_PNUM_MAX: u64 = 0xFFFF_FFFF;

/// Whether `n` lies within the platform numbers.
pub open spec fn pnum_valid(n: u64) -> bool {
    FLOCK_PNUM_MIN <= n <= FLOCK_PNUM_MAX
}

/// Whether platform numbers `(start, end)` may be handed to the system: both lie within
/// the platform numbers and the start is not after the end.
pub open spec fn pair_legal(pair: (u64, u64)) -> bool {
    pnum_valid(pair.0) && pnum_valid(pair.1) && pair.0 <= pair.1
}

/// How a range names its bounds.
#[derive(Clone, Copy, Debug, PartialEq, Eq, Structural)]
pub enum FlockRangeShape {
    /// A single position: `(p, p)`.
    OnePos(u64),
    /// The platform's whole extent: `(min, max)`.
    Full,
    /// A start, up to the platform maximum: `(s, max)`.
    StartPos(u64),
    /// From the platform minimum up to an end: `(min, e)`.
    EndPos(u64),
    /// An explicit start and end: `(s, e)`.
    Core(u64, u64),
}

/// Why a range was refused.
#[derive(Clone, Copy, Debug, PartialEq, Eq, Structural)]
pub enum FlockRangeErr {
    /// The start lies outside the platform numbers.
    InvalidStartPos(u64),
    /// The end lies outside the platform numbers.
    InvalidEndPos(u64),
    /// The start lies after the end.
    InvalidStartEndPos(u64, u64),
    /// The single position lies outside the platform numbers.
    InvalidShortRange(u64),
}

impl FlockRangeShape {
    /// The platform numbers `(start, end)` that the shape stands for.
    pub open spec fn resolve(self) -> (u64, u64) {
        match self {
            FlockRangeShape::OnePos(p) => (p, p),
            FlockRangeShape::Full => (FLOCK_PNUM_MIN, FLOCK_PNUM_MAX),
            FlockRangeShape::StartPos(s) => (s, FLOCK_PNUM_MAX),
            FlockRangeShape::EndPos(e) => (FLOCK_PNUM_MIN, e),
            FlockRangeShape::Core(s, e) => (s, e),
        }
    }

    /// The outcome of validation, rules taken in order.
    pub open spec fn validate(self) -> Result<(), FlockRangeErr> {
        match self {
            FlockRangeShape::OnePos(p) => if pnum_valid(p) {
                Ok(())
            } else {
                Err(FlockRangeErr::InvalidShortRange(p))
            },
            FlockRangeShape::Full => Ok(()),
            FlockRangeShape::StartPos(s) => if pnum_valid(s) {
                Ok(())
            } else {
                Err(FlockRangeErr::InvalidStartPos(s))
            },
            FlockRangeShape::EndPos(e) => if pnum_valid(e) {
                Ok(())
            } else {
                Err(FlockRangeErr::InvalidEndPos(e))
            },
            FlockRangeShape::Core(s, e) => if !pnum_valid(s) {
                Err(FlockRangeErr::InvalidStartPos(s))
            } else if !pnum_valid(e) {
                Err(FlockRangeErr::InvalidEndPos(e))
            } else if s > e {
                Err(FlockRangeErr::InvalidStartEndPos(s, e))
            } else {
                Ok(())
            },
        }
    }

    /// A legal range: both numbers within the platform numbers, the start not after the end.
    pub open spec fn is_legal(self) -> bool {
        pair_legal(self.resolve())
    }
}

/// Validation accepts exactly the legal ranges: a shape passes when, and only when, its
/// platform numbers both lie within the platform's extent and the start is not after the
/// end. So an inverted or out-of-bound range never resolves to numbers for the system.
pub proof fn lemma_validate_iff_legal(shape: FlockRangeShape)
    ensures
        shape.validate() is Ok <==> shape.is_legal(),
{
}

/// Platform numbers `(start, end)` that passed validation: what a lock call is handed,
/// and what its unlock call names again.
#[derive(Clone, Copy, Debug)]
pub struct FlockSysRange {
    start: u64,
    end: u64,
}

impl FlockSysRange {
    #[verifier::type_invariant]
    spec fn inv(self) -> bool {
        pair_legal((self.start, self.end))
    }

    /// The platform numbers.
    pub closed spec fn spec_pair(self) -> (u64, u64) {
        (self.start, self.end)
    }

    /// Holds platform numbers known to be legal.
    pub(crate) fn new(pair: (u64, u64)) -> (r: FlockSysRange)
        requires
            pair_legal(pair),
        ensures
            r.spec_pair() == pair,
    {
        FlockSysRange { start: pair.0, end: pair.1 }
    }

    /// The platform numbers; they are legal.
    pub fn pair(&self) -> (r: (u64, u64))
        ensures
            r == self.spec_pair(),
            pair_legal(r),
    {
        proof {
            use_type_invariant(self);
        }
        (self.start, self.end)
    }
}

/// A range to lock: a shape, and whether it is checked before each use.
///
/// An unchecked range is always legal: it is made only from the full range or from a
/// range known to be legal.
#[derive(Clone, Copy, Debug)]
pub struct FlockRange {
    shape: FlockRangeShape,
    check: bool,
}

impl FlockRange {
    #[verifier::type_invariant]
    spec fn inv(self) -> bool {
        !self.check ==> self.shape.validate() is Ok
    }

    /// The shape of the range.
    pub closed spec fn spec_shape(self) -> FlockRangeShape {
        self.shape
    }

    /// Whether the range is validated before each use.
    pub closed spec fn spec_checked(self) -> bool {
        self.check
    }

    /// The platform numbers of the range.
    pub open spec fn spec_get(self) -> (u64, u64) {
        self.spec_shape().resolve()
    }

    /// The outcome of validation: an unchecked range is not examined.
    pub open spec fn spec_check(self) -> Result<(), FlockRangeErr> {
        if self.spec_checked() {
            self.spec_shape().validate()
        } else {
            Ok(())
        }
    }

    /// The outcome of validation followed by resolution.
    pub open spec fn spec_check_and_get(self) -> Result<(u64, u64), FlockRangeErr> {
        match self.spec_check() {
            Ok(()) => Ok(self.spec_get()),
            Err(e) => Err(e),
        }
    }

    /// The range that covers the platform's whole extent. It needs no check.
    pub fn full() -> (r: FlockRange)
        ensures
            r.spec_shape() == FlockRangeShape::Full,
            !r.spec_checked(),
    {
        FlockRange { shape: FlockRangeShape::Full, check: false }
    }

    /// A checked range of one position.
    pub fn new_one_position(pos: u64) -> (r: FlockRange)
        ensures
            r.spec_shape() == FlockRangeShape::OnePos(pos),
            r.spec_checked(),
    {
        FlockRange { shape: FlockRangeShape::OnePos(pos), check: true }
    }

    /// A checked range from `start_pos` up to the platform maximum.
    pub fn from_startpos(start_pos: u64) -> (r: FlockRange)
        ensures
            r.spec_shape() == FlockRangeShape::StartPos(start_pos),
            r.spec_checked(),
    {
        FlockRange { shape: FlockRangeShape::StartPos(start_pos), check: true }
    }

    /// A checked range from the platform minimum up to `end_pos`.
    pub fn from_endpos(end_pos: u64) -> (r: FlockRange)
        ensures
            r.spec_shape() == FlockRangeShape::EndPos(end_pos),
            r.spec_checked(),
    {
        FlockRange { shape: FlockRangeShape::EndPos(end_pos), check: true }
    }

    /// A checked range with an explicit start and end.
    pub fn new(start: u64, end: u64) -> (r: FlockRange)
        ensures
            r.spec_shape() == FlockRangeShape::Core(start, end),
            r.spec_checked(),
    {
        FlockRange { shape: FlockRangeShape::Core(start, end), check: true }
    }

    /// A checked range from a core range: its start and its end, taken as they are.
    pub fn from_core(range: core::ops::Range<u64>) -> (r: FlockRange)
        ensures
            r.spec_shape() == FlockRangeShape::Core(range.start, range.end),
            r.spec_checked(),
    {
        FlockRange::new(range.start, range.end)
    }

    /// A checked range of the given shape.
    pub fn from_shape(shape: FlockRangeShape) -> (r: FlockRange)
        ensures
            r.spec_shape() == shape,
            r.spec_checked(),
    {
        FlockRange { shape, check: true }
    }

    /// The shape of the range.
    pub fn shape(&self) -> (r: FlockRangeShape)
        ensures
            r == self.spec_shape(),
    {
        self.shape
    }

    /// Whether the range is validated before each use.
    pub fn is_en_range_check(&self) -> (r: bool)
        ensures
            r == self.spec_checked(),
    {
        self.check
    }

    /// Whether the range is a single position.
    pub fn is_one_pos(&self) -> (r: bool)
        ensures
            r == self.spec_shape() is OnePos,
    {
        matches!(self.shape, FlockRangeShape::OnePos(_))
    }

    /// The position of a single-position range.
    pub fn get_sys_one_pos(&self) -> (r: Option<u64>)
        ensures
            r == (match self.spec_shape() {
                FlockRangeShape::OnePos(p) => Some(p),
                _ => None,
            }),
    {
        match self.shape {
            FlockRangeShape::OnePos(p) => Some(p),
            _ => None,
        }
    }

    /// The platform numbers `(start, end)` of the range.
    pub fn get(&self) -> (r: (u64, u64))
        ensures
            r == self.spec_get(),
    {
        match self.shape {
            FlockRangeShape::OnePos(p) => (p, p),
            FlockRangeShape::Full => (FLOCK_PNUM_MIN, FLOCK_PNUM_MAX),
            FlockRangeShape::StartPos(s) => (s, FLOCK_PNUM_MAX),
            FlockRangeShape::EndPos(e) => (FLOCK_PNUM_MIN, e),
            FlockRangeShape::Core(s, e) => (s, e),
        }
    }

    /// Validates the range; an unchecked range is not examined.
    pub fn check_range(&self) -> (r: Result<(), FlockRangeErr>)
        ensures
            r == self.spec_check(),
    {
        if !self.check {
            return Ok(());
        }
        match self.shape {
            FlockRangeShape::OnePos(p) => if FLOCK_PNUM_MIN <= p && p <= FLOCK_PNUM_MAX {
                Ok(())
            } else {
                Err(FlockRangeErr::InvalidShortRange(p))
            },
            FlockRangeShape::Full => Ok(()),
            FlockRangeShape::StartPos(s) => if FLOCK_PNUM_MIN <= s && s <= FLOCK_PNUM_MAX {
                Ok(())
            } else {
                Err(FlockRangeErr::InvalidStartPos(s))
            },
            FlockRangeShape::EndPos(e) => if FLOCK_PNUM_MIN <= e && e <= FLOCK_PNUM_MAX {
                Ok(())
            } else {
                Err(FlockRangeErr::InvalidEndPos(e))
            },
            FlockRangeShape::Core(s, e) => if !(FLOCK_PNUM_MIN <= s && s <= FLOCK_PNUM_MAX) {
                Err(FlockRangeErr::InvalidStartPos(s))
            } else if !(FLOCK_PNUM_MIN <= e && e <= FLOCK_PNUM_MAX) {
                Err(FlockRangeErr::InvalidEndPos(e))
            } else if s > e {
                Err(FlockRangeErr::InvalidStartEndPos(s, e))
            } else {
                Ok(())
            },
        }
    }

    /// Whether the range passes validation.
    pub fn is_valid_range(&self) -> (r: bool)
        ensures
            r == self.spec_check() is Ok,
    {
        self.check_range().is_ok()
    }

    /// Validates the range, then gives its platform numbers.
    pub fn check_range_and_get(&self) -> (r: Result<(u64, u64), FlockRangeErr>)
        ensures
            r == self.spec_check_and_get(),
            r matches Ok(pair) ==> pair_legal(pair),
    {
        proof {
            use_type_invariant(self);
            lemma_validate_iff_legal(self.shape);
        }
        match self.check_range() {
            Ok(()) => Ok(self.get()),
            Err(e) => Err(e),
        }
    }

    /// The same range, validated before each use.
    pub fn into_checked(self) -> (r: FlockRange)
        ensures
            r.spec_shape() == self.spec_shape(),
            r.spec_checked(),
    {
        FlockRange { shape: self.shape, check: true }
    }

    /// The same range, no longer validated: only for a range that passes validation.
    /// It resolves to the same platform numbers.
    pub fn into_ignore_rangechecker(self) -> (r: FlockRange)
        requires
            self.spec_shape().validate() is Ok,
        ensures
            r.spec_shape() == self.spec_shape(),
            !r.spec_checked(),
            r.spec_get() == self.spec_get(),
    {
        FlockRange { shape: self.shape, check: false }
    }

    /// Validates the range and, if it passes, gives it back unchecked; else gives back
    /// the range and why it was refused.
    pub fn into_check_range(self) -> (r: Result<FlockRange, (FlockRange, FlockRangeErr)>)
        ensures
            match self.spec_check() {
                Ok(()) => r matches Ok(u) && u.spec_shape() == self.spec_shape() && !u.spec_checked()
                    && u.spec_get() == self.spec_get(),
                Err(e) => r == Err::<FlockRange, (FlockRange, FlockRangeErr)>((self, e)),
            },
    {
        proof {
            use_type_invariant(&self);
        }
        match self.check_range() {
            Ok(()) => Ok(self.into_ignore_rangechecker()),
            Err(e) => Err((self, e)),
        }
    }
}

/// Two ranges are equal when they stand for the same platform numbers.
impl PartialEq for FlockRange {
    fn eq(&self, other: &FlockRange) -> (r: bool) {
        let (s1, e1) = self.get();
        let (s2, e2) = other.get();
        s1 == s2 && e1 == e2
    }
}

impl vstd::std_specs::cmp::PartialEqSpecImpl for FlockRange {
    open spec fn obeys_eq_spec() -> bool {
        true
    }

    open spec fn eq_spec(&self, other: &FlockRange) -> bool {
        self.spec_get() == other.spec_get()
    }
}

} // verus!
