//! Errors of lock operations: the platform error, and the errors that hand the
//! resource back to the caller.

use crate::element::FlockElement;
use crate::range::FlockRangeErr;
use vstd::prelude::*;

verus! {

/// The general categories of failure.
#[derive(Clone, Copy, Debug, PartialEq, Eq, Structural)]
pub enum ErrorKind {
    /// The platform could not say what went wrong.
    UnsupportedErr,
    /// The lock is held elsewhere and a non-blocking attempt could not proceed.
    WouldBlock,
    /// A parameter was incorrect: a range that failed validation.
    InvalidInput,
    /// Any other failure that the platform reported.
    Other,
}

/// An error of a lock operation: its kind, the platform's raw code if it reported one,
/// and the refused range if validation failed.
#[derive(Clone, Copy, Debug, PartialEq, Eq, Structural)]
pub struct Error {
    /// The kind of the error.
    pub kind: ErrorKind,
    /// The platform's raw code, if it reported one.
    pub code: Option<i32>,
    /// The refused range, if validation failed.
    pub range: Option<FlockRangeErr>,
}

impl Error {
    /// The kind of the error.
    pub open spec fn spec_kind(self) -> ErrorKind {
        self.kind
    }

    /// The platform's raw code, if it reported one.
    pub open spec fn spec_code(self) -> Option<i32> {
        self.code
    }

    /// The refused range, if validation failed.
    pub open spec fn spec_range(self) -> Option<FlockRangeErr> {
        self.range
    }

    /// An error of the given kind, with no platform code.
    pub fn new(kind: ErrorKind) -> (r: Error)
        ensures
            r.spec_kind() == kind,
            r.spec_code() is None,
            r.spec_range() is None,
    {
        Error { kind, code: None, range: None }
    }

    /// An error that the platform reported with the raw code `code`, of the kind given.
    pub fn from_raw_os_error(code: i32, kind: ErrorKind) -> (r: Error)
        ensures
            r.spec_kind() == kind,
            r.spec_code() == Some(code),
            r.spec_range() is None,
    {
        Error { kind, code: Some(code), range: None }
    }

    /// The same error with another kind.
    pub open spec fn spec_with_kind(self, kind: ErrorKind) -> Error {
        Error { kind, ..self }
    }

    /// The same error with another kind.
    pub fn with_kind(self, kind: ErrorKind) -> (r: Error)
        ensures
            r == self.spec_with_kind(kind),
            r.spec_kind() == kind,
            r.spec_code() == self.spec_code(),
            r.spec_range() == self.spec_range(),
    {
        Error { kind, ..self }
    }

    /// The kind of the error.
    pub fn kind(&self) -> (r: ErrorKind)
        ensures
            r == self.spec_kind(),
    {
        self.kind
    }

    /// The platform's raw code, if it reported one.
    pub fn raw_os_error(&self) -> (r: Option<i32>)
        ensures
            r == self.spec_code(),
    {
        self.code
    }

    /// The refused range, if validation failed.
    pub fn range_err(&self) -> (r: Option<FlockRangeErr>)
        ensures
            r == self.spec_range(),
    {
        self.range
    }
}

impl FlockRangeErr {
    /// The error that a refused range gives: `InvalidInput`, carrying the range error.
    pub open spec fn spec_io_error(self) -> Error {
        Error { kind: ErrorKind::InvalidInput, code: None, range: Some(self) }
    }

    /// The error that a refused range gives.
    pub fn make_io_error(self) -> (r: Error)
        ensures
            r == self.spec_io_error(),
            r.spec_kind() == ErrorKind::InvalidInput,
            r.spec_code() is None,
            r.spec_range() == Some(self),
    {
        Error { kind: ErrorKind::InvalidInput, code: None, range: Some(self) }
    }
}

/// A failed lock attempt: the resource that was handed in, and the error.
pub struct FlockError<T: FlockElement> {
    data: T,
    err: Error,
}

impl<T: FlockElement> FlockError<T> {
    /// The resource handed back.
    pub closed spec fn spec_data(self) -> T {
        self.data
    }

    /// The error.
    pub closed spec fn spec_err(self) -> Error {
        self.err
    }

    /// An error of `err` that hands back `a`.
    pub fn new(a: T, err: Error) -> (r: FlockError<T>)
        ensures
            r.spec_data() == a,
            r.spec_err() == err,
    {
        FlockError { data: a, err }
    }

    /// The resource, for inspection.
    pub fn get_debug_data(&self) -> (r: &T)
        ensures
            *r == self.spec_data(),
    {
        &self.data
    }

    /// The error, for inspection.
    pub fn get_debug_err(&self) -> (r: &Error)
        ensures
            *r == self.spec_err(),
    {
        &self.err
    }

    /// The resource alone.
    pub fn into(self) -> (r: T)
        ensures
            r == self.spec_data(),
    {
        self.into_data()
    }

    /// Whether the attempt would have had to wait for a lock held elsewhere.
    pub fn is_would_block(&self) -> (r: bool)
        ensures
            r == (self.spec_err().spec_kind() == ErrorKind::WouldBlock),
    {
        self.err.kind() == ErrorKind::WouldBlock
    }

    /// Whether the attempt failed because of a lock held elsewhere.
    pub fn is_already_lock(&self) -> (r: bool)
        ensures
            r == (self.spec_err().spec_kind() == ErrorKind::WouldBlock),
    {
        self.is_would_block()
    }

    /// The resource.
    pub fn as_data(&self) -> (r: &T)
        ensures
            *r == self.spec_data(),
    {
        &self.data
    }

    /// The error.
    pub fn as_err(&self) -> (r: &Error)
        ensures
            *r == self.spec_err(),
    {
        &self.err
    }

    /// The error, to change in place; the resource stays.
    pub fn as_mut_err(&mut self) -> (r: &mut Error)
        ensures
            *r == old(self).spec_err(),
            final(self).spec_err() == *final(r),
            final(self).spec_data() == old(self).spec_data(),
    {
        &mut self.err
    }

    /// The resource alone.
    pub fn into_data(self) -> (r: T)
        ensures
            r == self.spec_data(),
    {
        self.data
    }

    /// The resource and the error.
    pub fn into_all(self) -> (r: (T, Error))
        ensures
            r == (self.spec_data(), self.spec_err()),
    {
        (self.data, self.err)
    }

    /// The error alone.
    pub fn into_err(self) -> (r: Error)
        ensures
            r == self.spec_err(),
    {
        self.err
    }

    /// The error alone (the older name of `into_err`).
    pub fn err(self) -> (r: Error)
        ensures
            r == self.spec_err(),
    {
        self.into_err()
    }

    /// The resource and the error (the older name of `into_all`).
    pub fn all(self) -> (r: (T, Error))
        ensures
            r == (self.spec_data(), self.spec_err()),
    {
        self.into_all()
    }

    /// The resource alone (the older name of `into_data`).
    pub fn value(self) -> (r: T)
        ensures
            r == self.spec_data(),
    {
        self.into_data()
    }

    /// The error alone (the older name of `into_err`).
    pub fn error(self) -> (r: Error)
        ensures
            r == self.spec_err(),
    {
        self.into_err()
    }
}

/// A failed lock attempt reads as its error.
impl<T: FlockElement> core::ops::Deref for FlockError<T> {
    type Target = Error;

    fn deref(&self) -> (r: &Error)
        ensures
            *r == self.spec_err(),
    {
        &self.err
    }
}

/// A failed lock attempt of the callback form: the resource, the callback that was
/// never run, and the error.
pub struct FlockFnError<T: FlockElement, F> {
    data: T,
    function: F,
    err: Error,
}

impl<T: FlockElement, F> FlockFnError<T, F> {
    /// The resource handed back.
    pub closed spec fn spec_data(self) -> T {
        self.data
    }

    /// The callback handed back.
    pub closed spec fn spec_function(self) -> F {
        self.function
    }

    /// The error.
    pub closed spec fn spec_err(self) -> Error {
        self.err
    }

    /// An error of `err` that hands back `data` and `function`.
    pub fn new(data: T, function: F, err: Error) -> (r: FlockFnError<T, F>)
        ensures
            r.spec_data() == data,
            r.spec_function() == function,
            r.spec_err() == err,
    {
        FlockFnError { data, function, err }
    }

    /// The resource.
    pub fn as_data(&self) -> (r: &T)
        ensures
            *r == self.spec_data(),
    {
        &self.data
    }

    /// The error.
    pub fn as_err(&self) -> (r: &Error)
        ensures
            *r == self.spec_err(),
    {
        &self.err
    }

    /// Whether the attempt would have had to wait for a lock held elsewhere.
    pub fn is_would_block(&self) -> (r: bool)
        ensures
            r == (self.spec_err().spec_kind() == ErrorKind::WouldBlock),
    {
        self.err.kind() == ErrorKind::WouldBlock
    }

    /// The resource, the callback and the error.
    pub fn into_all(self) -> (r: (T, F, Error))
        ensures
            r == (self.spec_data(), self.spec_function(), self.spec_err()),
    {
        (self.data, self.function, self.err)
    }
}

} // verus!
