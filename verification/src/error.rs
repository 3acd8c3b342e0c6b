//! The error type shared by every fallible operation.

use vstd::prelude::*;

verus! {

/// What kind of request was at fault.
#[derive(Debug, Clone, Copy, PartialEq, Eq, Structural)]
pub enum ErrorKind {
    /// A number, an increment or a combination of units lies outside its valid domain.
    Range,
    /// The request is malformed, whatever its numbers.
    Type,
}

/// The error of a failed operation.
#[derive(Debug, Clone, Copy, PartialEq, Eq, Structural)]
pub struct TemporalError {
    pub kind: ErrorKind,
}

impl TemporalError {
    /// A range error.
    pub fn range() -> (error: TemporalError)
        ensures
            error == (TemporalError { kind: ErrorKind::Range }),
    {
        TemporalError { kind: ErrorKind::Range }
    }

    /// A type error.
    pub fn type_error() -> (error: TemporalError)
        ensures
            error == (TemporalError { kind: ErrorKind::Type }),
    {
        TemporalError { kind: ErrorKind::Type }
    }

    /// The kind of this error.
    pub fn kind(&self) -> (kind: ErrorKind)
        ensures
            kind == self.kind,
    {
        self.kind
    }

    /// Whether this is a range error.
    pub fn is_range(&self) -> (yes: bool)
        ensures
            yes == (self.kind == ErrorKind::Range),
    {
        match self.kind {
            ErrorKind::Range => true,
            ErrorKind::Type => false,
        }
    }

    /// Whether this is a type error.
    pub fn is_type(&self) -> (yes: bool)
        ensures
            yes == (self.kind == ErrorKind::Type),
    {
        match self.kind {
            ErrorKind::Range => false,
            ErrorKind::Type => true,
        }
    }

    /// The conventional name of the error's kind.
    pub fn name(&self) -> (name: &'static str)
        ensures
            name@ == (match self.kind {
                ErrorKind::Range => "RangeError"@,
                ErrorKind::Type => "TypeError"@,
            }),
    {
        match self.kind {
            ErrorKind::Range => "RangeError",
            ErrorKind::Type => "TypeError",
        }
    }
}

/// The range error, as a value for contracts.
pub open spec fn range_error() -> TemporalError {
    TemporalError { kind: ErrorKind::Range }
}

/// The type error, as a value for contracts.
pub open spec fn type_error() -> TemporalError {
    TemporalError { kind: ErrorKind::Type }
}

} // verus!
