//! Closed two-variant generic types: `Maybe` for a value that may be absent,
//! `Outcome` for a computation that may fail with a descriptive error.

use vstd::prelude::*;
use vstd::pervasive::unreached;

verus! {

/// A value that is either present (`Present`) or absent (`Absent`).
///
/// Absence is a normal state, not a failure: it carries no cause. A failure
/// with a cause is an [`Outcome`].
#[derive(Debug, PartialEq, Eq)]
pub enum Maybe<T> {
    Present(T),
    Absent,
}

impl<T> Maybe<T> {
    /// Whether a value is present.
    pub fn is_some(&self) -> (r: bool)
        ensures
            r == (self is Present),
    {
        match self {
            Maybe::Present(_) => true,
            Maybe::Absent => false,
        }
    }

    /// Whether the value is absent.
    pub fn is_none(&self) -> (r: bool)
        ensures
            r == (self is Absent),
    {
        match self {
            Maybe::Present(_) => false,
            Maybe::Absent => true,
        }
    }

    /// Moves the contained value out. Calling this on an absent value is a
    /// contract violation, so absence is excluded by precondition.
    pub fn unwrap(self) -> (r: T)
        requires
            self is Present,
        ensures
            r == self->Present_0,
    {
        match self {
            Maybe::Present(v) => v,
            Maybe::Absent => unreached(),
        }
    }

    /// The contained value, or `default` when the value is absent.
    pub open spec fn spec_get_or(self, default: T) -> T {
        match self {
            Maybe::Present(v) => v,
            Maybe::Absent => default,
        }
    }

    /// Applies `f` to the contained value and rewraps the result; passes
    /// absence through unchanged, never invoking `f`.
    pub fn map<U, F: FnOnce(T) -> U>(self, f: F) -> (r: Maybe<U>)
        requires
            self matches Maybe::Present(v) ==> call_requires(f, (v,)),
        ensures
            self is Absent ==> r is Absent,
            self matches Maybe::Present(v) ==> (r matches Maybe::Present(w) && call_ensures(f, (v,), w)),
    {
        match self {
            Maybe::Present(v) => Maybe::Present(f(v)),
            Maybe::Absent => Maybe::Absent,
        }
    }
}

/// Exactly one of `is_some` and `is_none` holds of any `Maybe` value:
/// there is no third state and no overlap.
pub proof fn lemma_maybe_exclusive<T>(m: Maybe<T>)
    ensures
        (m is Present) != (m is Absent),
{
}

/// The result of a computation that either succeeded with a value
/// (`Success`) or failed with a descriptive error (`Failure`).
#[derive(Debug, PartialEq, Eq)]
pub enum Outcome<T, E> {
    Success(T),
    Failure(E),
}

impl<T, E> Outcome<T, E> {
    /// Whether the computation succeeded.
    pub fn is_ok(&self) -> (r: bool)
        ensures
            r == (self is Success),
    {
        match self {
            Outcome::Success(_) => true,
            Outcome::Failure(_) => false,
        }
    }

    /// Whether the computation failed.
    pub fn is_err(&self) -> (r: bool)
        ensures
            r == (self is Failure),
    {
        match self {
            Outcome::Success(_) => false,
            Outcome::Failure(_) => true,
        }
    }

    /// Moves the success value out. Calling this on a failed outcome is a
    /// contract violation, so failure is excluded by precondition.
    pub fn unwrap(self) -> (r: T)
        requires
            self is Success,
        ensures
            r == self->Success_0,
    {
        match self {
            Outcome::Success(v) => v,
            Outcome::Failure(_) => unreached(),
        }
    }
}

/// The two variants of an `Outcome` are mutually exclusive: every value is
/// exactly one of a success and a failure.
pub proof fn lemma_outcome_exclusive<T, E>(o: Outcome<T, E>)
    ensures
        (o is Success) != (o is Failure),
{
}

} // verus!
