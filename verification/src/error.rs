//! Failures of the persistence layer, as the handlers see them.

use crate::text::{contains, occurs_in};
use vstd::prelude::*;

verus! {

/// A failure that the store reported for one statement: no connection, a violated constraint,
/// a statement it could not run, or a row that is not there. Its wording is for the service
/// alone: no answer shows it.
#[derive(Debug, PartialEq, Eq)]
pub struct PersistenceError {
    /// The failure in the store's words.
    pub message: String,
}

/// The mathematical value of a failure.
pub struct PersistenceErrorView {
    pub message: Seq<char>,
}

impl View for PersistenceError {
    type V = PersistenceErrorView;

    open spec fn view(&self) -> PersistenceErrorView {
        PersistenceErrorView { message: self.message@ }
    }
}

/// The words by which the store reports that a row would repeat a unique value.
pub const UNIQUE_VIOLATION: &'static str = "duplicate key value violates unique constraint";

impl PersistenceErrorView {
    /// Whether the failure is a violated unique constraint.
    pub open spec fn is_unique_violation(self) -> bool {
        occurs_in(UNIQUE_VIOLATION@, self.message)
    }
}

impl PersistenceError {
    /// A failure with the given wording.
    pub fn new(message: String) -> (error: PersistenceError)
        ensures
            error@ == (PersistenceErrorView { message: message@ }),
    {
        PersistenceError { message }
    }

    /// Whether the failure is a violated unique constraint. The endpoints answer such a
    /// failure as they answer any other.
    pub fn is_unique_violation(&self) -> (conflict: bool)
        ensures
            conflict == self@.is_unique_violation(),
    {
        contains(self.message.as_str(), UNIQUE_VIOLATION)
    }
}

impl Clone for PersistenceError {
    fn clone(&self) -> (copy: Self)
        ensures
            copy == *self,
    {
        PersistenceError { message: self.message.clone() }
    }
}

} // verus!
