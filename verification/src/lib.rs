//! A small allocation registry that assigns a voice preset identifier to each
//! user on first use and releases it when the user no longer needs one.
//! Assignment is load-balanced: a user gets the least-used preset among those
//! currently available, with ties broken by a uniform random draw.

use vstd::prelude::*;

pub mod registry;
pub mod usage;

verus! {

/// The failures that the registry and the usage counter report.
#[derive(Clone, Copy, Debug, PartialEq, Eq, Structural)]
pub enum RegistryError {
    /// A new assignment was required but the candidate preset list was empty.
    NoCandidate,
    /// A release was requested for a user with no active assignment.
    NotAssigned,
    /// An internal consistency check failed: a duplicate assignment insert, or
    /// a usage decrement for a preset whose count is absent or already zero.
    /// This always indicates a caller or core bug, never a normal condition.
    InvariantViolation,
}

} // verus!
