//! The two recoverable failures of a confinement cell.
//!
//! Both are plain markers: the checked operations of a cell return them as
//! values and never abort.

use vstd::prelude::*;

verus! {

/// A checked access was made by a thread that does not own the cell.
#[derive(Clone, Copy, Debug, PartialEq, Eq, Structural)]
pub struct InvalidThreadAccess;

/// Ownership was requested of a cell whose record is already frozen.
#[derive(Clone, Copy, Debug, PartialEq, Eq, Structural)]
pub struct FailTakeOwnership;

impl InvalidThreadAccess {
    /// The message of this error.
    pub fn to_string(&self) -> (message: String)
        ensures
            message@ == "fragile value accessed from foreign thread"@,
    {
        String::from_str("fragile value accessed from foreign thread")
    }
}

impl FailTakeOwnership {
    /// The message of this error.
    pub fn to_string(&self) -> (message: String)
        ensures
            message@ == "failed to take ownership of value"@,
    {
        String::from_str("failed to take ownership of value")
    }
}

} // verus!
