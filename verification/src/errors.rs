//! The two errors a pool reports to its callers.

use vstd::prelude::*;

verus! {

/// The error of a fail-fast start that did not fill every slot in time.
#[derive(Clone, Copy, Debug, PartialEq, Eq, Structural)]
pub struct InitializationError;

impl InitializationError {
    /// A short description of the error.
    pub fn description(&self) -> (text: &'static str)
        ensures
            text@ == "Unable to initialize connections"@,
    {
        "Unable to initialize connections"
    }
}

/// The error of a checkout that found no connection before its deadline.
#[derive(Clone, Copy, Debug, PartialEq, Eq, Structural)]
pub struct GetTimeout;

impl GetTimeout {
    /// A short description of the error.
    pub fn description(&self) -> (text: &'static str)
        ensures
            text@ == "Timed out while waiting for a connection"@,
    {
        "Timed out while waiting for a connection"
    }
}

} // verus!
