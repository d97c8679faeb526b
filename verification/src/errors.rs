//! Failure kinds reported by engine operations.

use vstd::prelude::*;

verus! {

/// Why an engine operation did not complete.
#[derive(Debug, Clone, Copy, PartialEq, Eq, Structural)]
pub enum QIPError {
    /// The engine could not be brought up.
    InitializationFailed,
}

} // verus!
