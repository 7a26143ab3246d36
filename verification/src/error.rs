//! The library's error type.

use vstd::prelude::*;

verus! {

/// Errors from the program test environment.
#[derive(Debug, PartialEq, Eq)]
pub enum TestFrameWorkError {
    Error(&'static str),
}

impl TestFrameWorkError {
    /// The human-readable description carried by the error.
    pub fn message(&self) -> (r: &'static str)
        ensures
            self matches TestFrameWorkError::Error(m) && r == m,
    {
        match self {
            TestFrameWorkError::Error(m) => m,
        }
    }
}

} // verus!
