use vstd::prelude::*;

verus! {

/// An operating-system error, carried as the raw code that the system
/// reported for the failed call (`GetLastError`).
#[derive(Debug, Clone, Copy, PartialEq, Eq, Structural)]
pub struct OsError {
    pub code: i32,
}

/// The error of a failed hook registration: the `GetLastError` code.
#[derive(Debug, Clone, Copy, PartialEq, Eq, Structural)]
pub struct ErrorCode {
    pub code: u32,
}

} // verus!
