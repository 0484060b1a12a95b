//! Instants as plain numbers.

use vstd::prelude::*;

verus! {

/// An instant as seconds since the Unix epoch, UTC, and the nanoseconds
/// within that second.
#[derive(Debug, Clone, Copy, PartialEq, Eq, Structural)]
pub struct Timestamp {
    pub seconds: i64,
    pub nanoseconds: u32,
}

} // verus!
