//! Error taxonomy of the crawl engine.
//!
//! Failures of a single location or item are isolated: they are counted and
//! reported in the final summary, and never abort an otherwise healthy crawl.
//! Only an [`EngineError`] aborts a run.

use vstd::prelude::*;

verus! {

/// A single location's fetch or parse failed.  The engine drops the location
/// (no automatic retry) and records the failure; sibling locations are not
/// affected.
#[derive(Debug)]
pub enum ScrapeError {
    /// The fetch itself failed (network error, protocol error).
    Fetch(String),
    /// The server answered with a non-success status code.
    Status(u16),
    /// The response could not be interpreted.
    Malformed(String),
}

/// A single item's persistence failed.  The engine drops the item and records
/// the failure; later items are not affected.
#[derive(Debug)]
pub enum ProcessError {
    /// Writing the item out failed.
    Io(String),
    /// The item could not be rendered into the persistent form.
    Malformed(String),
}

/// A fatal condition in the engine itself: the run aborts and the error is
/// returned to the caller of `run`.
#[derive(Debug, Clone, Copy, PartialEq, Eq, Structural)]
pub enum EngineError {
    /// The configuration cannot drive a crawl: a concurrency of zero.
    InvalidConfig,
    /// The item counters can no longer be tracked exactly.
    TooManyItems,
}

} // verus!
