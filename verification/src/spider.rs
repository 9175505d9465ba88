//! The spider capability: the sole interface through which the engine
//! reaches site-specific logic.
//!
//! A spider supplies the seed locations, fetches one location and reports
//! the items and newly discovered locations it yields, and persists one
//! item.  The engine makes no assumption about what a spider returns: every
//! outcome, including every failure, is handled and counted.

use vstd::prelude::*;

use crate::error::ProcessError;
use crate::error::ScrapeError;

verus! {

/// Site-specific crawling logic, plugged into the engine's `run`.
pub trait Spider {
    /// The opaque payload produced by scraping and consumed by processing.
    type Item;

    /// Identifies the spider; used for reporting only.
    fn name(&self) -> String;

    /// The initial seed set; called once per run.
    fn start_urls(&self) -> Vec<String>;

    /// Fetches one location and returns the items it yields and the newly
    /// discovered locations, or a per-location failure.
    fn scrape(&self, url: String) -> Result<(Vec<Self::Item>, Vec<String>), ScrapeError>;

    /// Performs the side effect (persistence) for one item, or fails for
    /// that item alone.
    fn process(&self, item: Self::Item) -> Result<(), ProcessError>;
}

} // verus!
