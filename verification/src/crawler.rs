//! The crawl engine's entry point: configuration and the `run` driver.
//!
//! `run` seeds the frontier from the spider, then drains it: each pending
//! location is scraped at most once, discovered locations are claimed with
//! deduplication, produced items flow through the bounded channel to the
//! process stage, and the run returns only once the termination condition
//! holds — nothing pending, nothing in flight, channel empty.

use vstd::prelude::*;

use crate::engine::EngineState;
use crate::error::EngineError;
use crate::spider::Spider;

verus! {

/// Configuration for one crawl: the politeness delay between fetch starts
/// and the two worker-pool widths.
pub struct Crawler {
    /// Minimum spacing between two fetch starts, in milliseconds.
    pub delay_ms: u64,
    /// Number of parallel fetch workers a driver may run.
    pub crawling_concurrency: usize,
    /// Number of parallel persistence workers a driver may run; also sizes
    /// the item channel that provides backpressure.
    pub processing_concurrency: usize,
}

/// What one completed run reports: counts of locations and items, with
/// every claimed location and every produced item accounted for.
#[derive(Clone, Copy, Debug, PartialEq, Eq, Structural)]
pub struct Summary {
    /// Unique locations ever enqueued (seeds plus accepted discoveries).
    pub locations_claimed: u64,
    /// Locations whose scrape succeeded.
    pub locations_crawled: u64,
    /// Locations whose scrape failed; each was dropped, not retried.
    pub scrape_errors: u64,
    /// Items pushed into the item channel by successful scrapes.
    pub items_produced: u64,
    /// Items whose processing succeeded.
    pub items_processed: u64,
    /// Items whose processing failed; each was dropped, not retried.
    pub process_errors: u64,
}

/// Hands the item at the channel's front to the spider's process stage and
/// resolves it, counting success or failure.
fn process_one<S: Spider>(spider: &S, st: &mut EngineState<S::Item>)
    requires
        old(st).wf(),
        old(st).channel@.len() > 0,
        old(st).items_in_flight == old(st).channel@.len(),
    ensures
        final(st).wf(),
        final(st).items_in_flight == final(st).channel@.len(),
        final(st).channel@ == old(st).channel@.drop_first(),
        final(st).frontier.claimed_seq() == old(st).frontier.claimed_seq(),
        final(st).frontier.pending_seq() == old(st).frontier.pending_seq(),
        final(st).capacity == old(st).capacity,
        final(st).crawl_in_flight == old(st).crawl_in_flight,
        final(st).crawled_ok == old(st).crawled_ok,
        final(st).scrape_errors == old(st).scrape_errors,
        final(st).items_produced == old(st).items_produced,
        final(st).processed_ok + final(st).process_errors == old(st).processed_ok + old(
            st,
        ).process_errors + 1,
{
    let item = st.pop_item();
    let ok = match spider.process(item) {
        Ok(()) => true,
        Err(_) => false,
    };
    st.finish_item(ok);
}

impl Crawler {
    /// A crawler configuration; validated when `run` starts.
    pub fn new(delay_ms: u64, crawling_concurrency: usize, processing_concurrency: usize) -> (c:
        Crawler)
        ensures
            c.delay_ms == delay_ms,
            c.crawling_concurrency == crawling_concurrency,
            c.processing_concurrency == processing_concurrency,
    {
        Crawler { delay_ms, crawling_concurrency, processing_concurrency }
    }

    /// Crawls to completion: seeds the frontier with the spider's start
    /// locations, scrapes each claimed location exactly once in FIFO order,
    /// claims discoveries with deduplication, and processes every produced
    /// item, then reports the counts.
    ///
    /// A configuration with a zero concurrency is rejected up front, and
    /// that is the only rejection that does not depend on the spider.  In
    /// the returned summary every claimed location is accounted for by
    /// exactly one scrape, and every produced item by exactly one process
    /// call.
    ///
    /// This driver is sequential: a scrape resolves fully before the next
    /// begins, so no two fetches ever overlap.  Waiting on a wall clock is
    /// a driver's duty — the library itself never waits — so a driver that
    /// issues fetches concurrently takes each start time from one shared
    /// `RateLimiter` with `delay_ms` as its interval and sleeps until the
    /// granted instant, and runs at most `crawling_concurrency` fetches and
    /// `processing_concurrency` process calls at once, feeding this same
    /// state machine through `EngineState`.
    pub fn run<S: Spider>(&self, spider: &S) -> (r: Result<Summary, EngineError>)
        ensures
            self.crawling_concurrency == 0 || self.processing_concurrency == 0 ==> r == Result::<
                Summary,
                EngineError,
            >::Err(EngineError::InvalidConfig),
            r matches Err(e) ==> (e == EngineError::InvalidConfig && (self.crawling_concurrency
                == 0 || self.processing_concurrency == 0)) || e == EngineError::TooManyItems,
            r matches Ok(s) ==> s.locations_crawled + s.scrape_errors == s.locations_claimed
                && s.items_processed + s.process_errors == s.items_produced,
    {
        if self.crawling_concurrency == 0 || self.processing_concurrency == 0 {
            return Err(EngineError::InvalidConfig);
        }
        let mut st: EngineState<S::Item> = EngineState::new(self.processing_concurrency);
        let seeds = spider.start_urls();
        st.enqueue_discovered(seeds);
        loop
            invariant
                st.wf(),
                st.crawl_in_flight == 0,
                st.items_in_flight == st.channel@.len(),
                self.crawling_concurrency > 0,
                self.processing_concurrency > 0,
            ensures
                st.wf(),
                st.complete_spec(),
            decreases u64::MAX - st.crawled_ok - st.scrape_errors, st.channel@.len(),
        {
            let next = st.begin_crawl();
            match next {
                Some(loc) => {
                    match spider.scrape(loc) {
                        Ok((items, discovered)) => {
                            st.enqueue_discovered(discovered);
                            let ghost pre_ok = st.crawled_ok;
                            let ghost pre_err = st.scrape_errors;
                            let mut rest = items;
                            while rest.len() > 0
                                invariant
                                    st.wf(),
                                    st.crawl_in_flight == 1,
                                    st.items_in_flight == st.channel@.len(),
                                    st.crawled_ok == pre_ok,
                                    st.scrape_errors == pre_err,
                                    self.crawling_concurrency > 0,
                                    self.processing_concurrency > 0,
                                decreases rest@.len(),
                            {
                                let item = rest.remove(0);
                                if st.items_produced == u64::MAX {
                                    return Err(EngineError::TooManyItems);
                                }
                                match st.try_push_item(item) {
                                    None => {},
                                    Some(back) => {
                                        process_one(spider, &mut st);
                                        match st.try_push_item(back) {
                                            None => {},
                                            Some(_) => {
                                                proof {
                                                    assert(false);
                                                }
                                            },
                                        }
                                    },
                                }
                            }
                            st.finish_crawl(true);
                        },
                        Err(_) => {
                            st.finish_crawl(false);
                        },
                    }
                },
                None => {
                    if st.channel.len() > 0 {
                        process_one(spider, &mut st);
                    } else {
                        break;
                    }
                },
            }
        }
        proof {
            st.lemma_no_lost_work();
        }
        let claimed: usize = st.frontier.claimed_len();
        Ok(
            Summary {
                locations_claimed: claimed as u64,
                locations_crawled: st.crawled_ok,
                scrape_errors: st.scrape_errors,
                items_produced: st.items_produced,
                items_processed: st.processed_ok,
                process_errors: st.process_errors,
            },
        )
    }
}

} // verus!
