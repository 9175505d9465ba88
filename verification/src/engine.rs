//! The engine's shared state: the frontier, the bounded item channel, and
//! the in-flight counters that drive termination detection.
//!
//! Every transition of a crawl run goes through one of the methods below:
//! claiming discovered locations, handing a pending location to a crawl
//! worker, pushing produced items into the bounded channel (with
//! backpressure), handing items to a process worker, and resolving each
//! task exactly once.  The crawl is complete exactly when the pending queue
//! is empty, no crawl task is in flight, the channel is empty, and no item
//! is in flight.

use vstd::prelude::*;

use crate::frontier::enqueue_all_spec;
use crate::frontier::views_of;
use crate::frontier::Frontier;

verus! {

/// The mutable state of one crawl run, shared by both worker stages.
///
/// The type parameter is the spider's opaque item payload.  The fields are
/// public so that a driver can inspect them; all transitions that keep the
/// state well formed go through the methods.
pub struct EngineState<T> {
    /// Claimed and pending locations.
    pub frontier: Frontier,
    /// The bounded item channel, front at index 0.
    pub channel: Vec<T>,
    /// The channel's capacity; pushes beyond it are refused (backpressure).
    pub capacity: usize,
    /// Locations dequeued for scraping but not yet resolved.
    pub crawl_in_flight: u64,
    /// Items pushed to the channel but not yet resolved by a process task.
    pub items_in_flight: u64,
    /// Locations whose scrape succeeded.
    pub crawled_ok: u64,
    /// Locations whose scrape failed.
    pub scrape_errors: u64,
    /// Items ever pushed to the channel.
    pub items_produced: u64,
    /// Items whose processing succeeded.
    pub processed_ok: u64,
    /// Items whose processing failed.
    pub process_errors: u64,
}

impl<T> EngineState<T> {
    /// Well-formedness: the frontier is well formed, the channel respects
    /// its capacity, and the counters balance — every claimed location is
    /// pending, in flight, or resolved, and every produced item is in the
    /// channel or being processed or resolved.
    pub open spec fn wf(self) -> bool {
        &&& self.frontier.wf()
        &&& self.capacity >= 1
        &&& self.channel@.len() <= self.capacity
        &&& self.channel@.len() <= self.items_in_flight
        &&& self.frontier.claimed_seq().len() <= usize::MAX
        &&& self.crawled_ok + self.scrape_errors + self.crawl_in_flight
            + self.frontier.pending_seq().len() == self.frontier.claimed_seq().len()
        &&& self.processed_ok + self.process_errors + self.items_in_flight
            == self.items_produced
    }

    /// The termination condition: no pending location, no crawl task in
    /// flight, an empty channel, and no item in flight.
    pub open spec fn complete_spec(self) -> bool {
        &&& self.frontier.pending_seq().len() == 0
        &&& self.crawl_in_flight == 0
        &&& self.channel@.len() == 0
        &&& self.items_in_flight == 0
    }

    /// Whether the channel has room for one more item.
    pub open spec fn push_accepted(self) -> bool {
        self.channel@.len() < self.capacity
    }

    /// A fresh state for one run: nothing claimed, nothing in flight.
    pub fn new(capacity: usize) -> (s: EngineState<T>)
        requires
            capacity >= 1,
        ensures
            s.wf(),
            s.frontier.claimed_seq() == Seq::<Seq<char>>::empty(),
            s.frontier.pending_seq() == Seq::<Seq<char>>::empty(),
            s.channel@ == Seq::<T>::empty(),
            s.capacity == capacity,
            s.crawl_in_flight == 0,
            s.items_in_flight == 0,
            s.crawled_ok == 0,
            s.scrape_errors == 0,
            s.items_produced == 0,
            s.processed_ok == 0,
            s.process_errors == 0,
    {
        let s = EngineState {
            frontier: Frontier::new(),
            channel: Vec::new(),
            capacity,
            crawl_in_flight: 0,
            items_in_flight: 0,
            crawled_ok: 0,
            scrape_errors: 0,
            items_produced: 0,
            processed_ok: 0,
            process_errors: 0,
        };
        proof {
            assert(s.channel@ =~= Seq::<T>::empty());
        }
        s
    }

    /// Claims each of `locs` in order: a location never seen before joins
    /// the pending queue, one already claimed is dropped.  Used for the seed
    /// set and for locations discovered by a scrape.
    pub fn enqueue_discovered(&mut self, locs: Vec<String>)
        requires
            old(self).wf(),
        ensures
            final(self).wf(),
            final(self).frontier.claimed_seq() == enqueue_all_spec(
                old(self).frontier.claimed_seq(),
                old(self).frontier.pending_seq(),
                views_of(locs@),
            ).0,
            final(self).frontier.pending_seq() == enqueue_all_spec(
                old(self).frontier.claimed_seq(),
                old(self).frontier.pending_seq(),
                views_of(locs@),
            ).1,
            final(self).frontier.claimed_seq().len() - old(self).frontier.claimed_seq().len()
                == final(self).frontier.pending_seq().len() - old(self).frontier.pending_seq().len(),
            final(self).frontier.scraped_seq() == old(self).frontier.scraped_seq(),
            final(self).channel@ == old(self).channel@,
            final(self).capacity == old(self).capacity,
            final(self).crawl_in_flight == old(self).crawl_in_flight,
            final(self).items_in_flight == old(self).items_in_flight,
            final(self).crawled_ok == old(self).crawled_ok,
            final(self).scrape_errors == old(self).scrape_errors,
            final(self).items_produced == old(self).items_produced,
            final(self).processed_ok == old(self).processed_ok,
            final(self).process_errors == old(self).process_errors,
    {
        let _n_new = self.frontier.seed(locs);
    }

    /// Hands the next pending location (FIFO) to a crawl worker and counts
    /// it in flight; `None` when nothing is pending.
    pub fn begin_crawl(&mut self) -> (r: Option<String>)
        requires
            old(self).wf(),
        ensures
            final(self).wf(),
            final(self).frontier.claimed_seq() == old(self).frontier.claimed_seq(),
            final(self).channel@ == old(self).channel@,
            final(self).capacity == old(self).capacity,
            final(self).items_in_flight == old(self).items_in_flight,
            final(self).crawled_ok == old(self).crawled_ok,
            final(self).scrape_errors == old(self).scrape_errors,
            final(self).items_produced == old(self).items_produced,
            final(self).processed_ok == old(self).processed_ok,
            final(self).process_errors == old(self).process_errors,
            old(self).frontier.pending_seq().len() == 0 ==> r is None
                && final(self).frontier.pending_seq() == old(self).frontier.pending_seq()
                && final(self).frontier.scraped_seq() == old(self).frontier.scraped_seq()
                && final(self).crawl_in_flight == old(self).crawl_in_flight,
            old(self).frontier.pending_seq().len() > 0 ==> (r matches Some(l) && l@ == old(self).frontier.pending_seq()[0]) && final(self).frontier.pending_seq() == old(self).frontier.pending_seq().drop_first() && final(self).frontier.scraped_seq() == old(self).frontier.scraped_seq().push(old(self).frontier.pending_seq()[0]) && final(self).crawl_in_flight == old(self).crawl_in_flight + 1,
    {
        let r = self.frontier.dequeue();
        match r {
            Some(loc) => {
                self.crawl_in_flight = self.crawl_in_flight + 1;
                Some(loc)
            },
            None => None,
        }
    }

    /// Resolves one in-flight crawl task, successful or not, exactly once.
    /// Whatever the outcome, the frontier and the channel are untouched:
    /// a failed location is dropped, never retried, and the locations that
    /// were pending stay pending in the same order (isolation).
    pub fn finish_crawl(&mut self, ok: bool)
        requires
            old(self).wf(),
            old(self).crawl_in_flight >= 1,
        ensures
            final(self).wf(),
            final(self).frontier == old(self).frontier,
            final(self).channel@ == old(self).channel@,
            final(self).capacity == old(self).capacity,
            final(self).crawl_in_flight == old(self).crawl_in_flight - 1,
            final(self).items_in_flight == old(self).items_in_flight,
            final(self).items_produced == old(self).items_produced,
            final(self).processed_ok == old(self).processed_ok,
            final(self).process_errors == old(self).process_errors,
            ok ==> final(self).crawled_ok == old(self).crawled_ok + 1 && final(self).scrape_errors
                == old(self).scrape_errors,
            !ok ==> final(self).scrape_errors == old(self).scrape_errors + 1 && final(self).crawled_ok == old(self).crawled_ok,
    {
        self.crawl_in_flight = self.crawl_in_flight - 1;
        if ok {
            self.crawled_ok = self.crawled_ok + 1;
        } else {
            self.scrape_errors = self.scrape_errors + 1;
        }
    }

    /// Offers one produced item to the channel.  With room the item is
    /// appended and counted in flight; on a full channel nothing changes and
    /// the item comes back to the caller, who must first let a process
    /// worker drain one slot (backpressure).
    pub fn try_push_item(&mut self, item: T) -> (rejected: Option<T>)
        requires
            old(self).wf(),
            old(self).items_produced < u64::MAX,
        ensures
            final(self).wf(),
            final(self).frontier == old(self).frontier,
            final(self).capacity == old(self).capacity,
            final(self).crawl_in_flight == old(self).crawl_in_flight,
            final(self).crawled_ok == old(self).crawled_ok,
            final(self).scrape_errors == old(self).scrape_errors,
            final(self).processed_ok == old(self).processed_ok,
            final(self).process_errors == old(self).process_errors,
            old(self).push_accepted() ==> rejected is None && final(self).channel@ == old(self).channel@.push(item) && final(self).items_produced == old(self).items_produced + 1
                && final(self).items_in_flight == old(self).items_in_flight + 1,
            !old(self).push_accepted() ==> rejected == Some(item) && *final(self) == *old(self),
    {
        if self.channel.len() < self.capacity {
            self.channel.push(item);
            self.items_produced = self.items_produced + 1;
            self.items_in_flight = self.items_in_flight + 1;
            None
        } else {
            Some(item)
        }
    }

    /// Hands the item at the front of the channel to a process worker.  The
    /// item stays counted in flight until `finish_item` resolves it.
    pub fn pop_item(&mut self) -> (item: T)
        requires
            old(self).wf(),
            old(self).channel@.len() > 0,
        ensures
            final(self).wf(),
            item == old(self).channel@[0],
            final(self).channel@ == old(self).channel@.drop_first(),
            final(self).frontier == old(self).frontier,
            final(self).capacity == old(self).capacity,
            final(self).crawl_in_flight == old(self).crawl_in_flight,
            final(self).items_in_flight == old(self).items_in_flight,
            final(self).crawled_ok == old(self).crawled_ok,
            final(self).scrape_errors == old(self).scrape_errors,
            final(self).items_produced == old(self).items_produced,
            final(self).processed_ok == old(self).processed_ok,
            final(self).process_errors == old(self).process_errors,
            final(self).items_in_flight > final(self).channel@.len(),
    {
        let item = self.channel.remove(0);
        proof {
            assert(self.channel@ =~= old(self).channel@.drop_first());
        }
        item
    }

    /// Resolves one in-flight item, successful or not, exactly once.  A
    /// failed item is dropped and later items are not blocked (isolation).
    pub fn finish_item(&mut self, ok: bool)
        requires
            old(self).wf(),
            old(self).items_in_flight > old(self).channel@.len(),
        ensures
            final(self).wf(),
            final(self).frontier == old(self).frontier,
            final(self).channel@ == old(self).channel@,
            final(self).capacity == old(self).capacity,
            final(self).crawl_in_flight == old(self).crawl_in_flight,
            final(self).items_in_flight == old(self).items_in_flight - 1,
            final(self).crawled_ok == old(self).crawled_ok,
            final(self).scrape_errors == old(self).scrape_errors,
            final(self).items_produced == old(self).items_produced,
            ok ==> final(self).processed_ok == old(self).processed_ok + 1 && final(self).process_errors == old(self).process_errors,
            !ok ==> final(self).process_errors == old(self).process_errors + 1 && final(self).processed_ok == old(self).processed_ok,
    {
        self.items_in_flight = self.items_in_flight - 1;
        if ok {
            self.processed_ok = self.processed_ok + 1;
        } else {
            self.process_errors = self.process_errors + 1;
        }
    }

    /// Evaluates the termination condition (checked after every resolution):
    /// true exactly when the pending queue is empty, no crawl task is in
    /// flight, the channel is empty, and no item is in flight.
    pub fn is_complete(&self) -> (r: bool)
        ensures
            r == self.complete_spec(),
    {
        self.frontier.pending_len() == 0 && self.crawl_in_flight == 0 && self.channel.len() == 0
            && self.items_in_flight == 0
    }

    /// No lost work: once the termination condition holds, the dequeue
    /// history equals the claimed sequence — every location ever claimed
    /// has been handed to exactly one scrape, in claim order — and every
    /// item ever produced has been resolved by exactly one process task.
    pub proof fn lemma_no_lost_work(self)
        requires
            self.wf(),
            self.complete_spec(),
        ensures
            self.frontier.scraped_seq() == self.frontier.claimed_seq(),
            self.crawled_ok + self.scrape_errors == self.frontier.claimed_seq().len(),
            self.processed_ok + self.process_errors == self.items_produced,
    {
        assert(self.frontier.claimed_seq() =~= self.frontier.scraped_seq());
    }

    /// Backpressure: on a full channel a push is refused, and after a
    /// process worker drains one slot a push is accepted again.
    pub proof fn lemma_backpressure(self)
        requires
            self.wf(),
            self.channel@.len() == self.capacity,
        ensures
            !self.push_accepted(),
            forall|s2: EngineState<T>|
                s2.capacity == self.capacity && s2.channel@ == self.channel@.drop_first()
                    ==> #[trigger] s2.push_accepted(),
    {
    }
}

} // verus!
