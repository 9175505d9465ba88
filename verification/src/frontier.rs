//! The frontier: the set of locations already claimed for crawling and the
//! FIFO queue of locations still pending.
//!
//! A location is *claimed* the moment it is first enqueued, so a second
//! discovery of the same location is a no-op.  Dequeueing keeps a location
//! claimed forever: a location can therefore be handed out for scraping at
//! most once over the lifetime of a run.

use vstd::prelude::*;

verus! {

/// The views of a sequence of owned strings.
pub open spec fn views_of(v: Seq<String>) -> Seq<Seq<char>> {
    v.map_values(|s: String| s@)
}

/// How one location changes the (claimed, pending) pair: a location never
/// claimed before is appended to both, a claimed one changes nothing.
pub open spec fn enqueue_step_spec(
    claimed: Seq<Seq<char>>,
    pending: Seq<Seq<char>>,
    loc: Seq<char>,
) -> (Seq<Seq<char>>, Seq<Seq<char>>) {
    if claimed.contains(loc) {
        (claimed, pending)
    } else {
        (claimed.push(loc), pending.push(loc))
    }
}

/// `enqueue_step_spec` folded over a sequence of locations, first to last.
pub open spec fn enqueue_all_spec(
    claimed: Seq<Seq<char>>,
    pending: Seq<Seq<char>>,
    locs: Seq<Seq<char>>,
) -> (Seq<Seq<char>>, Seq<Seq<char>>)
    decreases locs.len(),
{
    if locs.len() == 0 {
        (claimed, pending)
    } else {
        let stepped = enqueue_step_spec(claimed, pending, locs[0]);
        enqueue_all_spec(stepped.0, stepped.1, locs.drop_first())
    }
}

/// No work refused silently: after a batch of enqueues, a location is
/// claimed exactly when it was already claimed or occurs in the batch.
/// Together with the completion law — at termination the dequeue history
/// equals the claimed sequence — every location ever offered to the
/// frontier is dequeued and scraped, exactly once.
pub proof fn lemma_enqueue_all_claims(
    claimed: Seq<Seq<char>>,
    pending: Seq<Seq<char>>,
    locs: Seq<Seq<char>>,
    loc: Seq<char>,
)
    ensures
        enqueue_all_spec(claimed, pending, locs).0.contains(loc) <==> (claimed.contains(loc)
            || locs.contains(loc)),
    decreases locs.len(),
{
    broadcast use vstd::seq_lib::lemma_seq_contains_after_push;

    if locs.len() == 0 {
        assert(!locs.contains(loc));
    } else {
        let stepped = enqueue_step_spec(claimed, pending, locs[0]);
        lemma_enqueue_all_claims(stepped.0, stepped.1, locs.drop_first(), loc);
        assert(locs.contains(loc) <==> (locs[0] == loc || locs.drop_first().contains(loc))) by {
            if locs.contains(loc) {
                let k = choose|k: int| 0 <= k < locs.len() && locs[k] == loc;
                if k > 0 {
                    assert(locs.drop_first()[k - 1] == loc);
                }
            }
            if locs.drop_first().contains(loc) {
                let k = choose|k: int|
                    0 <= k < locs.drop_first().len() && locs.drop_first()[k] == loc;
                assert(locs[k + 1] == loc);
            }
        }
    }
}

/// The crawl frontier: every location ever enqueued (`claimed`, in order of
/// first discovery) and the queue of locations not yet dequeued (`pending`).
pub struct Frontier {
    claimed: Vec<String>,
    pending: Vec<String>,
    scraped: Ghost<Seq<Seq<char>>>,
}

impl Frontier {
    /// All locations ever accepted, in order of first enqueue.
    pub closed spec fn claimed_seq(self) -> Seq<Seq<char>> {
        views_of(self.claimed@)
    }

    /// The locations waiting to be dequeued, front first.
    pub closed spec fn pending_seq(self) -> Seq<Seq<char>> {
        views_of(self.pending@)
    }

    /// The locations already handed out by `dequeue`, in dequeue order.
    pub closed spec fn scraped_seq(self) -> Seq<Seq<char>> {
        self.scraped@
    }

    /// A frontier is well formed when no location is claimed twice, every
    /// pending location is claimed, no location is pending twice, and the
    /// claimed sequence is exactly the dequeued locations followed by the
    /// pending ones: the pending queue is a sliding window over the claimed
    /// sequence.
    pub open spec fn wf(self) -> bool {
        &&& (forall|i: int, j: int|
            0 <= i < j < self.claimed_seq().len() ==> self.claimed_seq()[i] != self.claimed_seq()[j])
        &&& (forall|i: int|
            0 <= i < self.pending_seq().len()
                ==> self.claimed_seq().contains(#[trigger] self.pending_seq()[i]))
        &&& (forall|i: int, j: int|
            0 <= i < j < self.pending_seq().len() ==> self.pending_seq()[i] != self.pending_seq()[j])
        &&& self.claimed_seq() == self.scraped_seq() + self.pending_seq()
    }

    /// Whether an enqueue of `loc` would be accepted rather than dropped.
    pub open spec fn accepts(self, loc: Seq<char>) -> bool {
        !self.claimed_seq().contains(loc)
    }

    /// An empty frontier.
    pub fn new() -> (f: Frontier)
        ensures
            f.wf(),
            f.claimed_seq() == Seq::<Seq<char>>::empty(),
            f.pending_seq() == Seq::<Seq<char>>::empty(),
            f.scraped_seq() == Seq::<Seq<char>>::empty(),
    {
        let f = Frontier {
            claimed: Vec::new(),
            pending: Vec::new(),
            scraped: Ghost(Seq::empty()),
        };
        proof {
            assert(f.claimed_seq() =~= Seq::<Seq<char>>::empty());
            assert(f.pending_seq() =~= Seq::<Seq<char>>::empty());
            assert(f.claimed_seq() =~= f.scraped_seq() + f.pending_seq());
        }
        f
    }

    /// Whether `loc` has ever been enqueued.
    pub fn is_claimed(&self, loc: &String) -> (r: bool)
        ensures
            r == self.claimed_seq().contains(loc@),
    {
        let n: usize = self.claimed.len();
        let mut i: usize = 0;
        while i < n
            invariant
                i <= n,
                n == self.claimed@.len(),
                forall|k: int| 0 <= k < i ==> self.claimed_seq()[k] != loc@,
            decreases n - i,
        {
            if self.claimed[i] == *loc {
                proof {
                    assert(self.claimed_seq()[i as int] == loc@);
                }
                return true;
            }
            i = i + 1;
        }
        proof {
            assert(!self.claimed_seq().contains(loc@)) by {
                if self.claimed_seq().contains(loc@) {
                    let k = choose|k: int|
                        0 <= k < self.claimed_seq().len() && self.claimed_seq()[k] == loc@;
                    assert(self.claimed_seq()[k] != loc@);
                }
            }
        }
        false
    }

    /// Atomic check-and-mark: enqueues `loc` and reports `true` exactly when
    /// `loc` has never been enqueued before; otherwise changes nothing.
    pub fn try_enqueue(&mut self, loc: String) -> (fresh: bool)
        requires
            old(self).wf(),
        ensures
            final(self).wf(),
            fresh == old(self).accepts(loc@),
            final(self).claimed_seq() == enqueue_step_spec(
                old(self).claimed_seq(),
                old(self).pending_seq(),
                loc@,
            ).0,
            final(self).pending_seq() == enqueue_step_spec(
                old(self).claimed_seq(),
                old(self).pending_seq(),
                loc@,
            ).1,
            final(self).scraped_seq() == old(self).scraped_seq(),
    {
        if self.is_claimed(&loc) {
            false
        } else {
            let ghost lv = loc@;
            let ghost old_claimed = self.claimed_seq();
            let ghost old_pending = self.pending_seq();
            let copy = loc.clone();
            self.claimed.push(copy);
            self.pending.push(loc);
            proof {
                assert(self.claimed_seq() =~= old_claimed.push(lv));
                assert(self.pending_seq() =~= old_pending.push(lv));
                assert forall|i: int, j: int|
                    0 <= i < j < self.claimed_seq().len() implies self.claimed_seq()[i]
                    != self.claimed_seq()[j] by {
                    if j == old_claimed.len() {
                        assert(old_claimed.contains(old_claimed[i]));
                    }
                }
                assert forall|i: int|
                    0 <= i < self.pending_seq().len() implies self.claimed_seq().contains(
                    #[trigger] self.pending_seq()[i],
                ) by {
                    if i < old_pending.len() {
                        let k = choose|k: int|
                            0 <= k < old_claimed.len() && old_claimed[k] == old_pending[i];
                        assert(self.claimed_seq()[k] == old_pending[i]);
                    } else {
                        assert(self.claimed_seq()[old_claimed.len() as int] == lv);
                    }
                }
                assert forall|i: int, j: int|
                    0 <= i < j < self.pending_seq().len() implies self.pending_seq()[i]
                    != self.pending_seq()[j] by {
                    if j == old_pending.len() {
                        let k = choose|k: int|
                            0 <= k < old_claimed.len() && old_claimed[k] == old_pending[i];
                        assert(old_claimed.contains(old_pending[i]));
                    }
                }
                assert(self.claimed_seq() =~= self.scraped_seq() + self.pending_seq());
            }
            true
        }
    }

    /// Enqueues each of `locs` in order, dropping every location already
    /// claimed (used both for the seed set and for discovered locations).
    pub fn seed(&mut self, locs: Vec<String>) -> (n_new: usize)
        requires
            old(self).wf(),
        ensures
            final(self).wf(),
            final(self).claimed_seq() == enqueue_all_spec(
                old(self).claimed_seq(),
                old(self).pending_seq(),
                views_of(locs@),
            ).0,
            final(self).pending_seq() == enqueue_all_spec(
                old(self).claimed_seq(),
                old(self).pending_seq(),
                views_of(locs@),
            ).1,
            final(self).claimed_seq().len() == old(self).claimed_seq().len() + n_new,
            final(self).pending_seq().len() == old(self).pending_seq().len() + n_new,
            final(self).claimed_seq().len() <= usize::MAX,
            final(self).scraped_seq() == old(self).scraped_seq(),
    {
        let ghost orig_scraped = self.scraped_seq();
        let ghost orig_claimed = self.claimed_seq();
        let ghost orig_pending = self.pending_seq();
        let ghost orig_locs = views_of(locs@);
        let mut rest = locs;
        let mut n_new: usize = 0;
        while rest.len() > 0
            invariant
                self.wf(),
                self.claimed_seq().len() == orig_claimed.len() + n_new,
                self.pending_seq().len() == orig_pending.len() + n_new,
                self.scraped_seq() == orig_scraped,
                enqueue_all_spec(self.claimed_seq(), self.pending_seq(), views_of(rest@))
                    == enqueue_all_spec(orig_claimed, orig_pending, orig_locs),
            decreases rest@.len(),
        {
            let ghost pre_views = views_of(rest@);
            let l = rest.remove(0);
            proof {
                assert(views_of(rest@) =~= pre_views.drop_first());
                assert(pre_views[0] == l@);
            }
            let fresh = self.try_enqueue(l);
            if fresh {
                let grown: usize = self.claimed.len();
                proof {
                    assert(grown == self.claimed_seq().len());
                    assert(self.claimed_seq().len() == orig_claimed.len() + n_new + 1);
                    assert(n_new < grown);
                }
                n_new = n_new + 1;
            }
        }
        proof {
            assert(views_of(rest@) =~= Seq::<Seq<char>>::empty());
        }
        let total: usize = self.claimed.len();
        proof {
            assert(self.claimed_seq().len() == total);
        }
        n_new
    }

    /// Pops the next pending location in FIFO order, or `None` when the
    /// queue is empty.  The popped location stays claimed.
    pub fn dequeue(&mut self) -> (r: Option<String>)
        requires
            old(self).wf(),
        ensures
            final(self).wf(),
            final(self).claimed_seq() == old(self).claimed_seq(),
            old(self).pending_seq().len() == 0 ==> r is None && final(self).pending_seq()
                == old(self).pending_seq(),
            old(self).pending_seq().len() > 0 ==> (r matches Some(l) && l@ == old(self).pending_seq()[0]) && final(self).pending_seq() == old(self).pending_seq().drop_first()
                && final(self).scraped_seq() == old(self).scraped_seq().push(
                old(self).pending_seq()[0],
            ),
            old(self).pending_seq().len() == 0 ==> final(self).scraped_seq() == old(
                self,
            ).scraped_seq(),
    {
        if self.pending.len() == 0 {
            None
        } else {
            let ghost old_pending = self.pending_seq();
            let l = self.pending.remove(0);
            proof {
                self.scraped@ = self.scraped@.push(old_pending[0]);
            }
            proof {
                assert forall|i: int, j: int|
                    0 <= i < j < self.claimed_seq().len() implies self.claimed_seq()[i]
                    != self.claimed_seq()[j] by {
                    assert(old(self).claimed_seq()[i] != old(self).claimed_seq()[j]);
                }
                assert(self.pending_seq() =~= old_pending.drop_first());
                assert forall|i: int|
                    0 <= i < self.pending_seq().len() implies self.claimed_seq().contains(
                    #[trigger] self.pending_seq()[i],
                ) by {
                    assert(self.pending_seq()[i] == old_pending[i + 1]);
                }
                assert forall|i: int, j: int|
                    0 <= i < j < self.pending_seq().len() implies self.pending_seq()[i]
                    != self.pending_seq()[j] by {
                    assert(self.pending_seq()[i] == old_pending[i + 1]);
                    assert(self.pending_seq()[j] == old_pending[j + 1]);
                }
                assert(self.claimed_seq() =~= self.scraped_seq() + self.pending_seq());
            }
            Some(l)
        }
    }

    /// How many locations are waiting to be dequeued.
    pub fn pending_len(&self) -> (n: usize)
        ensures
            n == self.pending_seq().len(),
    {
        self.pending.len()
    }

    /// How many locations have ever been claimed.
    pub fn claimed_len(&self) -> (n: usize)
        ensures
            n == self.claimed_seq().len(),
    {
        self.claimed.len()
    }

    /// No duplicate fetch: in a well-formed frontier the pending queue never
    /// holds the same location at two positions, and a pending location is
    /// already claimed, so a further `try_enqueue` of it is rejected.  Since
    /// `dequeue` keeps the claimed set unchanged and only `try_enqueue`
    /// extends `pending`, a given location can be dequeued for scraping at
    /// most once over a run.
    pub proof fn lemma_no_duplicate_fetch(self, i: int, j: int)
        requires
            self.wf(),
            0 <= i < self.pending_seq().len(),
            0 <= j < self.pending_seq().len(),
            self.pending_seq()[i] == self.pending_seq()[j],
        ensures
            i == j,
            !self.accepts(self.pending_seq()[i]),
    {
        if i < j {
            assert(self.pending_seq()[i] != self.pending_seq()[j]);
        }
        if j < i {
            assert(self.pending_seq()[j] != self.pending_seq()[i]);
        }
    }

    /// No duplicate fetch, stated over the dequeue history: the locations
    /// handed out for scraping are pairwise distinct, so `scrape` is
    /// invoked at most once per location per run.
    pub proof fn lemma_scraped_once(self, i: int, j: int)
        requires
            self.wf(),
            0 <= i < j < self.scraped_seq().len(),
        ensures
            self.scraped_seq()[i] != self.scraped_seq()[j],
    {
        assert(self.claimed_seq()[i] == self.scraped_seq()[i]);
        assert(self.claimed_seq()[j] == self.scraped_seq()[j]);
    }
}

} // verus!
