//! The bounded, newest-first event log: the last `MAX_EVENTS` observed
//! events, insertion always at the front, eviction always at the back.

use vstd::prelude::*;

use crate::event::ChangeEvent;
use crate::event::EventView;
use std::collections::VecDeque;

verus! {

/// Capacity of the event log: when a newly recorded event would make the
/// log longer than this, the oldest entry is evicted.
pub const MAX_EVENTS: usize = 100;

/// `n` capped at the log's capacity.
pub open spec fn capped(n: nat) -> nat {
    if n <= MAX_EVENTS {
        n
    } else {
        MAX_EVENTS as nat
    }
}

/// The log that results from recording `e` into `log`: `e` goes to the
/// front, and the back entry is evicted if the log would overflow.
pub open spec fn spec_record(log: Seq<EventView>, e: EventView) -> Seq<EventView> {
    let grown = seq![e] + log;
    if grown.len() > MAX_EVENTS {
        grown.take(MAX_EVENTS as int)
    } else {
        grown
    }
}

/// The log that results from recording each event of `evs` in order.
pub open spec fn spec_drain(log: Seq<EventView>, evs: Seq<EventView>) -> Seq<EventView>
    decreases evs.len(),
{
    if evs.len() == 0 {
        log
    } else {
        spec_drain(spec_record(log, evs[0]), evs.skip(1))
    }
}

/// Recording the events of `evs` and then one more event `e` is the same
/// as recording the events of `evs.push(e)` in one go.
pub proof fn lemma_drain_snoc(log: Seq<EventView>, evs: Seq<EventView>, e: EventView)
    ensures
        spec_drain(log, evs.push(e)) == spec_record(spec_drain(log, evs), e),
    decreases evs.len(),
{
    if evs.len() == 0 {
        assert(evs.push(e)[0] == e);
        assert(evs.push(e).skip(1) =~= Seq::<EventView>::empty());
        assert(spec_drain(spec_record(log, e), Seq::<EventView>::empty()) == spec_record(log, e));
        assert(spec_drain(log, evs) == log);
    } else {
        assert(evs.push(e)[0] == evs[0]);
        assert(evs.push(e).skip(1) =~= evs.skip(1).push(e));
        lemma_drain_snoc(spec_record(log, evs[0]), evs.skip(1), e);
        assert(spec_drain(log, evs.push(e)) == spec_drain(
            spec_record(log, evs[0]),
            evs.skip(1).push(e),
        ));
        assert(spec_drain(log, evs) == spec_drain(spec_record(log, evs[0]), evs.skip(1)));
    }
}

/// Shape of a drained log, entry by entry: after recording the events of
/// `evs` in order into a well-formed `log`, the log holds the newest
/// `capped(evs.len() + log.len())` events; position `i` holds the
/// `(i+1)`-th newest of `evs` while those last, and entries of the old log
/// follow, shifted by `evs.len()`.
pub proof fn lemma_drain_indexed(log: Seq<EventView>, evs: Seq<EventView>)
    requires
        log.len() <= MAX_EVENTS,
    ensures
        spec_drain(log, evs).len() == capped(evs.len() + log.len()),
        forall|i: int|
            0 <= i < spec_drain(log, evs).len() && i < evs.len() ==> spec_drain(log, evs)[i]
                == evs[evs.len() - 1 - i],
        forall|i: int|
            evs.len() <= i < spec_drain(log, evs).len() ==> spec_drain(log, evs)[i] == log[i
                - evs.len()],
    decreases evs.len(),
{
    if evs.len() > 0 {
        let n = evs.len() as int;
        let log1 = spec_record(log, evs[0]);
        assert(log1[0] == evs[0]);
        assert(forall|j: int| 1 <= j < log1.len() ==> log1[j] == log[j - 1]);
        lemma_drain_indexed(log1, evs.skip(1));
        let d = spec_drain(log, evs);
        assert(d == spec_drain(log1, evs.skip(1)));
        assert forall|i: int| 0 <= i < d.len() && i < n implies d[i] == evs[n - 1 - i] by {
            if i < n - 1 {
                assert(evs.skip(1)[n - 2 - i] == evs[n - 1 - i]);
            } else {
                assert(d[i] == log1[0]);
            }
        }
        assert forall|i: int| n <= i < d.len() implies d[i] == log[i - n] by {
            assert(d[i] == log1[i - (n - 1)]);
            assert(log1[i - (n - 1)] == log[i - n]);
        }
    }
}

/// Delivery law: after draining a sequence of `N` delivered events into an
/// empty log, the log holds `min(N, MAX_EVENTS)` entries, ordered newest
/// first, and the entry at position 0 is the most recently delivered event.
pub proof fn lemma_drain_from_empty(evs: Seq<EventView>)
    ensures
        spec_drain(Seq::<EventView>::empty(), evs).len() == capped(evs.len()),
        forall|i: int|
            0 <= i < spec_drain(Seq::<EventView>::empty(), evs).len() ==> spec_drain(
                Seq::<EventView>::empty(),
                evs,
            )[i] == evs[evs.len() - 1 - i],
        evs.len() > 0 ==> spec_drain(Seq::<EventView>::empty(), evs)[0] == evs.last(),
{
    lemma_drain_indexed(Seq::<EventView>::empty(), evs);
}

/// Idempotence law: draining when nothing has arrived leaves the log
/// unchanged.
pub proof fn lemma_drain_nothing(log: Seq<EventView>)
    ensures
        spec_drain(log, Seq::<EventView>::empty()) == log,
{
}

/// Eviction law: recording `MAX_EVENTS + 1` events into an empty log
/// leaves exactly `MAX_EVENTS` entries, with the first delivered event
/// evicted and position `i` holding delivery number `MAX_EVENTS + 1 - i`
/// (so the newest is at the front and the second-oldest at the back).
pub proof fn lemma_eviction(evs: Seq<EventView>)
    requires
        evs.len() == MAX_EVENTS + 1,
    ensures
        spec_drain(Seq::<EventView>::empty(), evs).len() == MAX_EVENTS,
        forall|i: int|
            0 <= i < MAX_EVENTS ==> spec_drain(Seq::<EventView>::empty(), evs)[i] == evs[
                MAX_EVENTS - i],
{
    lemma_drain_indexed(Seq::<EventView>::empty(), evs);
}

/// A fixed-capacity, newest-first buffer of the most recent events,
/// exclusively owned by the consuming thread.
#[derive(Debug)]
pub struct EventLog {
    entries: VecDeque<ChangeEvent>,
}

impl View for EventLog {
    type V = Seq<EventView>;

    closed spec fn view(&self) -> Seq<EventView> {
        self.entries.deep_view()
    }
}

impl EventLog {
    /// The log's invariant: it never holds more than `MAX_EVENTS` entries.
    pub open spec fn wf(&self) -> bool {
        self@.len() <= MAX_EVENTS
    }

    /// An empty log: the valid initial and steady state before any event
    /// has been observed.
    pub fn new() -> (log: EventLog)
        ensures
            log@ == Seq::<EventView>::empty(),
            log.wf(),
    {
        let log = EventLog { entries: VecDeque::new() };
        proof {
            assert(log@ =~= Seq::<EventView>::empty());
        }
        log
    }

    /// Number of events currently retained.
    pub fn len(&self) -> (n: usize)
        ensures
            n == self@.len(),
    {
        self.entries.len()
    }

    /// Whether no event has been retained.
    pub fn is_empty(&self) -> (b: bool)
        ensures
            b == (self@.len() == 0),
    {
        self.entries.len() == 0
    }

    /// Read-only view of the retained events, newest first, for the
    /// presentation layer.
    pub fn snapshot(&self) -> (entries: &VecDeque<ChangeEvent>)
        ensures
            entries.deep_view() == self@,
    {
        &self.entries
    }

    /// Insert `e` at the front; if the log then exceeds its capacity,
    /// evict the entry at the back.
    pub fn record(&mut self, e: ChangeEvent)
        requires
            old(self).wf(),
        ensures
            final(self).wf(),
            final(self)@ == spec_record(old(self)@, e@),
    {
        let ghost old_sh = self.entries@;
        let ghost old_dp = self@;
        let ghost ev = e@;
        self.entries.push_front(e);
        proof {
            assert forall|i: int| 0 <= i < self@.len() implies self@[i] == (seq![ev]
                + old_dp)[i] by {
            }
            assert(self@ =~= seq![ev] + old_dp);
        }
        if self.entries.len() > MAX_EVENTS {
            let ghost mid_sh = self.entries@;
            let ghost mid_dp = self@;
            self.entries.pop_back();
            proof {
                assert forall|i: int| 0 <= i < self@.len() implies self@[i] == mid_dp[i] by {
                    assert(self.entries@[i] == mid_sh[i]);
                }
                assert(self@ =~= mid_dp.take(MAX_EVENTS as int));
            }
        }
        proof {
            assert(self@ =~= spec_record(old_dp, ev));
        }
    }

    /// Record every event of `events`, in delivery order.
    pub fn record_batch(&mut self, events: Vec<ChangeEvent>)
        requires
            old(self).wf(),
        ensures
            final(self).wf(),
            final(self)@ == spec_drain(old(self)@, events.deep_view()),
    {
        let ghost evs = events.deep_view();
        let ghost log0 = self@;
        let mut rest = events;
        proof {
            assert(rest.deep_view() =~= evs.skip(0));
        }
        while rest.len() > 0
            invariant
                self.wf(),
                rest.deep_view().len() <= evs.len(),
                rest.deep_view() == evs.skip(evs.len() - rest.deep_view().len()),
                spec_drain(log0, evs) == spec_drain(self@, rest.deep_view()),
            decreases rest.len(),
        {
            let ghost or_sh = rest@;
            let ghost or_dp = rest.deep_view();
            let r = rest.remove(0);
            let ghost k = evs.len() - or_dp.len();
            proof {
                assert(rest@ =~= or_sh.skip(1));
                assert forall|i: int| 0 <= i < rest.deep_view().len() implies rest.deep_view()[i]
                    == or_dp[i + 1] by {
                    assert(rest@[i] == or_sh[i + 1]);
                }
                assert(rest.deep_view() =~= or_dp.skip(1));
                assert(or_dp.skip(1) =~= evs.skip(k + 1));
                assert(r@ == or_dp[0]);
            }
            let ghost lb = self@;
            self.record(r);
            proof {
                assert(self@ == spec_record(lb, or_dp[0]));
                assert(spec_drain(lb, or_dp) == spec_drain(self@, rest.deep_view()));
            }
        }
        proof {
            assert(rest.deep_view() =~= Seq::<EventView>::empty());
            assert(spec_drain(self@, rest.deep_view()) == self@);
        }
    }
}

} // verus!
