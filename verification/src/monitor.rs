//! The long-lived owner of the consumer side: the receiving end of the
//! event channel and the bounded log, constructed once at process start and
//! outliving any window or surface the host may destroy and recreate.

use vstd::prelude::*;

use crate::channel::queued_count;
use crate::channel::try_receive;
use crate::event::ChangeEvent;
use crate::event::EventView;
use crate::log::EventLog;
use crate::log::lemma_drain_snoc;
use crate::log::spec_drain;
use crossbeam_channel::Receiver;
use std::collections::VecDeque;

verus! {

/// Consumer-side state: the bounded log and the channel end it drains.
/// Exclusively owned by the consuming thread; its view is the log's
/// newest-first sequence of events.
pub struct Monitor {
    log: EventLog,
    receiver: Receiver<ChangeEvent>,
}

impl View for Monitor {
    type V = Seq<EventView>;

    closed spec fn view(&self) -> Seq<EventView> {
        self.log@
    }
}

impl Monitor {
    /// The monitor's invariant: its log never exceeds capacity.
    pub closed spec fn wf(&self) -> bool {
        self.log.wf()
    }

    /// Take ownership of the receiving end, with an empty log: the state
    /// before any event has been observed.
    pub fn new(receiver: Receiver<ChangeEvent>) -> (m: Monitor)
        ensures
            m@ == Seq::<EventView>::empty(),
            m.wf(),
    {
        Monitor { log: EventLog::new(), receiver }
    }

    /// Drain the channel without blocking: receive, in arrival order, up
    /// to as many events as were queued when the drain began — the work of
    /// one tick — stopping early the moment the channel reports empty.
    /// Whatever sequence of events the channel yields (it depends on the
    /// producer thread), the new log is the old log with exactly that
    /// sequence recorded; in particular it stays within capacity, and a
    /// drain that receives nothing leaves the log unchanged.
    pub fn drain_available(&mut self)
        requires
            old(self).wf(),
        ensures
            final(self).wf(),
            exists|delivered: Seq<EventView>|
                final(self)@ == spec_drain(old(self)@, delivered),
    {
        let ghost log0 = self.log@;
        let ghost mut received: Seq<EventView> = Seq::<EventView>::empty();
        proof {
            assert(spec_drain(log0, received) == log0);
        }
        let queued = queued_count(&self.receiver);
        let mut taken: usize = 0;
        while taken < queued
            invariant
                taken <= queued,
                self.log.wf(),
                self.log@ == spec_drain(log0, received),
            decreases queued - taken,
        {
            match try_receive(&self.receiver) {
                Option::Some(e) => {
                    let ghost ev = e@;
                    proof {
                        lemma_drain_snoc(log0, received, ev);
                        received = received.push(ev);
                    }
                    self.log.record(e);
                    taken = taken + 1;
                },
                Option::None => {
                    break;
                },
            }
        }
        proof {
            assert(self@ == spec_drain(old(self)@, received));
            assert(exists|delivered: Seq<EventView>| self@ == spec_drain(old(self)@, delivered));
        }
    }

    /// Number of events currently retained.
    pub fn len(&self) -> (n: usize)
        ensures
            n == self@.len(),
    {
        self.log.len()
    }

    /// Whether the log is empty: the valid initial and steady state.
    pub fn is_empty(&self) -> (b: bool)
        ensures
            b == (self@.len() == 0),
    {
        self.log.is_empty()
    }

    /// Read-only view of the retained events, newest first, for the
    /// presentation layer.
    pub fn snapshot(&self) -> (entries: &VecDeque<ChangeEvent>)
        ensures
            entries.deep_view() == self@,
    {
        self.log.snapshot()
    }
}

} // verus!
