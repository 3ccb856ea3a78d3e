//! The cross-thread event channel: an unbounded FIFO queue that decouples
//! the watcher thread's production rate from the consumer's drain cadence.
//! The channel itself is an outside crate's; verified code reaches it only
//! through the trusted items here.

use vstd::prelude::*;

use crate::event::ChangeEvent;
use crossbeam_channel::Receiver;
use crossbeam_channel::Sender;

verus! {

/// The sending half of crossbeam_channel, declared so that it can stand in
/// signatures and fields of verified code.
#[verifier::external_type_specification]
#[verifier::external_body]
#[verifier::reject_recursive_types(T)]
pub struct ExSender<T>(Sender<T>);

/// The receiving half of crossbeam_channel, declared so that it can stand
/// in signatures and fields of verified code.
#[verifier::external_type_specification]
#[verifier::external_body]
#[verifier::reject_recursive_types(T)]
pub struct ExReceiver<T>(Receiver<T>);

/// Relies on crossbeam_channel::unbounded: a queue of unlimited depth whose
/// sends never block; what the paired receiver yields depends on the
/// threads that hold the sender, so nothing is stated of the two ends.
#[verifier::external_body]
pub fn event_channel() -> (ends: (Sender<ChangeEvent>, Receiver<ChangeEvent>)) {
    crossbeam_channel::unbounded()
}

/// Relies on crossbeam_channel::Sender::send: on an unbounded channel it
/// returns without blocking, and it errs exactly when every receiver has
/// been dropped — the producer's signal to stop.  The result says only
/// whether the event was accepted.
#[verifier::external_body]
pub fn send_event(sender: &Sender<ChangeEvent>, event: ChangeEvent) -> (delivered: bool) {
    sender.send(event).is_ok()
}

/// Relies on crossbeam_channel::Receiver::len: the number of events queued
/// in the channel at that instant.  The producer thread may change it at
/// any time, so nothing is stated of the result; it only bounds the work
/// of one drain.
#[verifier::external_body]
pub fn queued_count(receiver: &Receiver<ChangeEvent>) -> (n: usize) {
    receiver.len()
}

/// Relies on crossbeam_channel::Receiver::try_recv: it returns immediately,
/// either with the next queued event in delivery order or with nothing when
/// the channel is empty or disconnected; it never blocks.  Which of the two
/// happens depends on the producer thread, so nothing is stated of the
/// outcome.
#[verifier::external_body]
pub fn try_receive(receiver: &Receiver<ChangeEvent>) -> (next: Option<ChangeEvent>) {
    match receiver.try_recv() {
        Ok(event) => Option::Some(event),
        Err(_) => Option::None,
    }
}

} // verus!
