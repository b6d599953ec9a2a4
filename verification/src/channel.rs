//! The event queue of a thread: an unbounded channel of event bytes whose
//! sending half stays with the runner and whose receiving half travels with
//! the thread.

use vstd::prelude::*;
use futures::channel::mpsc::{UnboundedReceiver, UnboundedSender};

verus! {

/// `futures::channel::mpsc::UnboundedSender`, carried as an opaque value.
#[verifier::external_type_specification]
#[verifier::external_body]
#[verifier::reject_recursive_types(T)]
pub struct ExUnboundedSender<T>(UnboundedSender<T>);

/// `futures::channel::mpsc::UnboundedReceiver`, carried as an opaque value.
#[verifier::external_type_specification]
#[verifier::external_body]
#[verifier::reject_recursive_types(T)]
pub struct ExUnboundedReceiver<T>(UnboundedReceiver<T>);

/// The log of the events that the channel took from this sending half: those
/// for which the send succeeded, oldest first. It is no picture of what waits
/// in the queue: receiving an event does not shorten it.
pub uninterp spec fn accepted(q: UnboundedSender<u8>) -> Seq<u8>;

/// The log of the events that were handed to this sending half, oldest
/// first, whether the channel took them or not.
pub uninterp spec fn handed(q: UnboundedSender<u8>) -> Seq<u8>;

/// The answer of `UnboundedSender::is_connected_to`: whether the two halves
/// belong to one channel.
pub uninterp spec fn connected(q: UnboundedSender<u8>, rx: UnboundedReceiver<u8>) -> bool;

/// What one look at the receiving half of an event queue found.
#[derive(Clone, Copy, Debug, PartialEq, Eq, Structural)]
pub enum QueuePoll {
    /// The oldest queued event, now taken out of the queue.
    Event(u8),
    /// Nothing is queued, but a sender is still there.
    Empty,
    /// Nothing is queued and nothing can arrive any more.
    Closed,
}

/// Makes a fresh event queue with `futures::channel::mpsc::unbounded`.
///
/// Trusted: the two halves belong to one channel, and the sending half has
/// not been handed any event yet.
#[verifier::external_body]
pub(crate) fn event_channel() -> (halves: (UnboundedSender<u8>, UnboundedReceiver<u8>))
    ensures
        accepted(halves.0) == Seq::<u8>::empty(),
        handed(halves.0) == Seq::<u8>::empty(),
        connected(halves.0, halves.1),
{
    futures::channel::mpsc::unbounded()
}

/// Queues `ev` with `UnboundedSender::unbounded_send` and tells whether the
/// channel took it.
///
/// Trusted: the call never blocks; it either appends the event to the queue
/// or, when the receiving half is gone, leaves the queue as it was. (It gives
/// up only on a queue of more than `usize::MAX / 2` events, which no memory
/// holds.) The sending half stays on its channel.
#[verifier::external_body]
pub(crate) fn offer_event(q: &mut UnboundedSender<u8>, ev: u8) -> (taken: bool)
    ensures
        handed(*final(q)) == handed(*old(q)).push(ev),
        taken ==> accepted(*final(q)) == accepted(*old(q)).push(ev),
        !taken ==> accepted(*final(q)) == accepted(*old(q)),
        forall|rx: UnboundedReceiver<u8>| #[trigger]
            connected(*final(q), rx) == connected(*old(q), rx),
{
    q.unbounded_send(ev).is_ok()
}

/// Looks at the queue once with `UnboundedReceiver::try_recv`, without
/// blocking.
///
/// Trusted: nothing is promised of the answer, which depends on what other
/// threads have sent.
#[verifier::external_body]
pub(crate) fn poll_event(rx: &mut UnboundedReceiver<u8>) -> (found: QueuePoll) {
    match rx.try_recv() {
        Ok(ev) => QueuePoll::Event(ev),
        Err(futures::channel::mpsc::TryRecvError::Empty) => QueuePoll::Empty,
        Err(futures::channel::mpsc::TryRecvError::Closed) => QueuePoll::Closed,
    }
}

} // verus!
