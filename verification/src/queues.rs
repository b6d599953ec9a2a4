//! The sending halves of all event queues of an enclave, one for each thread
//! address.

use vstd::prelude::*;
use std::collections::HashMap;
use futures::channel::mpsc::{UnboundedReceiver, UnboundedSender};
use crate::channel::{accepted, connected, event_channel, handed, offer_event};
use crate::tcs::TcsAddress;

verus! {

broadcast use vstd::std_specs::hash::group_hash_axioms;

/// The sending half of the event queue of the thread at `address`.
pub struct EventQueue {
    address: TcsAddress,
    sender: UnboundedSender<u8>,
}

/// The event queues of an enclave. A queue is added when a thread is
/// registered and stays for good.
pub struct EventQueues {
    queues: Vec<EventQueue>,
    index: HashMap<usize, usize>,
}

/// The sending halves by the address of their thread.
pub type QueueMap = Map<TcsAddress, UnboundedSender<u8>>;

/// Whether `q` is the sending half of a channel just made, with `rx` as its
/// receiving half: nothing was handed to it yet.
pub open spec fn fresh_queue(q: UnboundedSender<u8>, rx: UnboundedReceiver<u8>) -> bool {
    &&& connected(q, rx)
    &&& handed(q) == Seq::<u8>::empty()
    &&& accepted(q) == Seq::<u8>::empty()
}

/// Whether the two values are one sending half at two moments: what it
/// sends arrives at the same receiving half.
pub open spec fn same_channel(before: UnboundedSender<u8>, after: UnboundedSender<u8>) -> bool {
    forall|rx: UnboundedReceiver<u8>| #[trigger] connected(after, rx) == connected(before, rx)
}

/// Whether `after` is the sending half `before` once `ev` was handed to it
/// and the channel took it.
pub open spec fn took(before: UnboundedSender<u8>, ev: u8, after: UnboundedSender<u8>) -> bool {
    &&& same_channel(before, after)
    &&& handed(after) == handed(before).push(ev)
    &&& accepted(after) == accepted(before).push(ev)
}

/// Whether `after` is the sending half `before` once `ev` was handed to it
/// and the channel refused it, because its receiving half is gone.
pub open spec fn refused(before: UnboundedSender<u8>, ev: u8, after: UnboundedSender<u8>) -> bool {
    &&& same_channel(before, after)
    &&& handed(after) == handed(before).push(ev)
    &&& accepted(after) == accepted(before)
}

/// Whether `after` is the sending half `before` once `ev` was handed to it,
/// whatever the channel made of it.
pub open spec fn offered(before: UnboundedSender<u8>, ev: u8, after: UnboundedSender<u8>) -> bool {
    took(before, ev, after) || refused(before, ev, after)
}

/// One step in the life of the queues: every queue that was there is still
/// there, and at most one was added, for an address that had none.
pub open spec fn queues_step(before: QueueMap, after: QueueMap) -> bool {
    ||| after.dom() == before.dom()
    ||| exists|a: TcsAddress| !before.contains_key(a) && #[trigger] after.dom() == before.dom().insert(a)
}

/// Whether each map of `history` follows from the one before it by one step.
pub open spec fn queues_history(history: Seq<QueueMap>) -> bool {
    forall|i: int| 0 <= i < history.len() - 1 ==> queues_step(#[trigger] history[i], history[i + 1])
}

/// An address that has a queue keeps it: through any number of
/// registrations and sends it stays registered. The map holds one queue for
/// it, and a second registration of it is no step.
pub proof fn lemma_registered_for_good(history: Seq<QueueMap>, a: TcsAddress, i: int, j: int)
    requires
        queues_history(history),
        0 <= i <= j < history.len(),
        history[i].contains_key(a),
    ensures
        history[j].contains_key(a),
    decreases j - i,
{
    if i < j {
        assert(queues_step(history[i], history[i + 1]));
        assert(history[i + 1].dom().contains(a));
        lemma_registered_for_good(history, a, i + 1, j);
    }
}

impl View for EventQueues {
    type V = QueueMap;

    /// For each registered address, the sending half of its queue.
    closed spec fn view(&self) -> QueueMap {
        Map::new(
            |a: TcsAddress| self.index@.contains_key(a.0),
            |a: TcsAddress| self.queues@[self.index@[a.0] as int].sender,
        )
    }
}

impl EventQueues {
    /// Each address has one queue, and the index finds it.
    pub closed spec fn wf(&self) -> bool {
        &&& forall|a: usize| #[trigger]
            self.index@.contains_key(a) ==> self.index@[a] < self.queues@.len()
                && self.queues@[self.index@[a] as int].address.0 == a
        &&& forall|i: int|
            0 <= i < self.queues@.len() ==> self.index@.contains_key(
                (#[trigger] self.queues@[i]).address.0,
            ) && self.index@[self.queues@[i].address.0] == i
    }

    /// No queues.
    pub fn new() -> (queues: Self)
        ensures
            queues.wf(),
            queues@ == QueueMap::empty(),
    {
        let queues = EventQueues { queues: Vec::new(), index: HashMap::new() };
        assert(queues@ =~= QueueMap::empty());
        queues
    }

    /// No queues, with room for `capacity` of them.
    pub fn with_capacity(capacity: usize) -> (queues: Self)
        ensures
            queues.wf(),
            queues@ == QueueMap::empty(),
    {
        let queues = EventQueues {
            queues: Vec::with_capacity(capacity),
            index: HashMap::with_capacity(capacity),
        };
        assert(queues@ =~= QueueMap::empty());
        queues
    }

    /// Whether a queue is registered for `address`.
    pub fn contains(&self, address: TcsAddress) -> (found: bool)
        ensures
            found == self@.contains_key(address),
    {
        self.index.contains_key(&address.0)
    }

    /// Makes the event queue of the thread at `address`, keeps its sending
    /// half and returns its receiving half. The address must not have a
    /// queue yet.
    pub fn register(&mut self, address: TcsAddress) -> (event_queue: UnboundedReceiver<u8>)
        requires
            old(self).wf(),
            !old(self)@.contains_key(address),
        ensures
            final(self).wf(),
            final(self)@ == old(self)@.insert(address, final(self)@[address]),
            fresh_queue(final(self)@[address], event_queue),
            queues_step(old(self)@, final(self)@),
    {
        let (sender, event_queue) = event_channel();
        let position: usize = self.queues.len();
        self.queues.push(EventQueue { address, sender });
        self.index.insert(address.0, position);
        assert(final(self)@ =~= old(self)@.insert(address, sender));
        assert(final(self)@.dom() == old(self)@.dom().insert(address));
        event_queue
    }

    /// Offers `ev` to the queue of the thread at `address`. The answer is
    /// `None` where no such queue is registered, and else tells whether the
    /// queue took the event.
    pub fn send_to(&mut self, address: TcsAddress, ev: u8) -> (taken: Option<bool>)
        requires
            old(self).wf(),
        ensures
            final(self).wf(),
            final(self)@.dom() == old(self)@.dom(),
            queues_step(old(self)@, final(self)@),
            match taken {
                None => !old(self)@.contains_key(address) && final(self)@ == old(self)@,
                Some(true) => {
                    &&& old(self)@.contains_key(address)
                    &&& final(self)@ == old(self)@.insert(address, final(self)@[address])
                    &&& took(old(self)@[address], ev, final(self)@[address])
                },
                Some(false) => {
                    &&& old(self)@.contains_key(address)
                    &&& final(self)@ == old(self)@.insert(address, final(self)@[address])
                    &&& refused(old(self)@[address], ev, final(self)@[address])
                },
            },
    {
        let position: usize = match self.index.get(&address.0) {
            Some(position) => *position,
            None => {
                return None;
            },
        };
        let taken = offer_event(&mut self.queues[position].sender, ev);
        assert(final(self)@ =~= old(self)@.insert(address, final(self)@[address]));
        Some(taken)
    }

    /// Offers `ev` to every queue, once. A queue that refuses it is passed
    /// over.
    pub fn send_all(&mut self, ev: u8)
        requires
            old(self).wf(),
        ensures
            final(self).wf(),
            final(self)@.dom() == old(self)@.dom(),
            queues_step(old(self)@, final(self)@),
            forall|a: TcsAddress|
                old(self)@.contains_key(a) ==> offered(
                    old(self)@[a],
                    ev,
                    #[trigger] final(self)@[a],
                ),
    {
        let n: usize = self.queues.len();
        let mut i: usize = 0;
        while i < n
            invariant
                i <= n,
                n == self.queues@.len(),
                n == old(self).queues@.len(),
                self.index == old(self).index,
                forall|j: int|
                    0 <= j < n ==> (#[trigger] self.queues@[j]).address == old(
                        self,
                    ).queues@[j].address,
                forall|j: int|
                    0 <= j < i ==> offered(
                        old(self).queues@[j].sender,
                        ev,
                        (#[trigger] self.queues@[j]).sender,
                    ),
                forall|j: int|
                    i <= j < n ==> (#[trigger] self.queues@[j]).sender == old(
                        self,
                    ).queues@[j].sender,
            decreases n - i,
        {
            let _ = offer_event(&mut self.queues[i].sender, ev);
            i += 1;
        }
        assert(final(self)@.dom() =~= old(self)@.dom());
    }
}

} // verus!
