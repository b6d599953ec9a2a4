//! Enclave threads as the runner sees them: stopped and waiting to be
//! entered, or running with a buffer of events that have not been asked for.

use vstd::prelude::*;
use std::collections::VecDeque;
use futures::channel::mpsc::UnboundedReceiver;
use crate::abi::{EV_ABORT, WAIT_INDEFINITE, WAIT_NO};
use crate::channel::{poll_event, QueuePoll};
use crate::error::ErrorKind;
use crate::events::{
    abort_free, check_event_set, classify, delivery, first_match, is_event_set,
    lemma_first_match, lemma_first_match_at, lemma_union_meets, lemma_union_push,
    pending_union, Delivery, ABORT_BIT,
};

verus! {

/// The address of a thread control structure. It identifies a thread for as
/// long as the enclave lives.
#[derive(Clone, Copy, Debug, PartialEq, Eq, Hash, PartialOrd, Ord, Structural)]
pub struct TcsAddress(pub usize);

/// How a thread was entered, which decides what its return means.
#[derive(Clone, Copy, Debug, PartialEq, Eq, Structural)]
pub enum EnclaveEntry {
    /// The main thread of a command enclave.
    ExecutableMain,
    /// A thread that a command enclave launched.
    ExecutableNonMain,
    /// A call into a library enclave.
    Library,
}

/// A thread that is not executing. `tcs` is the loader's handle of it.
pub struct StoppedTcs<T> {
    pub tcs: T,
    pub event_queue: UnboundedReceiver<u8>,
}

/// A thread that is executing, or stopped in the middle of a usercall.
pub struct RunningTcs {
    pending_event_set: u8,
    pending_events: VecDeque<u8>,
    event_queue: UnboundedReceiver<u8>,
    mode: EnclaveEntry,
}

/// How far a wait has come.
#[derive(Clone, Copy, Debug, PartialEq, Eq)]
pub enum WaitStep {
    /// The wait is over, with the event that ended it or with an error.
    Done(Result<u64, ErrorKind>),
    /// Nothing that matches has arrived yet: the caller takes the next event
    /// from the queue when one comes and hands it to `resume_wait`.
    Pending,
    /// The queue is empty and its sending half is gone.
    Disconnected,
}

/// Whether a wait with these arguments is refused before it looks at any
/// event.
pub open spec fn wait_refused(event_mask: u64, timeout: u64) -> bool {
    (timeout != WAIT_NO && timeout != WAIT_INDEFINITE) || !is_event_set(event_mask)
}

/// What a wait makes of one look at its queue. `Pending` stands for an event
/// that went into the buffer.
pub open spec fn poll_outcome(mask: u8, found: QueuePoll) -> WaitStep {
    match found {
        QueuePoll::Empty => WaitStep::Done(Err(ErrorKind::WouldBlock)),
        QueuePoll::Closed => WaitStep::Disconnected,
        QueuePoll::Event(ev) => match delivery(mask, ev) {
            Delivery::Abort => WaitStep::Done(Err(ErrorKind::Other)),
            Delivery::Matched(e) => WaitStep::Done(Ok(e as u64)),
            Delivery::Buffered => WaitStep::Pending,
        },
    }
}

/// Whether every event of `s` would go into the buffer under `mask`.
pub open spec fn all_buffered(mask: u8, s: Seq<u8>) -> bool {
    forall|i: int| 0 <= i < s.len() ==> delivery(mask, #[trigger] s[i]) == Delivery::Buffered
}

/// What a wait without blocking leaves behind when it took the events
/// `buffered` from the queue, all of which went into the buffer, and then
/// found `last`, which ended it.
pub open spec fn drained(
    mask: u8,
    before: Seq<u8>,
    buffered: Seq<u8>,
    last: QueuePoll,
    after: Seq<u8>,
    r: WaitStep,
) -> bool {
    &&& all_buffered(mask, buffered)
    &&& after == before + buffered
    &&& r == poll_outcome(mask, last)
    &&& r != WaitStep::Pending
}

impl RunningTcs {
    /// The buffered events, oldest first.
    pub closed spec fn pending(&self) -> Seq<u8> {
        self.pending_events@
    }

    /// The stored union of the buffered events.
    pub closed spec fn pending_set(&self) -> u8 {
        self.pending_event_set
    }

    /// How the thread was entered.
    pub closed spec fn mode(&self) -> EnclaveEntry {
        self.mode
    }

    /// The receiving half of the thread's event queue.
    pub closed spec fn queue(&self) -> UnboundedReceiver<u8> {
        self.event_queue
    }

    /// The stored union is the union of the buffer, and no buffered event
    /// carries the abort bit.
    pub open spec fn wf(&self) -> bool {
        &&& self.pending_set() == pending_union(self.pending())
        &&& abort_free(self.pending())
    }

    /// A thread that is about to be entered: nothing is buffered.
    pub fn new(event_queue: UnboundedReceiver<u8>, mode: EnclaveEntry) -> (tcs: RunningTcs)
        ensures
            tcs.wf(),
            tcs.pending() == Seq::<u8>::empty(),
            tcs.pending_set() == 0,
            tcs.mode() == mode,
            tcs.queue() == event_queue,
    {
        RunningTcs {
            pending_event_set: 0,
            pending_events: VecDeque::new(),
            event_queue,
            mode,
        }
    }

    /// How the thread was entered.
    pub fn entry_mode(&self) -> (mode: EnclaveEntry)
        ensures
            mode == self.mode(),
    {
        self.mode
    }

    /// The union of the buffered events.
    pub fn pending_event_set(&self) -> (set: u8)
        ensures
            set == self.pending_set(),
    {
        self.pending_event_set
    }

    /// The number of buffered events.
    pub fn pending_len(&self) -> (n: usize)
        ensures
            n == self.pending().len(),
    {
        self.pending_events.len()
    }

    /// Gives the thread's queue back once the thread has stopped. Events that
    /// are still buffered are dropped.
    pub fn into_event_queue(self) -> (event_queue: UnboundedReceiver<u8>)
        ensures
            event_queue == self.queue(),
    {
        self.event_queue
    }

    /// The receiving half of the thread's event queue, for a caller that
    /// blocks on it. The buffer is not touched.
    pub fn event_queue(&mut self) -> (event_queue: &mut UnboundedReceiver<u8>)
        ensures
            *event_queue == old(self).queue(),
            final(self).queue() == *final(event_queue),
            final(self).pending() == old(self).pending(),
            final(self).pending_set() == old(self).pending_set(),
            final(self).mode() == old(self).mode(),
    {
        &mut self.event_queue
    }

    fn recompute_pending_set(&mut self)
        ensures
            final(self).pending_event_set == pending_union(old(self).pending_events@),
            final(self).pending_events == old(self).pending_events,
            final(self).event_queue == old(self).event_queue,
            final(self).mode == old(self).mode,
    {
        let n: usize = self.pending_events.len();
        let mut set: u8 = 0;
        let mut i: usize = 0;
        while i < n
            invariant
                i <= n,
                n == self.pending_events@.len(),
                set == pending_union(self.pending_events@.take(i as int)),
                *self == *old(self),
            decreases n - i,
        {
            proof {
                let s = self.pending_events@;
                assert(s.take(i + 1) == s.take(i as int).push(s[i as int]));
                lemma_union_push(s.take(i as int), s[i as int]);
            }
            set = set | self.pending_events[i];
            i += 1;
        }
        assert(self.pending_events@.take(n as int) == self.pending_events@);
        self.pending_event_set = set;
    }

    /// Takes the oldest buffered event that has a bit in common with `mask`
    /// out of the buffer.
    pub fn take_pending(&mut self, mask: u8) -> (taken: Option<u8>)
        requires
            old(self).wf(),
        ensures
            final(self).wf(),
            final(self).mode() == old(self).mode(),
            final(self).queue() == old(self).queue(),
            ({
                let i = first_match(old(self).pending(), mask);
                if i < old(self).pending().len() {
                    &&& taken == Some(old(self).pending()[i])
                    &&& final(self).pending() == old(self).pending().remove(i)
                } else {
                    &&& taken.is_none()
                    &&& final(self).pending() == old(self).pending()
                }
            }),
            taken matches Some(ev) ==> ev & mask != 0 && ev & ABORT_BIT == 0,
    {
        proof {
            lemma_union_meets(self.pending_events@, mask);
            lemma_first_match(self.pending_events@, mask);
        }
        if (self.pending_event_set & mask) == 0 {
            return None;
        }
        let n: usize = self.pending_events.len();
        let mut pos: usize = 0;
        while pos < n && (self.pending_events[pos] & mask) == 0
            invariant
                pos <= n,
                n == self.pending_events@.len(),
                *self == *old(self),
                forall|j: int| 0 <= j < pos ==> #[trigger] self.pending_events@[j] & mask == 0,
            decreases n - pos,
        {
            pos += 1;
        }
        proof {
            lemma_first_match_at(self.pending_events@, mask, pos as int);
        }
        let taken = self.pending_events.remove(pos);
        self.recompute_pending_set();
        taken
    }

    /// Sorts one event that arrived while the thread waits with `mask`: an
    /// event that neither aborts nor matches goes to the end of the buffer.
    pub fn deliver(&mut self, mask: u8, ev: u8) -> (d: Delivery)
        requires
            old(self).wf(),
        ensures
            final(self).wf(),
            final(self).mode() == old(self).mode(),
            final(self).queue() == old(self).queue(),
            d == delivery(mask, ev),
            d == Delivery::Buffered ==> final(self).pending() == old(self).pending().push(ev),
            d != Delivery::Buffered ==> final(self).pending() == old(self).pending(),
    {
        let d = classify(mask, ev);
        match d {
            Delivery::Buffered => {
                proof {
                    lemma_union_push(self.pending_events@, ev);
                }
                self.pending_events.push_back(ev);
                self.pending_event_set = self.pending_event_set | ev;
            },
            _ => {},
        }
        d
    }

    /// Goes on with a wait that was left `Pending`, with the next event `ev`
    /// from the thread's queue.
    pub fn resume_wait(&mut self, mask: u8, ev: u8) -> (r: WaitStep)
        requires
            old(self).wf(),
        ensures
            final(self).wf(),
            final(self).mode() == old(self).mode(),
            final(self).queue() == old(self).queue(),
            r == poll_outcome(mask, QueuePoll::Event(ev)),
            r == WaitStep::Pending ==> final(self).pending() == old(self).pending().push(ev),
            r != WaitStep::Pending ==> final(self).pending() == old(self).pending(),
            r matches WaitStep::Done(Ok(e)) ==> e == ev && ev & mask != 0 && ev & ABORT_BIT == 0,
    {
        match self.deliver(mask, ev) {
            Delivery::Abort => WaitStep::Done(Err(ErrorKind::Other)),
            Delivery::Matched(e) => WaitStep::Done(Ok(e as u64)),
            Delivery::Buffered => WaitStep::Pending,
        }
    }

    /// Waits for an event in `event_mask`.
    ///
    /// A timeout other than `WAIT_NO` and `WAIT_INDEFINITE`, and a mask with a
    /// bit outside the three enclave-visible events, are refused with
    /// `InvalidInput`. Otherwise the oldest buffered event that matches ends
    /// the wait at once. Without one, a wait with `WAIT_INDEFINITE` is left
    /// `Pending`, and a wait with `WAIT_NO` takes events from the queue until
    /// one matches, one aborts (`Other`), or the queue is empty
    /// (`WouldBlock`); what does not match goes into the buffer.
    pub fn wait(&mut self, event_mask: u64, timeout: u64) -> (r: WaitStep)
        requires
            old(self).wf(),
        ensures
            final(self).wf(),
            final(self).mode() == old(self).mode(),
            wait_refused(event_mask, timeout) <==> r == WaitStep::Done(
                Err(ErrorKind::InvalidInput),
            ),
            wait_refused(event_mask, timeout) ==> {
                &&& final(self).pending() == old(self).pending()
                &&& final(self).queue() == old(self).queue()
            },
            !wait_refused(event_mask, timeout) ==> ({
                let mask = event_mask as u8;
                let i = first_match(old(self).pending(), mask);
                if i < old(self).pending().len() {
                    &&& r == WaitStep::Done(Ok(old(self).pending()[i] as u64))
                    &&& final(self).pending() == old(self).pending().remove(i)
                    &&& final(self).queue() == old(self).queue()
                } else if timeout == WAIT_INDEFINITE {
                    &&& r == WaitStep::Pending
                    &&& final(self).pending() == old(self).pending()
                    &&& final(self).queue() == old(self).queue()
                } else {
                    exists|buffered: Seq<u8>, last: QueuePoll| #[trigger]
                        drained(
                            mask,
                            old(self).pending(),
                            buffered,
                            last,
                            final(self).pending(),
                            r,
                        )
                }
            }),
            r matches WaitStep::Done(Ok(e)) ==> e & event_mask != 0 && e & EV_ABORT == 0,
    {
        let block: bool = if timeout == WAIT_NO {
            false
        } else if timeout == WAIT_INDEFINITE {
            true
        } else {
            return WaitStep::Done(Err(ErrorKind::InvalidInput));
        };
        let mask: u8 = match check_event_set(event_mask) {
            Ok(mask) => mask,
            Err(e) => {
                return WaitStep::Done(Err(e));
            },
        };
        assert(forall|e: u8|
            event_mask <= 7 && (#[trigger] (e & (event_mask as u8)) != 0) && e & 8 == 0 ==> (e as u64)
                & event_mask != 0 && (e as u64) & 8 == 0) by (bit_vector);
        match self.take_pending(mask) {
            Some(ev) => {
                return WaitStep::Done(Ok(ev as u64));
            },
            None => {},
        }
        if block {
            return WaitStep::Pending;
        }
        let ghost buffered: Seq<u8> = Seq::empty();
        loop
            invariant
                self.wf(),
                self.mode() == old(self).mode(),
                all_buffered(mask, buffered),
                self.pending() == old(self).pending() + buffered,
                mask == event_mask as u8,
                event_mask <= 7,
                !wait_refused(event_mask, timeout),
                timeout != WAIT_INDEFINITE,
                first_match(old(self).pending(), mask) >= old(self).pending().len(),
                forall|e: u8|
                    event_mask <= 7 && (#[trigger] (e & (event_mask as u8)) != 0) && e & 8 == 0 ==> (e as u64)
                        & event_mask != 0 && (e as u64) & 8 == 0,
            decreases usize::MAX - self.pending_events.len(),
        {
            let found = poll_event(&mut self.event_queue);
            let step = match found {
                QueuePoll::Event(ev) => self.resume_wait(mask, ev),
                QueuePoll::Empty => WaitStep::Done(Err(ErrorKind::WouldBlock)),
                QueuePoll::Closed => WaitStep::Disconnected,
            };
            match step {
                WaitStep::Pending => {
                    proof {
                        let ev = found->Event_0;
                        assert(old(self).pending() + buffered.push(ev) == (old(self).pending()
                            + buffered).push(ev));
                        buffered = buffered.push(ev);
                    }
                },
                _ => {
                    assert(drained(
                        mask,
                        old(self).pending(),
                        buffered,
                        found,
                        self.pending(),
                        step,
                    ));
                    return step;
                },
            }
        }
    }
}

} // verus!
