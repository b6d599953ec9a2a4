//! Wake-up discipline for streams and listeners that several enclave threads
//! use at once: tasks whose operation could not complete are parked in a
//! queue, and an operation that completes wakes every other parked task.

use vstd::prelude::*;
use std::collections::VecDeque;
use std::task::Waker;
use crate::error::ErrorKind;

verus! {

/// `std::task::Waker`, carried as an opaque value.
#[verifier::external_type_specification]
#[verifier::external_body]
pub struct ExWaker(Waker);

/// The answer of `Waker::will_wake` for the two wakers: `true` only if both
/// wake the same task.
pub uninterp spec fn will_wake(task: Waker, other: Waker) -> bool;

/// Asks `Waker::will_wake` whether `task` wakes the task of `other`.
#[verifier::external_body]
fn same_task(task: &Waker, other: &Waker) -> (same: bool)
    ensures
        same == will_wake(*task, *other),
{
    task.will_wake(other)
}

/// Wakes the task with `Waker::wake`.
#[verifier::external_body]
fn wake_task(task: Waker) {
    task.wake()
}

/// Makes another handle of the task with `Waker::clone`.
#[verifier::external_body]
fn another_handle(task: &Waker) -> (handle: Waker) {
    task.clone()
}

/// How one poll of a stream or listener ended, as far as the wake-up
/// discipline cares.
#[derive(Clone, Copy, Debug, PartialEq, Eq, Structural)]
pub enum PollOutcome {
    /// The operation could not complete yet.
    Pending,
    /// The operation completed.
    ReadyOk,
    /// The operation failed.
    ReadyErr,
}

/// The number of tasks in `parked` that `will_wake` does not take for the
/// task of `current`.
pub open spec fn others(parked: Seq<Waker>, current: Waker) -> nat
    decreases parked.len(),
{
    if parked.len() == 0 {
        0
    } else {
        others(parked.drop_first(), current) + if will_wake(parked[0], current) {
            0nat
        } else {
            1nat
        }
    }
}

/// Wakes every task of `queue` but those of the current task, the one parked
/// first before the others, and leaves the queue empty. Returns the number of
/// tasks woken.
pub fn notify_other_tasks(current: &Waker, queue: &mut VecDeque<Waker>) -> (woken: usize)
    ensures
        final(queue)@.len() == 0,
        woken == others(old(queue)@, *current),
{
    let parked: usize = queue.len();
    let mut woken: usize = 0;
    loop
        invariant
            woken + others(queue@, *current) == others(old(queue)@, *current),
            woken + queue@.len() <= parked,
        ensures
            queue@.len() == 0,
            woken == others(old(queue)@, *current),
        decreases queue@.len(),
    {
        let ghost before = queue@;
        match queue.pop_front() {
            None => {
                break ;
            },
            Some(task) => {
                assert(queue@ == before.drop_first());
                if !same_task(&task, current) {
                    wake_task(task);
                    woken = woken + 1;
                }
            },
        }
    }
    woken
}

/// The tasks parked on one kind of operation.
pub struct WakeQueue {
    parked: VecDeque<Waker>,
}

impl View for WakeQueue {
    type V = Seq<Waker>;

    closed spec fn view(&self) -> Seq<Waker> {
        self.parked@
    }
}

/// Whether `after` is `before` with one more task parked at its end.
pub open spec fn parked_one(before: Seq<Waker>, after: Seq<Waker>) -> bool {
    after.len() == before.len() + 1 && after.take(before.len() as int) == before
}

impl WakeQueue {
    /// No task is parked.
    pub fn new() -> (queue: WakeQueue)
        ensures
            queue@ == Seq::<Waker>::empty(),
    {
        WakeQueue { parked: VecDeque::new() }
    }

    /// The number of parked tasks.
    pub fn len(&self) -> (n: usize)
        ensures
            n == self@.len(),
    {
        self.parked.len()
    }

    /// Takes in how a poll made by the task `current` ended. A pending poll
    /// parks the task. A poll that completed wakes every parked task but
    /// the current one and empties the queue. A poll that failed changes
    /// nothing: only the current task sees the error, the others stay
    /// parked. Returns the number of tasks woken.
    pub fn settle(&mut self, current: &Waker, outcome: PollOutcome) -> (woken: usize)
        ensures
            match outcome {
                PollOutcome::Pending => parked_one(old(self)@, final(self)@) && woken == 0,
                PollOutcome::ReadyOk => final(self)@.len() == 0 && woken == others(
                    old(self)@,
                    *current,
                ),
                PollOutcome::ReadyErr => final(self)@ == old(self)@ && woken == 0,
            },
    {
        match outcome {
            PollOutcome::Pending => {
                self.parked.push_back(another_handle(current));
                assert(self.parked@.take(old(self)@.len() as int) == old(self)@);
                0
            },
            PollOutcome::ReadyOk => notify_other_tasks(current, &mut self.parked),
            PollOutcome::ReadyErr => 0,
        }
    }
}

/// The operations on a stream that park tasks, each in a queue of its own.
#[derive(Clone, Copy, Debug, PartialEq, Eq, Structural)]
pub enum StreamOp {
    Read,
    Write,
    Flush,
}

/// A stream with the tasks parked on it.
pub struct AsyncStreamAdapter<S> {
    stream: S,
    read_queue: WakeQueue,
    write_queue: WakeQueue,
    flush_queue: WakeQueue,
}

impl<S> AsyncStreamAdapter<S> {
    /// The stream.
    pub closed spec fn inner(&self) -> S {
        self.stream
    }

    /// The tasks parked on `op`, the one parked first at the front.
    pub closed spec fn parked(&self, op: StreamOp) -> Seq<Waker> {
        match op {
            StreamOp::Read => self.read_queue@,
            StreamOp::Write => self.write_queue@,
            StreamOp::Flush => self.flush_queue@,
        }
    }

    /// An adapter for `stream` on which nothing is parked.
    pub fn new(stream: S) -> (adapter: Self)
        ensures
            adapter.inner() == stream,
            forall|op: StreamOp| #[trigger] adapter.parked(op) == Seq::<Waker>::empty(),
    {
        AsyncStreamAdapter {
            stream,
            read_queue: WakeQueue::new(),
            write_queue: WakeQueue::new(),
            flush_queue: WakeQueue::new(),
        }
    }

    /// The stream, for the poll itself. The parked tasks are not touched.
    pub fn stream(&mut self) -> (stream: &mut S)
        ensures
            *stream == old(self).inner(),
            final(self).inner() == *final(stream),
            forall|op: StreamOp| #[trigger] final(self).parked(op) == old(self).parked(op),
    {
        &mut self.stream
    }

    /// The number of tasks parked on `op`.
    pub fn parked_len(&self, op: StreamOp) -> (n: usize)
        ensures
            n == self.parked(op).len(),
    {
        match op {
            StreamOp::Read => self.read_queue.len(),
            StreamOp::Write => self.write_queue.len(),
            StreamOp::Flush => self.flush_queue.len(),
        }
    }

    /// Takes in how a poll for `op` made by the task `current` ended; see
    /// `WakeQueue::settle`. Only the queue of `op` changes. Returns the
    /// number of tasks woken.
    pub fn settle(&mut self, op: StreamOp, current: &Waker, outcome: PollOutcome) -> (woken: usize)
        ensures
            final(self).inner() == old(self).inner(),
            forall|other: StreamOp|
                other != op ==> #[trigger] final(self).parked(other) == old(self).parked(other),
            match outcome {
                PollOutcome::Pending => parked_one(old(self).parked(op), final(self).parked(op))
                    && woken == 0,
                PollOutcome::ReadyOk => final(self).parked(op).len() == 0 && woken == others(
                    old(self).parked(op),
                    *current,
                ),
                PollOutcome::ReadyErr => final(self).parked(op) == old(self).parked(op) && woken
                    == 0,
            },
    {
        match op {
            StreamOp::Read => self.read_queue.settle(current, outcome),
            StreamOp::Write => self.write_queue.settle(current, outcome),
            StreamOp::Flush => self.flush_queue.settle(current, outcome),
        }
    }
}

/// A listener with the tasks parked on accepting from it.
pub struct AsyncListenerAdapter<L> {
    listener: L,
    accept_queue: WakeQueue,
}

impl<L> AsyncListenerAdapter<L> {
    /// The listener.
    pub closed spec fn inner(&self) -> L {
        self.listener
    }

    /// The tasks parked on accepting, the one parked first at the front.
    pub closed spec fn parked(&self) -> Seq<Waker> {
        self.accept_queue@
    }

    /// An adapter for `listener` on which nothing is parked.
    pub fn new(listener: L) -> (adapter: Self)
        ensures
            adapter.inner() == listener,
            adapter.parked() == Seq::<Waker>::empty(),
    {
        AsyncListenerAdapter { listener, accept_queue: WakeQueue::new() }
    }

    /// The listener, for the poll itself. The parked tasks are not touched.
    pub fn listener(&mut self) -> (listener: &mut L)
        ensures
            *listener == old(self).inner(),
            final(self).inner() == *final(listener),
            final(self).parked() == old(self).parked(),
    {
        &mut self.listener
    }

    /// The number of parked tasks.
    pub fn parked_len(&self) -> (n: usize)
        ensures
            n == self.parked().len(),
    {
        self.accept_queue.len()
    }

    /// Takes in how a poll for a connection made by the task `current`
    /// ended; see `WakeQueue::settle`. Returns the number of tasks woken.
    pub fn settle(&mut self, current: &Waker, outcome: PollOutcome) -> (woken: usize)
        ensures
            final(self).inner() == old(self).inner(),
            match outcome {
                PollOutcome::Pending => parked_one(old(self).parked(), final(self).parked())
                    && woken == 0,
                PollOutcome::ReadyOk => final(self).parked().len() == 0 && woken == others(
                    old(self).parked(),
                    *current,
                ),
                PollOutcome::ReadyErr => final(self).parked() == old(self).parked() && woken == 0,
            },
    {
        self.accept_queue.settle(current, outcome)
    }
}

/// The direction in which one of the standard streams can be used.
#[derive(Clone, Copy, Debug, PartialEq, Eq, Structural)]
pub enum Direction {
    /// A stream that can only be read from, as standard input.
    ReadOnly,
    /// A stream that can only be written to, as standard output and error.
    WriteOnly,
}

/// What can be asked of a stream.
#[derive(Clone, Copy, Debug, PartialEq, Eq, Structural)]
pub enum StreamRequest {
    Read,
    Write,
    Flush,
    Shutdown,
}

/// Whether a stream of the given direction serves `request`: a read-only
/// stream serves reads and a write-only stream everything else. What is not
/// served is a broken pipe.
pub fn check_direction(direction: Direction, request: StreamRequest) -> (r: Result<(), ErrorKind>)
    ensures
        r.is_ok() <==> ((direction == Direction::ReadOnly) <==> (request == StreamRequest::Read)),
        r.is_err() ==> r == Err::<(), ErrorKind>(ErrorKind::BrokenPipe),
{
    match (direction, request) {
        (Direction::ReadOnly, StreamRequest::Read) => Ok(()),
        (Direction::ReadOnly, _) => Err(ErrorKind::BrokenPipe),
        (Direction::WriteOnly, StreamRequest::Read) => Err(ErrorKind::BrokenPipe),
        (Direction::WriteOnly, _) => Ok(()),
    }
}

} // verus!
