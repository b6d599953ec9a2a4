//! Work for the threads that enter the enclave, and the queue that carries it
//! to them.

use vstd::prelude::*;
use crossbeam::channel::{Receiver, Sender};
use crate::tcs::RunningTcs;

verus! {

/// `crossbeam::channel::Sender`, carried as an opaque value.
#[verifier::external_type_specification]
#[verifier::external_body]
#[verifier::reject_recursive_types(T)]
pub struct ExSender<T>(Sender<T>);

/// `crossbeam::channel::Receiver`, carried as an opaque value.
#[verifier::external_type_specification]
#[verifier::external_body]
#[verifier::reject_recursive_types(T)]
pub struct ExReceiver<T>(Receiver<T>);

/// How to enter the enclave: afresh with five parameters on the thread `T`,
/// or back into the usercall `U` that a thread stopped in, with its two
/// results.
pub enum CoEntry<T, U> {
    Initial(T, u64, u64, u64, u64, u64),
    Resume(U, (u64, u64)),
}

/// One entry into the enclave, with the state of the thread that makes it.
pub struct Work<T, U> {
    pub tcs: RunningTcs,
    pub entry: CoEntry<T, U>,
}

/// The sending half of the queue that brings work to the worker threads. The
/// queue is unbounded, so that handing work in never blocks.
#[verifier::reject_recursive_types(T)]
#[verifier::reject_recursive_types(U)]
pub struct WorkSender<T, U> {
    sender: Sender<Work<T, U>>,
}

/// Makes a work queue with `crossbeam::channel::unbounded`.
#[verifier::external_body]
fn unbounded_work_queue<T, U>() -> (halves: (Sender<Work<T, U>>, Receiver<Work<T, U>>)) {
    crossbeam::channel::unbounded()
}

/// Hands `work` to the queue with `Sender::send`.
///
/// Trusted: when every receiver is gone the call fails and gives the very
/// work back that it was given. On an unbounded queue it does not block.
#[verifier::external_body]
fn send_work<T, U>(sender: &Sender<Work<T, U>>, work: Work<T, U>) -> (r: Result<(), Work<T, U>>)
    ensures
        r matches Err(back) ==> back == work,
{
    sender.send(work).map_err(|e| e.0)
}

impl<T, U> WorkSender<T, U> {
    /// A new work queue: the half that takes work, and the half from which
    /// the workers draw it.
    pub fn channel() -> (halves: (WorkSender<T, U>, Receiver<Work<T, U>>)) {
        let (sender, receiver) = unbounded_work_queue();
        (WorkSender { sender }, receiver)
    }

    /// Hands `work` to the workers. Where no worker is left to take it, the
    /// work comes back.
    pub fn send(&self, work: Work<T, U>) -> (r: Result<(), Work<T, U>>)
        ensures
            r matches Err(back) ==> back == work,
    {
        send_work(&self.sender, work)
    }
}

} // verus!
