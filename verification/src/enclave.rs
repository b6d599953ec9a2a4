//! The supervisor of one enclave: its kind, its event queues, its file
//! descriptors, the threads that wait to be entered, and whether it is
//! shutting down.

use vstd::prelude::*;
use std::collections::VecDeque;
use crate::abi::{Fd, FD_STDERR, FD_STDIN, FD_STDOUT};
use crate::error::{
    message_bytes, panic_text, utf8_panic_text, EnclaveAbort, EnclavePanic, EntryError,
    ErrorKind, ThreadResult,
};
use crate::events::{check_event_set, is_event_set, ABORT_BIT};
use crate::fd::{AsyncFileDesc, FdTable, FdTableView};
use crate::queues::{
    fresh_queue, offered, queues_step, refused, took, EventQueues, QueueMap,
};
use crate::reasons::{verdict, PanicReason, PanicReasonView};
use crate::tcs::{EnclaveEntry, RunningTcs, StoppedTcs, TcsAddress};
use crate::work::{CoEntry, Work, WorkSender};

verus! {

/// What only a command enclave has.
pub struct Command {
    pub panic_reason: PanicReason,
}

/// What only a library enclave has.
pub struct Library {}

/// The two kinds of enclave: one with a main thread that runs to its exit,
/// and one that is entered call by call.
pub enum EnclaveKind {
    Command(Command),
    Library(Library),
}

/// The mathematical content of an `EnclaveKind`.
pub enum EnclaveKindView {
    /// A command enclave, with the reasons recorded so far.
    Command(PanicReasonView),
    Library,
}

impl EnclaveKindView {
    /// The primary reason recorded, if the enclave is a command enclave and
    /// has one.
    pub open spec fn primary(self) -> Option<EnclaveAbort<EnclavePanic>> {
        match self {
            EnclaveKindView::Command(reasons) => reasons.primary,
            EnclaveKindView::Library => None,
        }
    }

    /// The kind with the primary reason taken out.
    pub open spec fn without_primary(self) -> EnclaveKindView {
        match self {
            EnclaveKindView::Command(reasons) => EnclaveKindView::Command(
                PanicReasonView { primary: None, others: reasons.others },
            ),
            EnclaveKindView::Library => EnclaveKindView::Library,
        }
    }

    /// The kind after a thread that was entered in `mode` ended with
    /// `result`.
    pub open spec fn after(self, result: ThreadResult, mode: EnclaveEntry) -> EnclaveKindView {
        match self {
            EnclaveKindView::Command(reasons) => EnclaveKindView::Command(
                reasons.after(result, mode),
            ),
            EnclaveKindView::Library => EnclaveKindView::Library,
        }
    }
}

impl View for EnclaveKind {
    type V = EnclaveKindView;

    open spec fn view(&self) -> EnclaveKindView {
        match *self {
            EnclaveKind::Command(c) => EnclaveKindView::Command(c.panic_reason@),
            EnclaveKind::Library(_) => EnclaveKindView::Library,
        }
    }
}

impl EnclaveKind {
    /// A command enclave that has not recorded any reason yet.
    pub fn command() -> (kind: EnclaveKind)
        ensures
            kind@ == EnclaveKindView::Command(PanicReasonView::empty()),
    {
        EnclaveKind::Command(Command { panic_reason: PanicReason::new() })
    }

    /// A library enclave.
    pub fn library() -> (kind: EnclaveKind)
        ensures
            kind@ == EnclaveKindView::Library,
    {
        EnclaveKind::Library(Library {  })
    }

    /// The command part, if this is a command enclave.
    pub fn as_command(&self) -> (c: Option<&Command>)
        ensures
            match *self {
                EnclaveKind::Command(cmd) => c == Some(&cmd),
                EnclaveKind::Library(_) => c.is_none(),
            },
    {
        match self {
            EnclaveKind::Command(c) => Some(c),
            _ => None,
        }
    }

    /// The library part, if this is a library enclave.
    pub fn _as_library(&self) -> (l: Option<&Library>)
        ensures
            match *self {
                EnclaveKind::Library(lib) => l == Some(&lib),
                EnclaveKind::Command(_) => l.is_none(),
            },
    {
        match self {
            EnclaveKind::Library(l) => Some(l),
            _ => None,
        }
    }
}

/// A thread as the loader hands it over: its handle and its address.
pub struct LoadedTcs<T> {
    pub tcs: T,
    pub address: TcsAddress,
}

/// Whether the threads have addresses that differ from each other and from
/// every address in `taken`.
pub open spec fn fresh_addresses<T>(threads: Seq<LoadedTcs<T>>, taken: Set<TcsAddress>) -> bool {
    &&& forall|i: int| 0 <= i < threads.len() ==> !taken.contains(#[trigger] threads[i].address)
    &&& forall|i: int, j: int|
        0 <= i < j < threads.len() ==> (#[trigger] threads[i]).address != (
        #[trigger] threads[j]).address
}

/// Whether one of the threads has the address `a`.
pub open spec fn has_address<T>(threads: Seq<LoadedTcs<T>>, a: TcsAddress) -> bool {
    exists|i: int| 0 <= i < threads.len() && #[trigger] threads[i].address == a
}

/// The addresses of the threads.
pub open spec fn addresses<T>(threads: Seq<LoadedTcs<T>>) -> Set<TcsAddress> {
    Set::new(|a: TcsAddress| has_address(threads, a))
}

/// The supervisor of one enclave. `T` is the loader's handle of a thread,
/// `S` a stream and `L` a listener.
pub struct EnclaveState<T, S, L> {
    kind: EnclaveKind,
    event_queues: EventQueues,
    fds: FdTable<S, L>,
    exiting: bool,
    threads_queue: VecDeque<StoppedTcs<T>>,
    forward_panics: bool,
}

/// The mathematical content of a supervisor.
pub struct EnclaveStateView<T, S, L> {
    pub kind: EnclaveKindView,
    /// For each registered thread address, the sending half of its event
    /// queue.
    pub queues: QueueMap,
    pub fds: FdTableView<S, L>,
    pub exiting: bool,
    /// The threads that wait to be entered, the next one first.
    pub threads: Seq<StoppedTcs<T>>,
    pub forward_panics: bool,
}

impl<T, S, L> View for EnclaveState<T, S, L> {
    type V = EnclaveStateView<T, S, L>;

    closed spec fn view(&self) -> EnclaveStateView<T, S, L> {
        EnclaveStateView {
            kind: self.kind@,
            queues: self.event_queues@,
            fds: self.fds@,
            exiting: self.exiting,
            threads: self.threads_queue@,
            forward_panics: self.forward_panics,
        }
    }
}

/// Why an event was not sent.
#[derive(Clone, Copy, Debug, PartialEq, Eq, Structural)]
pub enum SendError {
    /// The event set or the target was refused.
    InvalidInput,
    /// The queue of the target has lost its receiving half. Nothing in the
    /// runner drops it while the thread may still be sent to, so a caller
    /// treats this as a fault of the runner.
    Disconnected,
}

/// Whether a send is refused before anything is queued: the set holds a bit
/// that is no enclave-visible event, it is empty, or the target is unknown.
pub open spec fn send_refused(
    queues: QueueMap,
    event_set: u64,
    target: Option<TcsAddress>,
) -> bool {
    ||| !is_event_set(event_set)
    ||| event_set == 0
    ||| (target matches Some(a) && !queues.contains_key(a))
}

/// Whether every queue of `before` is there in `after` and was offered `ev`
/// once, and no queue was added.
pub open spec fn all_offered(before: QueueMap, ev: u8, after: QueueMap) -> bool {
    &&& after.dom() == before.dom()
    &&& forall|a: TcsAddress|
        before.contains_key(a) ==> offered(before[a], ev, #[trigger] after[a])
}

/// What the reactor does next with a thread whose usercall has been handled.
pub enum IoAction<T, U> {
    /// Hand this work to the workers: the thread goes on in the enclave.
    Resume(Work<T, U>),
    /// The thread has stopped: tell the return task what it ended with.
    Report(ThreadResult, EnclaveEntry),
    /// The enclave panicked and panics are forwarded: bring the host down
    /// with this panic.
    ForwardPanic(EnclavePanic),
}

/// Whether the main thread itself ended in a way that counts as a panic.
pub open spec fn main_panicking(main_result: ThreadResult) -> bool {
    main_result matches Err(e) && (e is MainReturned || e is InvalidUsercall || e is Exit)
}

/// The outcome of a command enclave: what the main thread ended with, unless
/// it did not panic and a launched thread left a primary reason, which then
/// outranks it.
pub open spec fn consolidated(
    main_result: ThreadResult,
    primary: Option<EnclaveAbort<EnclavePanic>>,
) -> ThreadResult {
    match primary {
        Some(reason) if !main_panicking(main_result) => Err(reason),
        _ => main_result,
    }
}

/// How the outcome of a command enclave is told to the caller.
pub open spec fn main_outcome(outcome: ThreadResult) -> Result<(), EntryError> {
    match outcome {
        Ok(_) => Ok(()),
        Err(EnclaveAbort::Exit { panic }) => Err(EntryError::Panic(panic)),
        Err(EnclaveAbort::IndefiniteWait) => Err(EntryError::AllThreadsWaiting),
        Err(EnclaveAbort::InvalidUsercall(n)) => Err(EntryError::InvalidUsercall(n)),
        Err(EnclaveAbort::MainReturned) => Err(EntryError::MainReturned),
        Err(EnclaveAbort::Secondary) => Err(EntryError::Secondary),
    }
}

/// How the outcome of a library call is told to the caller.
pub open spec fn library_outcome(outcome: ThreadResult) -> Result<(u64, u64), EntryError> {
    match outcome {
        Ok(ret) => Ok(ret),
        Err(EnclaveAbort::Exit { panic }) => Err(EntryError::Panic(panic)),
        Err(EnclaveAbort::IndefiniteWait) => Err(EntryError::ThreadWaiting),
        Err(EnclaveAbort::InvalidUsercall(n)) => Err(EntryError::InvalidUsercall(n)),
        Err(EnclaveAbort::Secondary) => Err(EntryError::Secondary),
        Err(EnclaveAbort::MainReturned) => Err(EntryError::MainReturned),
    }
}

/// Tells the caller of a library call what the call ended with.
pub fn library_entry_finish(library_result: ThreadResult) -> (r: Result<(u64, u64), EntryError>)
    ensures
        r == library_outcome(library_result),
{
    match library_result {
        Ok(result) => Ok(result),
        Err(EnclaveAbort::Exit { panic }) => Err(EntryError::Panic(panic)),
        Err(EnclaveAbort::IndefiniteWait) => Err(EntryError::ThreadWaiting),
        Err(EnclaveAbort::InvalidUsercall(n)) => Err(EntryError::InvalidUsercall(n)),
        Err(EnclaveAbort::Secondary) => Err(EntryError::Secondary),
        Err(EnclaveAbort::MainReturned) => Err(EntryError::MainReturned),
    }
}

/// The number of worker threads for an enclave of the given kind on a host
/// with `cpus` processors: one for a library enclave, which is entered by one
/// caller at a time, and one for each processor for a command enclave.
pub open spec fn worker_count(kind: EnclaveKindView, cpus: usize) -> usize {
    match kind {
        EnclaveKindView::Library => 1,
        EnclaveKindView::Command(_) => cpus,
    }
}

/// The number of worker threads for an enclave of the given kind on a host
/// with `cpus` processors.
pub fn workers_for(kind: &EnclaveKind, cpus: usize) -> (n: usize)
    ensures
        n == worker_count(kind@, cpus),
{
    match kind {
        EnclaveKind::Command(_) => cpus,
        EnclaveKind::Library(_) => 1,
    }
}

/// The number of processors of the host, from `num_cpus::get`, which is at
/// least one.
#[verifier::external_body]
fn host_cpus() -> (n: usize)
    ensures
        n >= 1,
{
    num_cpus::get()
}

impl<T, S, L> EnclaveState<T, S, L> {
    /// The parts of the supervisor are well formed.
    pub closed spec fn wf(&self) -> bool {
        &&& self.event_queues.wf()
        &&& self.fds.wf()
    }

    /// Well-formedness shows in the view.
    pub proof fn lemma_wf(&self)
        requires
            self.wf(),
        ensures
            self@.fds.wf(),
    {
    }

    /// Registers the thread `tcs` in `event_queues` and returns it as a
    /// stopped thread with the receiving half of its new queue. Its address
    /// must not be registered yet.
    pub fn event_queue_add_tcs(event_queues: &mut EventQueues, tcs: LoadedTcs<T>) -> (stopped:
        StoppedTcs<T>)
        requires
            old(event_queues).wf(),
            !old(event_queues)@.contains_key(tcs.address),
        ensures
            final(event_queues).wf(),
            final(event_queues)@ == old(event_queues)@.insert(
                tcs.address,
                final(event_queues)@[tcs.address],
            ),
            queues_step(old(event_queues)@, final(event_queues)@),
            fresh_queue(final(event_queues)@[tcs.address], stopped.event_queue),
            stopped.tcs == tcs.tcs,
    {
        let event_queue = event_queues.register(tcs.address);
        StoppedTcs { tcs: tcs.tcs, event_queue }
    }

    /// A supervisor for an enclave of the given kind. The standard streams
    /// get the descriptors 0, 1 and 2; every thread of `threads_vector` gets
    /// an event queue and waits to be entered, in the order given.
    pub fn new(
        kind: EnclaveKind,
        event_queues: EventQueues,
        stdin: S,
        stdout: S,
        stderr: S,
        threads_vector: Vec<LoadedTcs<T>>,
        forward_panics: bool,
    ) -> (enclave: Self)
        requires
            event_queues.wf(),
            fresh_addresses(threads_vector@, event_queues@.dom()),
        ensures
            enclave.wf(),
            enclave@.kind == kind@,
            enclave@.exiting == false,
            enclave@.forward_panics == forward_panics,
            enclave@.fds.last_fd == 2,
            enclave@.fds.open == Map::<Fd, AsyncFileDesc<S, L>>::empty().insert(
                FD_STDIN,
                AsyncFileDesc::Stream(stdin),
            ).insert(FD_STDOUT, AsyncFileDesc::Stream(stdout)).insert(
                FD_STDERR,
                AsyncFileDesc::Stream(stderr),
            ),
            enclave@.queues.dom() == event_queues@.dom().union(addresses(threads_vector@)),
            forall|a: TcsAddress|
                event_queues@.contains_key(a) ==> #[trigger] enclave@.queues[a] == event_queues@[a],
            enclave@.threads.len() == threads_vector@.len(),
            forall|i: int|
                0 <= i < threads_vector@.len() ==> (#[trigger] enclave@.threads[i]).tcs
                    == threads_vector@[i].tcs,
            forall|i: int|
                0 <= i < threads_vector@.len() ==> fresh_queue(
                    enclave@.queues[threads_vector@[i].address],
                    (#[trigger] enclave@.threads[i]).event_queue,
                ),
    {
        let mut event_queues = event_queues;
        let fds = FdTable::new(stdin, stdout, stderr);
        let mut threads_queue: VecDeque<StoppedTcs<T>> = VecDeque::new();
        let ghost given = event_queues@;
        let ghost all = threads_vector@;
        for thread in it: threads_vector
            invariant
                it.seq() == all,
                event_queues.wf(),
                fresh_addresses(all, given.dom()),
                threads_queue@.len() == it.index(),
                forall|i: int|
                    0 <= i < it.index() ==> (#[trigger] threads_queue@[i]).tcs == all[i].tcs,
                forall|a: TcsAddress|
                    event_queues@.contains_key(a) <==> (given.contains_key(a) || exists|i: int|
                        0 <= i < it.index() && #[trigger] all[i].address == a),
                forall|a: TcsAddress|
                    given.contains_key(a) ==> #[trigger] event_queues@[a] == given[a],
                forall|i: int|
                    0 <= i < it.index() ==> fresh_queue(
                        event_queues@[all[i].address],
                        (#[trigger] threads_queue@[i]).event_queue,
                    ),
        {
            let ghost k = it.index();
            assert(thread == all[k]);
            assert(!event_queues@.contains_key(thread.address)) by {
                if event_queues@.contains_key(thread.address) {
                    if !given.contains_key(thread.address) {
                        let i = choose|i: int| 0 <= i < k && #[trigger] all[i].address == thread.address;
                        assert(all[i].address != all[k].address);
                    }
                }
            }
            let ghost before = event_queues@;
            let stopped = Self::event_queue_add_tcs(&mut event_queues, thread);
            threads_queue.push_back(stopped);
            assert forall|i: int| 0 <= i < k + 1 implies fresh_queue(
                event_queues@[all[i].address],
                (#[trigger] threads_queue@[i]).event_queue,
            ) by {
                if i < k {
                    assert(all[i].address != all[k].address);
                    assert(before.contains_key(all[i].address));
                }
            }
            assert forall|a: TcsAddress|
                event_queues@.contains_key(a) <==> (given.contains_key(a) || exists|i: int|
                    0 <= i < k + 1 && #[trigger] all[i].address == a) by {
                if a == all[k].address {
                    assert(0 <= k < k + 1 && all[k].address == a);
                }
            }
        }
        proof {
            assert(event_queues@.dom() =~= given.dom().union(addresses(all))) by {
                assert forall|a: TcsAddress| event_queues@.contains_key(a) implies given.dom().union(
                    addresses(all),
                ).contains(a) by {
                    if !given.contains_key(a) {
                        let i = choose|i: int|
                            0 <= i < all.len() && #[trigger] all[i].address == a;
                        assert(has_address(all, a));
                    }
                }
                assert forall|a: TcsAddress|
                    given.dom().union(addresses(all)).contains(a) implies event_queues@.contains_key(
                    a,
                ) by {
                    if !given.contains_key(a) {
                        assert(has_address(all, a));
                        let i = choose|i: int|
                            0 <= i < all.len() && #[trigger] all[i].address == a;
                        assert(all[i].address == a);
                    }
                }
            }
        }
        EnclaveState {
            kind,
            event_queues,
            fds,
            exiting: false,
            threads_queue,
            forward_panics,
        }
    }

    /// Whether the enclave is shutting down.
    pub fn is_exiting(&self) -> (exiting: bool)
        ensures
            exiting == self@.exiting,
    {
        self.exiting
    }

    /// Whether panics of the enclave are to bring the host down with them.
    pub fn forward_panics(&self) -> (forward: bool)
        ensures
            forward == self@.forward_panics,
    {
        self.forward_panics
    }

    /// The kind of the enclave, with the reasons recorded so far.
    pub fn kind(&self) -> (kind: &EnclaveKind)
        ensures
            kind@ == self@.kind,
    {
        &self.kind
    }

    /// The number of threads that wait to be entered.
    pub fn stopped_threads(&self) -> (n: usize)
        ensures
            n == self@.threads.len(),
    {
        self.threads_queue.len()
    }

    /// Whether the thread at `address` has an event queue.
    pub fn has_event_queue(&self, address: TcsAddress) -> (found: bool)
        ensures
            found == self@.queues.contains_key(address),
    {
        self.event_queues.contains(address)
    }

    /// The number that the descriptor table handed out last.
    pub fn last_fd(&self) -> (last: usize)
        ensures
            last == self@.fds.last_fd,
    {
        self.fds.last_fd()
    }

    /// Looks `fd` up. A descriptor that is not open gives `BrokenPipe`.
    pub fn lookup_fd(&self, fd: Fd) -> (r: Result<&AsyncFileDesc<S, L>, ErrorKind>)
        ensures
            match self@.fds.lookup(fd) {
                Ok(desc) => r == Ok::<&AsyncFileDesc<S, L>, ErrorKind>(&desc),
                Err(e) => r == Err::<&AsyncFileDesc<S, L>, ErrorKind>(e),
            },
    {
        self.fds.lookup_fd(fd)
    }

    /// The stream that `fd` stands for, as reading, writing and flushing
    /// need it: `BrokenPipe` where `fd` is not open, `InvalidInput` where it
    /// is a listener.
    pub fn stream(&self, fd: Fd) -> (r: Result<&S, ErrorKind>)
        ensures
            match self@.fds.lookup(fd) {
                Ok(AsyncFileDesc::Stream(s)) => r == Ok::<&S, ErrorKind>(&s),
                Ok(AsyncFileDesc::Listener(_)) => r == Err::<&S, ErrorKind>(
                    ErrorKind::InvalidInput,
                ),
                Err(e) => r == Err::<&S, ErrorKind>(e),
            },
    {
        match self.fds.lookup_fd(fd) {
            Ok(desc) => desc.as_stream(),
            Err(e) => Err(e),
        }
    }

    /// The listener that `fd` stands for, as accepting needs it:
    /// `BrokenPipe` where `fd` is not open, `InvalidInput` where it is a
    /// stream.
    pub fn listener(&self, fd: Fd) -> (r: Result<&L, ErrorKind>)
        ensures
            match self@.fds.lookup(fd) {
                Ok(AsyncFileDesc::Listener(l)) => r == Ok::<&L, ErrorKind>(&l),
                Ok(AsyncFileDesc::Stream(_)) => r == Err::<&L, ErrorKind>(ErrorKind::InvalidInput),
                Err(e) => r == Err::<&L, ErrorKind>(e),
            },
    {
        match self.fds.lookup_fd(fd) {
            Ok(desc) => desc.as_listener(),
            Err(e) => Err(e),
        }
    }

    /// Gives `desc` the next descriptor. The table must not have handed out
    /// `usize::MAX` yet.
    pub fn alloc_fd(&mut self, desc: AsyncFileDesc<S, L>) -> (fd: Fd)
        requires
            old(self).wf(),
            old(self)@.fds.last_fd < usize::MAX,
        ensures
            final(self).wf(),
            fd == old(self)@.fds.next_fd(),
            fd > FD_STDERR,
            !old(self)@.fds.open.contains_key(fd),
            final(self)@ == (EnclaveStateView {
                fds: old(self)@.fds.allocate(desc),
                ..old(self)@
            }),
    {
        self.fds.alloc_fd(desc)
    }

    /// Closes `fd`. Closing a descriptor that is not open changes nothing.
    pub fn close(&mut self, fd: Fd)
        requires
            old(self).wf(),
        ensures
            final(self).wf(),
            final(self)@ == (EnclaveStateView { fds: old(self)@.fds.close(fd), ..old(self)@ }),
    {
        self.fds.close(fd)
    }

    /// Starts the shutdown: marks the enclave as exiting and offers the
    /// abort event to every event queue, so that each waiting thread wakes
    /// up.
    pub fn abort_all_threads(&mut self)
        requires
            old(self).wf(),
        ensures
            final(self).wf(),
            final(self)@.exiting,
            all_offered(old(self)@.queues, ABORT_BIT, final(self)@.queues),
            final(self)@ == (EnclaveStateView {
                exiting: true,
                queues: final(self)@.queues,
                ..old(self)@
            }),
    {
        self.exiting = true;
        self.event_queues.send_all(ABORT_BIT);
    }

    /// The enclave asks to exit: the shutdown starts, and the thread stops
    /// with `Exit`.
    pub fn exit(&mut self, panic: bool) -> (abort: EnclaveAbort<bool>)
        requires
            old(self).wf(),
        ensures
            final(self).wf(),
            abort == (EnclaveAbort::Exit { panic }),
            final(self)@.exiting,
            all_offered(old(self)@.queues, ABORT_BIT, final(self)@.queues),
            final(self)@ == (EnclaveStateView {
                exiting: true,
                queues: final(self)@.queues,
                ..old(self)@
            }),
    {
        self.abort_all_threads();
        EnclaveAbort::Exit { panic }
    }

    /// Sends the events of `event_set` to the thread `target`, or to every
    /// thread where no target is given.
    ///
    /// A set with a bit outside the three enclave-visible events, an empty
    /// set and an unknown target are refused with `InvalidInput`, and then no
    /// queue has changed. With a target, the event was handed to the sending
    /// half of its queue and to no other, and the channel took it unless it
    /// is disconnected. Without one, the sending half of each queue was
    /// handed the event once; a channel that is disconnected refuses it and
    /// is passed over.
    pub fn send(&mut self, event_set: u64, target: Option<TcsAddress>) -> (r: Result<
        (),
        SendError,
    >)
        requires
            old(self).wf(),
        ensures
            final(self).wf(),
            final(self)@ == (EnclaveStateView { queues: final(self)@.queues, ..old(self)@ }),
            final(self)@.queues.dom() == old(self)@.queues.dom(),
            send_refused(old(self)@.queues, event_set, target) <==> r == Err::<(), SendError>(
                SendError::InvalidInput,
            ),
            send_refused(old(self)@.queues, event_set, target) ==> final(self)@.queues == old(
                self,
            )@.queues,
            !send_refused(old(self)@.queues, event_set, target) ==> match target {
                Some(a) => {
                    &&& final(self)@.queues == old(self)@.queues.insert(a, final(self)@.queues[a])
                    &&& {
                        ||| r.is_ok() && took(
                            old(self)@.queues[a],
                            event_set as u8,
                            final(self)@.queues[a],
                        )
                        ||| r == Err::<(), SendError>(SendError::Disconnected) && refused(
                            old(self)@.queues[a],
                            event_set as u8,
                            final(self)@.queues[a],
                        )
                    }
                },
                None => r.is_ok() && all_offered(
                    old(self)@.queues,
                    event_set as u8,
                    final(self)@.queues,
                ),
            },
    {
        let event_set: u8 = match check_event_set(event_set) {
            Ok(set) => set,
            Err(_) => {
                return Err(SendError::InvalidInput);
            },
        };
        if event_set == 0 {
            return Err(SendError::InvalidInput);
        }
        match target {
            Some(address) => match self.event_queues.send_to(address, event_set) {
                None => Err(SendError::InvalidInput),
                Some(true) => Ok(()),
                Some(false) => Err(SendError::Disconnected),
            },
            None => {
                self.event_queues.send_all(event_set);
                Ok(())
            },
        }
    }

    /// Takes the next stopped thread of a command enclave and makes the work
    /// that launches it: an entry of that thread with all parameters zero,
    /// as a launched thread with nothing buffered and its own event queue.
    ///
    /// In a library enclave this is `InvalidInput`; without a stopped thread
    /// it is `WouldBlock`. Then nothing has changed.
    pub fn launch_thread_start<U>(&mut self) -> (r: Result<Work<T, U>, ErrorKind>)
        requires
            old(self).wf(),
        ensures
            final(self).wf(),
            match old(self)@.kind {
                EnclaveKindView::Library => {
                    &&& r matches Err(e)
                    &&& e == ErrorKind::InvalidInput
                    &&& final(self)@ == old(self)@
                },
                EnclaveKindView::Command(_) => if old(self)@.threads.len() == 0 {
                    &&& r matches Err(e)
                    &&& e == ErrorKind::WouldBlock
                    &&& final(self)@ == old(self)@
                } else {
                    &&& r matches Ok(work)
                    &&& work.tcs.wf()
                    &&& work.tcs.mode() == EnclaveEntry::ExecutableNonMain
                    &&& work.tcs.pending() == Seq::<u8>::empty()
                    &&& work.tcs.pending_set() == 0
                    &&& work.tcs.queue() == old(self)@.threads[0].event_queue
                    &&& work.entry == CoEntry::<T, U>::Initial(
                        old(self)@.threads[0].tcs,
                        0,
                        0,
                        0,
                        0,
                        0,
                    )
                    &&& final(self)@ == (EnclaveStateView {
                        threads: old(self)@.threads.drop_first(),
                        ..old(self)@
                    })
                },
            },
    {
        if self.kind.as_command().is_none() {
            return Err(ErrorKind::InvalidInput);
        }
        let new_tcs = match self.threads_queue.pop_front() {
            Some(tcs) => tcs,
            None => {
                return Err(ErrorKind::WouldBlock);
            },
        };
        assert(self.threads_queue@ == old(self)@.threads.drop_first());
        Ok(
            Work {
                tcs: RunningTcs::new(new_tcs.event_queue, EnclaveEntry::ExecutableNonMain),
                entry: CoEntry::Initial(new_tcs.tcs, 0, 0, 0, 0, 0),
            },
        )
    }

    /// Starts a thread of a command enclave: the work that
    /// `launch_thread_start` makes of the next stopped thread is handed to
    /// the workers, and `launch_thread_finish` takes in what that gave.
    ///
    /// In a library enclave this is `InvalidInput`; without a stopped thread
    /// it is `WouldBlock`. Where the workers are gone the thread goes back to
    /// the end of the queue of stopped threads, and the error is
    /// `NotConnected`.
    pub fn launch_thread<U>(&mut self, work_sender: &WorkSender<T, U>) -> (r: Result<
        (),
        ErrorKind,
    >)
        requires
            old(self).wf(),
        ensures
            final(self).wf(),
            final(self)@ == (EnclaveStateView { threads: final(self)@.threads, ..old(self)@ }),
            match old(self)@.kind {
                EnclaveKindView::Library => {
                    &&& r == Err::<(), ErrorKind>(ErrorKind::InvalidInput)
                    &&& final(self)@.threads == old(self)@.threads
                },
                EnclaveKindView::Command(_) => if old(self)@.threads.len() == 0 {
                    &&& r == Err::<(), ErrorKind>(ErrorKind::WouldBlock)
                    &&& final(self)@.threads == old(self)@.threads
                } else {
                    ||| r.is_ok() && final(self)@.threads == old(self)@.threads.drop_first()
                    ||| r == Err::<(), ErrorKind>(ErrorKind::NotConnected) && final(self)@.threads
                        == old(self)@.threads.drop_first().push(old(self)@.threads[0])
                },
            },
    {
        let work = match self.launch_thread_start() {
            Ok(work) => work,
            Err(e) => {
                return Err(e);
            },
        };
        let sent = work_sender.send(work);
        self.launch_thread_finish(sent)
    }

    /// Takes in what handing the work of a launch to the workers gave: where
    /// they took it the launch is done, and where the work came back its
    /// thread goes to the end of the queue of stopped threads, with its
    /// event queue, and the error is `NotConnected`. Work that comes back
    /// is the work of a launch, an entry afresh.
    pub fn launch_thread_finish<U>(&mut self, sent: Result<(), Work<T, U>>) -> (r: Result<
        (),
        ErrorKind,
    >)
        requires
            old(self).wf(),
            sent matches Err(back) ==> back.entry is Initial,
        ensures
            final(self).wf(),
            match sent {
                Ok(()) => r == Ok::<(), ErrorKind>(()) && final(self)@ == old(self)@,
                Err(back) => {
                    &&& r == Err::<(), ErrorKind>(ErrorKind::NotConnected)
                    &&& final(self)@ == (EnclaveStateView {
                        threads: old(self)@.threads.push(
                            StoppedTcs { tcs: back.entry->Initial_0, event_queue: back.tcs.queue() },
                        ),
                        ..old(self)@
                    })
                },
            },
    {
        match sent {
            Ok(()) => Ok(()),
            Err(back) => {
                let event_queue = back.tcs.into_event_queue();
                match back.entry {
                    CoEntry::Initial(tcs, _, _, _, _, _) => {
                        self.threads_queue.push_back(StoppedTcs { tcs, event_queue });
                    },
                    CoEntry::Resume(_, _) => vstd::pervasive::unreached(),
                }
                Err(ErrorKind::NotConnected)
            },
        }
    }

    /// The number of worker threads that enter the enclave: one for a
    /// library enclave, as many as the host has processors for a command
    /// enclave.
    pub fn worker_threads(&self) -> (n: usize)
        ensures
            n >= 1,
            self@.kind is Library ==> n == 1,
            exists|cpus: usize| cpus >= 1 && n == #[trigger] worker_count(self@.kind, cpus),
    {
        let cpus: usize = host_cpus();
        assert(worker_count(self@.kind, cpus) == worker_count(self@.kind, cpus));
        workers_for(&self.kind, cpus)
    }

    /// Decides what follows a usercall that has been handled with `result`,
    /// for the thread in state `state` that stopped in `usercall`. `scratch`
    /// is the buffer in which the enclave leaves its panic message.
    ///
    /// A result goes back into the enclave: the work returned resumes this
    /// very usercall with it. An exit without panic ends the thread with
    /// `(0, 0)`. An exit with panic ends it with the message from the
    /// buffer, or brings the host down where panics are forwarded. Every
    /// other abort is reported as it is.
    pub fn after_usercall<U>(
        &self,
        state: RunningTcs,
        usercall: U,
        result: Result<(u64, u64), EnclaveAbort<bool>>,
        scratch: &[u8],
    ) -> (action: IoAction<T, U>)
        ensures
            match result {
                Ok(ret) => action == IoAction::<T, U>::Resume(
                    Work { tcs: state, entry: CoEntry::Resume(usercall, ret) },
                ),
                Err(EnclaveAbort::Exit { panic: true }) => if self@.forward_panics {
                    action matches IoAction::ForwardPanic(p) && p.text() == panic_text(scratch@)
                        && (vstd::utf8::valid_utf8(message_bytes(scratch@)) ==> p.text()
                        == utf8_panic_text(scratch@))
                } else {
                    action matches IoAction::Report(Err(EnclaveAbort::Exit { panic: p }), mode)
                        && p.text() == panic_text(scratch@) && mode == state.mode()
                        && (vstd::utf8::valid_utf8(message_bytes(scratch@)) ==> p.text()
                        == utf8_panic_text(scratch@))
                },
                Err(EnclaveAbort::Exit { panic: false }) => action == IoAction::<T, U>::Report(
                    Ok((0, 0)),
                    state.mode(),
                ),
                Err(EnclaveAbort::IndefiniteWait) => action == IoAction::<T, U>::Report(
                    Err(EnclaveAbort::IndefiniteWait),
                    state.mode(),
                ),
                Err(EnclaveAbort::InvalidUsercall(n)) => action == IoAction::<T, U>::Report(
                    Err(EnclaveAbort::InvalidUsercall(n)),
                    state.mode(),
                ),
                Err(EnclaveAbort::MainReturned) => action == IoAction::<T, U>::Report(
                    Err(EnclaveAbort::MainReturned),
                    state.mode(),
                ),
                Err(EnclaveAbort::Secondary) => action == IoAction::<T, U>::Report(
                    Err(EnclaveAbort::Secondary),
                    state.mode(),
                ),
            },
    {
        let mode = state.entry_mode();
        let ret: ThreadResult = match result {
            Ok(ret) => {
                return IoAction::Resume(Work { tcs: state, entry: CoEntry::Resume(usercall, ret) });
            },
            Err(EnclaveAbort::Exit { panic: true }) => {
                let panic = EnclavePanic::from_scratch(scratch);
                if self.forward_panics {
                    return IoAction::ForwardPanic(panic);
                }
                Err(EnclaveAbort::Exit { panic })
            },
            Err(EnclaveAbort::Exit { panic: false }) => Ok((0, 0)),
            Err(EnclaveAbort::IndefiniteWait) => Err(EnclaveAbort::IndefiniteWait),
            Err(EnclaveAbort::InvalidUsercall(n)) => Err(EnclaveAbort::InvalidUsercall(n)),
            Err(EnclaveAbort::MainReturned) => Err(EnclaveAbort::MainReturned),
            Err(EnclaveAbort::Secondary) => Err(EnclaveAbort::Secondary),
        };
        IoAction::Report(ret, mode)
    }

    /// Decides what follows the return of the thread `tcs`, which ran in
    /// state `state`, with the values `v1` and `v2`.
    ///
    /// A library call ends with the two values, and its thread waits to be
    /// entered again. The main thread of a command enclave must not return:
    /// it ends with `MainReturned`. A launched thread ends with `(0, 0)`,
    /// which is also what it must have returned, and waits to be launched
    /// again unless the enclave is shutting down.
    pub fn after_return(&mut self, state: RunningTcs, tcs: T, v1: u64, v2: u64) -> (report: (
        ThreadResult,
        EnclaveEntry,
    ))
        requires
            old(self).wf(),
            state.mode() == EnclaveEntry::ExecutableNonMain ==> v1 == 0 && v2 == 0,
        ensures
            final(self).wf(),
            report.1 == state.mode(),
            final(self)@ == (EnclaveStateView { threads: final(self)@.threads, ..old(self)@ }),
            match state.mode() {
                EnclaveEntry::Library => {
                    &&& report.0 == Ok::<(u64, u64), EnclaveAbort<EnclavePanic>>((v1, v2))
                    &&& final(self)@.threads == old(self)@.threads.push(
                        StoppedTcs { tcs, event_queue: state.queue() },
                    )
                },
                EnclaveEntry::ExecutableMain => {
                    &&& report.0 == Err::<(u64, u64), EnclaveAbort<EnclavePanic>>(
                        EnclaveAbort::MainReturned,
                    )
                    &&& final(self)@.threads == old(self)@.threads
                },
                EnclaveEntry::ExecutableNonMain => {
                    &&& report.0 == Ok::<(u64, u64), EnclaveAbort<EnclavePanic>>((0, 0))
                    &&& final(self)@.threads == if old(self)@.exiting {
                        old(self)@.threads
                    } else {
                        old(self)@.threads.push(StoppedTcs { tcs, event_queue: state.queue() })
                    }
                },
            },
    {
        let mode = state.entry_mode();
        let ret: ThreadResult = match mode {
            EnclaveEntry::Library => {
                self.threads_queue.push_back(
                    StoppedTcs { tcs, event_queue: state.into_event_queue() },
                );
                Ok((v1, v2))
            },
            EnclaveEntry::ExecutableMain => Err(EnclaveAbort::MainReturned),
            EnclaveEntry::ExecutableNonMain => {
                if !self.exiting {
                    self.threads_queue.push_back(
                        StoppedTcs { tcs, event_queue: state.into_event_queue() },
                    );
                }
                Ok((0, 0))
            },
        };
        (ret, mode)
    }

    /// Takes in what a thread that was entered in `mode` ended with, records
    /// its reason where it leaves one, and returns the verdict on the
    /// enclave if this end gives one. Only a command enclave keeps reasons.
    pub fn thread_stopped(&mut self, result: ThreadResult, mode: EnclaveEntry) -> (v: Option<
        ThreadResult,
    >)
        requires
            old(self).wf(),
        ensures
            final(self).wf(),
            v == verdict(result, mode),
            final(self)@ == (EnclaveStateView {
                kind: old(self)@.kind.after(result, mode),
                ..old(self)@
            }),
    {
        match &mut self.kind {
            EnclaveKind::Command(cmd) => cmd.panic_reason.thread_stopped(result, mode),
            EnclaveKind::Library(_) => {
                let mut unkept = PanicReason::new();
                unkept.thread_stopped(result, mode)
            },
        }
    }

    /// Prepares a command enclave: `main` and every thread of `threads` get
    /// an event queue, the threads wait to be launched, and the work
    /// returned enters `main` as the main thread with all parameters zero.
    /// All addresses must differ.
    pub fn main_entry_start<U>(
        main: LoadedTcs<T>,
        threads: Vec<LoadedTcs<T>>,
        stdin: S,
        stdout: S,
        stderr: S,
        forward_panics: bool,
    ) -> (start: (Self, Work<T, U>))
        requires
            fresh_addresses(threads@, set![main.address]),
        ensures
            start.0.wf(),
            start.0@.kind == EnclaveKindView::Command(PanicReasonView::empty()),
            start.0@.exiting == false,
            start.0@.forward_panics == forward_panics,
            start.0@.fds.last_fd == 2,
            start.0@.fds.open == Map::<Fd, AsyncFileDesc<S, L>>::empty().insert(
                FD_STDIN,
                AsyncFileDesc::Stream(stdin),
            ).insert(FD_STDOUT, AsyncFileDesc::Stream(stdout)).insert(
                FD_STDERR,
                AsyncFileDesc::Stream(stderr),
            ),
            start.0@.queues.dom() == addresses(threads@).insert(main.address),
            start.0@.threads.len() == threads@.len(),
            forall|i: int|
                0 <= i < threads@.len() ==> (#[trigger] start.0@.threads[i]).tcs
                    == threads@[i].tcs,
            forall|i: int|
                0 <= i < threads@.len() ==> fresh_queue(
                    start.0@.queues[threads@[i].address],
                    (#[trigger] start.0@.threads[i]).event_queue,
                ),
            fresh_queue(start.0@.queues[main.address], start.1.tcs.queue()),
            start.1.tcs.wf(),
            start.1.tcs.mode() == EnclaveEntry::ExecutableMain,
            start.1.tcs.pending() == Seq::<u8>::empty(),
            start.1.entry == CoEntry::<T, U>::Initial(main.tcs, 0, 0, 0, 0, 0),
    {
        let cap: usize = if threads.len() < usize::MAX {
            threads.len() + 1
        } else {
            threads.len()
        };
        let mut event_queues = EventQueues::with_capacity(cap);
        let ghost main_address = main.address;
        let main = Self::event_queue_add_tcs(&mut event_queues, main);
        let main_work = Work {
            tcs: RunningTcs::new(main.event_queue, EnclaveEntry::ExecutableMain),
            entry: CoEntry::Initial(main.tcs, 0, 0, 0, 0, 0),
        };
        assert(event_queues@.dom() =~= set![main_address]);
        let ghost registered = event_queues@;
        let ghost all = threads@;
        let enclave = EnclaveState::new(
            EnclaveKind::command(),
            event_queues,
            stdin,
            stdout,
            stderr,
            threads,
            forward_panics,
        );
        proof {
            assert(enclave@.queues.dom() =~= addresses(all).insert(main_address));
            assert(registered.contains_key(main_address));
        }
        (enclave, main_work)
    }

    /// Winds a command enclave up once its reactor has given the verdict
    /// `main_result`: the shutdown starts, the threads that wait to be
    /// launched are let go, and the caller is told the outcome, in which a
    /// primary reason left by a launched thread outranks a main thread that
    /// did not panic.
    ///
    /// A verdict of `Secondary` comes with a primary reason, which takes its
    /// place, so that the outcome is `Secondary` only where the reactor gave
    /// that verdict without one.
    pub fn main_entry_finish(&mut self, main_result: ThreadResult) -> (r: Result<(), EntryError>)
        requires
            old(self).wf(),
        ensures
            final(self).wf(),
            all_offered(old(self)@.queues, ABORT_BIT, final(self)@.queues),
            r == main_outcome(consolidated(main_result, old(self)@.kind.primary())),
            final(self)@ == (EnclaveStateView {
                kind: old(self)@.kind.without_primary(),
                exiting: true,
                queues: final(self)@.queues,
                threads: Seq::empty(),
                ..old(self)@
            }),
    {
        let main_panicking: bool = match &main_result {
            Err(EnclaveAbort::MainReturned) => true,
            Err(EnclaveAbort::InvalidUsercall(_)) => true,
            Err(EnclaveAbort::Exit { .. }) => true,
            Err(EnclaveAbort::IndefiniteWait) => false,
            Err(EnclaveAbort::Secondary) => false,
            Ok(_) => false,
        };
        self.abort_all_threads();
        self.threads_queue.clear();
        let primary = match &mut self.kind {
            EnclaveKind::Command(cmd) => cmd.panic_reason.take_primary(),
            EnclaveKind::Library(_) => None,
        };
        let main_result: ThreadResult = match primary {
            Some(reason) => if main_panicking {
                main_result
            } else {
                Err(reason)
            },
            None => main_result,
        };
        match main_result {
            Err(EnclaveAbort::Exit { panic }) => Err(EntryError::Panic(panic)),
            Err(EnclaveAbort::IndefiniteWait) => Err(EntryError::AllThreadsWaiting),
            Err(EnclaveAbort::InvalidUsercall(n)) => Err(EntryError::InvalidUsercall(n)),
            Err(EnclaveAbort::MainReturned) => Err(EntryError::MainReturned),
            Err(EnclaveAbort::Secondary) => Err(EntryError::Secondary),
            Ok(_) => Ok(()),
        }
    }

    /// A supervisor for a library enclave with the given threads, none of
    /// which is entered yet. All addresses must differ.
    pub fn library(
        threads: Vec<LoadedTcs<T>>,
        stdin: S,
        stdout: S,
        stderr: S,
        forward_panics: bool,
    ) -> (enclave: Self)
        requires
            fresh_addresses(threads@, Set::<TcsAddress>::empty()),
        ensures
            enclave.wf(),
            enclave@.kind == EnclaveKindView::Library,
            enclave@.exiting == false,
            enclave@.forward_panics == forward_panics,
            enclave@.fds.last_fd == 2,
            enclave@.fds.open == Map::<Fd, AsyncFileDesc<S, L>>::empty().insert(
                FD_STDIN,
                AsyncFileDesc::Stream(stdin),
            ).insert(FD_STDOUT, AsyncFileDesc::Stream(stdout)).insert(
                FD_STDERR,
                AsyncFileDesc::Stream(stderr),
            ),
            enclave@.queues.dom() == addresses(threads@),
            enclave@.threads.len() == threads@.len(),
            forall|i: int|
                0 <= i < threads@.len() ==> (#[trigger] enclave@.threads[i]).tcs
                    == threads@[i].tcs,
            forall|i: int|
                0 <= i < threads@.len() ==> fresh_queue(
                    enclave@.queues[threads@[i].address],
                    (#[trigger] enclave@.threads[i]).event_queue,
                ),
    {
        let event_queues = EventQueues::with_capacity(threads.len());
        let ghost all = threads@;
        let enclave = EnclaveState::new(
            EnclaveKind::library(),
            event_queues,
            stdin,
            stdout,
            stderr,
            threads,
            forward_panics,
        );
        proof {
            assert(enclave@.queues.dom() =~= addresses(all));
        }
        enclave
    }

    /// Prepares a call into a library enclave: the work returned enters the
    /// next stopped thread with the five parameters. There must be a stopped
    /// thread.
    pub fn library_entry_start<U>(&mut self, p1: u64, p2: u64, p3: u64, p4: u64, p5: u64) -> (work:
        Work<T, U>)
        requires
            old(self).wf(),
            old(self)@.threads.len() > 0,
        ensures
            final(self).wf(),
            final(self)@ == (EnclaveStateView {
                threads: old(self)@.threads.drop_first(),
                ..old(self)@
            }),
            work.tcs.wf(),
            work.tcs.mode() == EnclaveEntry::Library,
            work.tcs.pending() == Seq::<u8>::empty(),
            work.tcs.queue() == old(self)@.threads[0].event_queue,
            work.entry == CoEntry::<T, U>::Initial(old(self)@.threads[0].tcs, p1, p2, p3, p4, p5),
    {
        let thread = match self.threads_queue.pop_front() {
            Some(thread) => thread,
            None => vstd::pervasive::unreached(),
        };
        assert(self.threads_queue@ == old(self)@.threads.drop_first());
        Work {
            tcs: RunningTcs::new(thread.event_queue, EnclaveEntry::Library),
            entry: CoEntry::Initial(thread.tcs, p1, p2, p3, p4, p5),
        }
    }
}

} // verus!
