//! The table of file descriptors that an enclave holds: streams and
//! listeners under 64-bit numbers that are never handed out twice.

use vstd::prelude::*;
use std::collections::HashMap;
use crate::abi::{Fd, FD_STDERR, FD_STDIN, FD_STDOUT};
use crate::error::ErrorKind;

verus! {

broadcast use vstd::std_specs::hash::group_hash_axioms;

/// What a descriptor stands for: a byte stream of type `S` or a source of
/// connections of type `L`.
#[derive(Debug)]
pub enum AsyncFileDesc<S, L> {
    Stream(S),
    Listener(L),
}

impl<S, L> AsyncFileDesc<S, L> {
    /// A descriptor for the stream `s`.
    pub fn stream(s: S) -> (desc: Self)
        ensures
            desc == AsyncFileDesc::<S, L>::Stream(s),
    {
        AsyncFileDesc::Stream(s)
    }

    /// A descriptor for the listener `l`.
    pub fn listener(l: L) -> (desc: Self)
        ensures
            desc == AsyncFileDesc::<S, L>::Listener(l),
    {
        AsyncFileDesc::Listener(l)
    }

    /// The stream behind the descriptor; `InvalidInput` for a listener.
    pub fn as_stream(&self) -> (r: Result<&S, ErrorKind>)
        ensures
            match *self {
                AsyncFileDesc::Stream(s) => r == Ok::<&S, ErrorKind>(&s),
                AsyncFileDesc::Listener(_) => r == Err::<&S, ErrorKind>(ErrorKind::InvalidInput),
            },
    {
        match self {
            AsyncFileDesc::Stream(s) => Ok(s),
            AsyncFileDesc::Listener(_) => Err(ErrorKind::InvalidInput),
        }
    }

    /// The listener behind the descriptor; `InvalidInput` for a stream.
    pub fn as_listener(&self) -> (r: Result<&L, ErrorKind>)
        ensures
            match *self {
                AsyncFileDesc::Listener(l) => r == Ok::<&L, ErrorKind>(&l),
                AsyncFileDesc::Stream(_) => r == Err::<&L, ErrorKind>(ErrorKind::InvalidInput),
            },
    {
        match self {
            AsyncFileDesc::Listener(l) => Ok(l),
            AsyncFileDesc::Stream(_) => Err(ErrorKind::InvalidInput),
        }
    }
}

/// The mathematical content of a descriptor table: the open descriptors and
/// the number that was handed out last.
pub struct FdTableView<S, L> {
    pub open: Map<Fd, AsyncFileDesc<S, L>>,
    pub last_fd: int,
}

/// One change to a descriptor table.
pub enum FdOp<S, L> {
    /// A new descriptor is allocated for this stream or listener.
    Alloc(AsyncFileDesc<S, L>),
    /// This descriptor is closed.
    Close(Fd),
}

impl<S, L> FdTableView<S, L> {
    /// The three standard descriptors have been handed out, and no open
    /// descriptor lies above the one handed out last.
    pub open spec fn wf(self) -> bool {
        &&& FD_STDERR <= self.last_fd
        &&& forall|fd: Fd| self.open.contains_key(fd) ==> fd <= self.last_fd
    }

    /// The number that the next allocation hands out.
    pub open spec fn next_fd(self) -> int {
        self.last_fd + 1
    }

    /// The table after `desc` got the next number.
    pub open spec fn allocate(self, desc: AsyncFileDesc<S, L>) -> Self {
        FdTableView { open: self.open.insert(self.next_fd() as Fd, desc), last_fd: self.next_fd() }
    }

    /// What a lookup of `fd` gives. A descriptor that is not open is a broken
    /// pipe, not a bad descriptor.
    pub open spec fn lookup(self, fd: Fd) -> Result<AsyncFileDesc<S, L>, ErrorKind> {
        if self.open.contains_key(fd) {
            Ok(self.open[fd])
        } else {
            Err(ErrorKind::BrokenPipe)
        }
    }

    /// The table after `fd` was closed.
    pub open spec fn close(self, fd: Fd) -> Self {
        FdTableView { open: self.open.remove(fd), last_fd: self.last_fd }
    }

    /// The table after one change.
    pub open spec fn apply(self, op: FdOp<S, L>) -> Self {
        match op {
            FdOp::Alloc(desc) => self.allocate(desc),
            FdOp::Close(fd) => self.close(fd),
        }
    }

    /// The table after the changes `ops`, in order.
    pub open spec fn run(self, ops: Seq<FdOp<S, L>>) -> Self
        decreases ops.len(),
    {
        if ops.len() == 0 {
            self
        } else {
            self.apply(ops[0]).run(ops.drop_first())
        }
    }
}

/// Whether `ops` holds no close of `fd`.
pub open spec fn never_closes<S, L>(ops: Seq<FdOp<S, L>>, fd: Fd) -> bool {
    forall|i: int| 0 <= i < ops.len() ==> #[trigger] ops[i] != FdOp::<S, L>::Close(fd)
}

/// Whether every allocation in `ops`, made one after the other from
/// `last_fd` on, stays within 64 bits.
pub open spec fn allocs_fit<S, L>(last_fd: int, ops: Seq<FdOp<S, L>>) -> bool {
    last_fd + ops.len() <= u64::MAX
}

/// A freshly allocated descriptor is found again by a lookup.
pub proof fn lemma_lookup_after_alloc<S, L>(t: FdTableView<S, L>, desc: AsyncFileDesc<S, L>)
    requires
        t.wf(),
        t.next_fd() <= u64::MAX,
    ensures
        t.allocate(desc).wf(),
        t.allocate(desc).lookup(t.next_fd() as Fd) == Ok::<AsyncFileDesc<S, L>, ErrorKind>(desc),
        !t.open.contains_key(t.next_fd() as Fd),
        t.next_fd() > FD_STDERR,
{
}

/// After a close, a lookup of the descriptor gives `BrokenPipe`.
pub proof fn lemma_lookup_after_close<S, L>(t: FdTableView<S, L>, fd: Fd)
    requires
        t.wf(),
    ensures
        t.close(fd).wf(),
        t.close(fd).lookup(fd) == Err::<AsyncFileDesc<S, L>, ErrorKind>(ErrorKind::BrokenPipe),
{
}

/// An open descriptor stays what it is through any changes to the table that
/// do not close it.
pub proof fn lemma_open_until_closed<S, L>(t: FdTableView<S, L>, fd: Fd, ops: Seq<FdOp<S, L>>)
    requires
        t.wf(),
        t.open.contains_key(fd),
        never_closes(ops, fd),
        allocs_fit(t.last_fd, ops),
    ensures
        t.run(ops).wf(),
        t.run(ops).lookup(fd) == t.lookup(fd),
    decreases ops.len(),
{
    if ops.len() != 0 {
        let rest = ops.drop_first();
        assert(ops[0] != FdOp::<S, L>::Close(fd));
        assert forall|i: int| 0 <= i < rest.len() implies #[trigger] rest[i] != FdOp::<
            S,
            L,
        >::Close(fd) by {
            assert(rest[i] == ops[i + 1]);
        }
        lemma_open_until_closed(t.apply(ops[0]), fd, rest);
    }
}

/// A number that was handed out and closed is never open again: allocation
/// does not reuse it.
pub proof fn lemma_closed_stays_closed<S, L>(t: FdTableView<S, L>, fd: Fd, ops: Seq<FdOp<S, L>>)
    requires
        t.wf(),
        fd <= t.last_fd,
        !t.open.contains_key(fd),
        allocs_fit(t.last_fd, ops),
    ensures
        t.run(ops).lookup(fd) == Err::<AsyncFileDesc<S, L>, ErrorKind>(ErrorKind::BrokenPipe),
    decreases ops.len(),
{
    if ops.len() != 0 {
        lemma_closed_stays_closed(t.apply(ops[0]), fd, ops.drop_first());
    }
}

/// The descriptor table of one enclave.
pub struct FdTable<S, L> {
    fds: HashMap<Fd, AsyncFileDesc<S, L>>,
    last_fd: usize,
}

impl<S, L> View for FdTable<S, L> {
    type V = FdTableView<S, L>;

    closed spec fn view(&self) -> FdTableView<S, L> {
        FdTableView { open: self.fds@, last_fd: self.last_fd as int }
    }
}

impl<S, L> FdTable<S, L> {
    /// See `FdTableView::wf`.
    pub open spec fn wf(&self) -> bool {
        self@.wf()
    }

    /// A table that holds the three standard streams under 0, 1 and 2, so
    /// that allocation starts at 3.
    pub fn new(stdin: S, stdout: S, stderr: S) -> (table: Self)
        ensures
            table.wf(),
            table@.last_fd == 2,
            table@.open == Map::<Fd, AsyncFileDesc<S, L>>::empty().insert(
                FD_STDIN,
                AsyncFileDesc::Stream(stdin),
            ).insert(FD_STDOUT, AsyncFileDesc::Stream(stdout)).insert(
                FD_STDERR,
                AsyncFileDesc::Stream(stderr),
            ),
    {
        let mut fds: HashMap<Fd, AsyncFileDesc<S, L>> = HashMap::new();
        fds.insert(FD_STDIN, AsyncFileDesc::stream(stdin));
        fds.insert(FD_STDOUT, AsyncFileDesc::stream(stdout));
        fds.insert(FD_STDERR, AsyncFileDesc::stream(stderr));
        FdTable { fds, last_fd: 2 }
    }

    /// The number that was handed out last.
    pub fn last_fd(&self) -> (last: usize)
        ensures
            last == self@.last_fd,
    {
        self.last_fd
    }

    /// Looks `fd` up. A descriptor that is not open gives `BrokenPipe`.
    pub fn lookup_fd(&self, fd: Fd) -> (r: Result<&AsyncFileDesc<S, L>, ErrorKind>)
        ensures
            match self@.lookup(fd) {
                Ok(desc) => r == Ok::<&AsyncFileDesc<S, L>, ErrorKind>(&desc),
                Err(e) => r == Err::<&AsyncFileDesc<S, L>, ErrorKind>(e),
            },
    {
        match self.fds.get(&fd) {
            Some(desc) => Ok(desc),
            None => Err(ErrorKind::BrokenPipe),
        }
    }

    /// Puts `desc` into the table under the next number and returns that
    /// number. The table must not have handed out `usize::MAX` yet.
    pub fn alloc_fd(&mut self, desc: AsyncFileDesc<S, L>) -> (fd: Fd)
        requires
            old(self).wf(),
            old(self)@.last_fd < usize::MAX,
        ensures
            final(self).wf(),
            fd == old(self)@.next_fd(),
            fd > FD_STDERR,
            final(self)@ == old(self)@.allocate(desc),
            !old(self)@.open.contains_key(fd),
    {
        self.last_fd = self.last_fd + 1;
        let fd: Fd = self.last_fd as Fd;
        self.fds.insert(fd, desc);
        proof {
            lemma_lookup_after_alloc(old(self)@, desc);
        }
        fd
    }

    /// Closes `fd`. Closing a descriptor that is not open changes nothing.
    pub fn close(&mut self, fd: Fd)
        requires
            old(self).wf(),
        ensures
            final(self).wf(),
            final(self)@ == old(self)@.close(fd),
    {
        self.fds.remove(&fd);
    }
}

} // verus!
