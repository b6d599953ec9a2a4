//! The buffer between the thread that reads the host's standard input and
//! the enclave threads that read from descriptor 0.

use vstd::prelude::*;
use std::collections::VecDeque;
use crate::error::ErrorKind;

verus! {

/// The largest chunk that the reader thread takes from standard input at
/// once.
pub const BUF_SIZE: usize = 8192;

/// The number of chunks that may wait between the reader thread and the
/// enclave.
pub const CHANNEL_DEPTH: usize = 8;

/// What a look at the channel from the reader thread found.
pub enum ChunkPoll {
    /// The next chunk.
    Chunk(VecDeque<u8>),
    /// The reader thread is gone and no chunk is left.
    Closed,
    /// No chunk has arrived yet.
    Pending,
}

/// How a read from standard input ended.
#[derive(Clone, Copy, Debug, PartialEq, Eq)]
pub enum StdinRead {
    /// The read is done: so many bytes were copied, or it failed.
    Ready(Result<usize, ErrorKind>),
    /// No input has arrived yet.
    Pending,
}

/// The part of the chunk in hand that no read has taken yet.
pub struct AsyncStdin {
    buf: VecDeque<u8>,
}

impl View for AsyncStdin {
    type V = Seq<u8>;

    closed spec fn view(&self) -> Seq<u8> {
        self.buf@
    }
}

/// The number of bytes that a read into room for `room` bytes takes from
/// `held` bytes.
pub open spec fn read_len(held: int, room: int) -> int {
    if room <= held {
        room
    } else {
        held
    }
}

impl AsyncStdin {
    /// A buffer that holds nothing.
    pub fn new() -> (stdin: AsyncStdin)
        ensures
            stdin@ == Seq::<u8>::empty(),
    {
        AsyncStdin { buf: VecDeque::new() }
    }

    /// Whether the buffer is empty, so that the next read has to look for a
    /// new chunk first.
    pub fn needs_chunk(&self) -> (empty: bool)
        ensures
            empty == (self@.len() == 0),
    {
        self.buf.len() == 0
    }

    /// Moves bytes from the front of the buffer into the front of `out`: as
    /// many as the buffer holds, but no more than `out` has room for.
    /// Returns their number.
    pub fn read(&mut self, out: &mut [u8]) -> (len: usize)
        ensures
            len == read_len(old(self)@.len() as int, old(out)@.len() as int),
            final(out)@ == old(self)@.take(len as int) + old(out)@.skip(len as int),
            final(self)@ == old(self)@.skip(len as int),
    {
        let len: usize = if out.len() <= self.buf.len() {
            out.len()
        } else {
            self.buf.len()
        };
        let mut i: usize = 0;
        while i < len
            invariant
                i <= len,
                len == read_len(old(self)@.len() as int, old(out)@.len() as int),
                out@.len() == old(out)@.len(),
                self@ == old(self)@.skip(i as int),
                out@ == old(self)@.take(i as int) + old(out)@.skip(i as int),
            decreases len - i,
        {
            let ghost held = self.buf@;
            let byte = match self.buf.pop_front() {
                Some(byte) => byte,
                None => vstd::pervasive::unreached(),
            };
            out[i] = byte;
            i += 1;
            assert(self@ == old(self)@.skip(i as int));
            assert(out@ == old(self)@.take(i as int) + old(out)@.skip(i as int));
        }
        len
    }

    /// Reads into `out` when the buffer was found empty and `polled` is what
    /// the look for a new chunk found: a chunk goes into the buffer and is
    /// read from, a closed channel is a broken pipe, and without a chunk the
    /// read is pending.
    pub fn read_with(&mut self, polled: ChunkPoll, out: &mut [u8]) -> (r: StdinRead)
        ensures
            match polled {
                ChunkPoll::Chunk(chunk) => {
                    let held = old(self)@ + chunk@;
                    let len = read_len(held.len() as int, old(out)@.len() as int);
                    &&& r == StdinRead::Ready(Ok(len as usize))
                    &&& final(out)@ == held.take(len) + old(out)@.skip(len)
                    &&& final(self)@ == held.skip(len)
                },
                ChunkPoll::Closed => {
                    &&& r == StdinRead::Ready(Err(ErrorKind::BrokenPipe))
                    &&& final(out)@ == old(out)@
                    &&& final(self)@ == old(self)@
                },
                ChunkPoll::Pending => {
                    &&& r == StdinRead::Pending
                    &&& final(out)@ == old(out)@
                    &&& final(self)@ == old(self)@
                },
            },
    {
        match polled {
            ChunkPoll::Chunk(chunk) => {
                let mut chunk = chunk;
                self.buf.append(&mut chunk);
                StdinRead::Ready(Ok(self.read(out)))
            },
            ChunkPoll::Closed => StdinRead::Ready(Err(ErrorKind::BrokenPipe)),
            ChunkPoll::Pending => StdinRead::Pending,
        }
    }
}

} // verus!
