//! The errors a usercall can end in and the ways an enclave thread can stop.

use vstd::prelude::*;
use vstd::string::StringExecFns;
use vstd::utf8::{decode_utf8, valid_utf8};

verus! {

/// The kinds of I/O error that a usercall reports to the enclave.
#[derive(Clone, Copy, Debug, PartialEq, Eq, Structural)]
pub enum ErrorKind {
    /// The descriptor is not open, or the stream does not support the operation.
    BrokenPipe,
    /// The address could not be understood.
    ConnectionRefused,
    /// An argument is outside what the call accepts.
    InvalidInput,
    /// The work queue of the runner is gone.
    NotConnected,
    /// The request cannot be served; also used for a wait cut short by shutdown.
    Other,
    /// Nothing is available right now.
    WouldBlock,
}

/// Why an enclave thread stopped without returning a result. `T` is what is
/// known of a panic: a flag while the usercall is handled, the message
/// afterwards.
#[derive(Debug, PartialEq, Eq)]
pub enum EnclaveAbort<T> {
    /// The thread asked to exit.
    Exit { panic: T },
    /// The thread backs off because another thread aborted.
    Secondary,
    /// The thread waits for an event that cannot come.
    IndefiniteWait,
    /// The thread made a usercall with a number that does not exist.
    InvalidUsercall(u64),
    /// The main thread of a command enclave returned.
    MainReturned,
}

/// What an enclave left in its scratch buffer when it panicked.
#[derive(Debug, PartialEq, Eq)]
pub enum EnclavePanic {
    /// The buffer starts with a zero byte: there is no message.
    NoDebugBuf,
    /// The message, as text.
    DebugStr(String),
}

/// What an enclave thread ended with.
pub type ThreadResult = Result<(u64, u64), EnclaveAbort<EnclavePanic>>;

/// The text that `String::from_utf8_lossy` makes of `bytes`.
pub uninterp spec fn lossy_text(bytes: Seq<u8>) -> Seq<char>;

/// Turns bytes into text with `String::from_utf8_lossy`, which gives bytes
/// that are UTF-8 as the text they encode and puts U+FFFD in the place of
/// what is not UTF-8.
#[verifier::external_body]
fn text_of(bytes: &[u8]) -> (text: String)
    ensures
        text@ == lossy_text(bytes@),
        valid_utf8(bytes@) ==> text@ == decode_utf8(bytes@),
{
    String::from_utf8_lossy(bytes).into_owned()
}

/// The position of the first zero byte in `buf`, or the length of `buf` if it
/// holds none.
pub open spec fn message_len(buf: Seq<u8>) -> int
    decreases buf.len(),
{
    if buf.len() == 0 || buf[0] == 0 {
        0
    } else {
        1 + message_len(buf.drop_first())
    }
}

/// `message_len` lies within the buffer or just behind it, no byte before it
/// is zero, and the byte at it is, if there is one.
pub proof fn lemma_message_len(buf: Seq<u8>)
    ensures
        0 <= message_len(buf) <= buf.len(),
        forall|j: int| 0 <= j < message_len(buf) ==> #[trigger] buf[j] != 0,
        message_len(buf) < buf.len() ==> buf[message_len(buf)] == 0,
    decreases buf.len(),
{
    if buf.len() != 0 && buf[0] != 0 {
        let rest = buf.drop_first();
        lemma_message_len(rest);
        assert forall|j: int| 0 <= j < message_len(buf) implies #[trigger] buf[j] != 0 by {
            if j > 0 {
                assert(buf[j] == rest[j - 1]);
            }
        }
        assert(message_len(rest) < rest.len() ==> rest[message_len(rest)] == buf[message_len(
            buf,
        )]);
    }
}

/// A position with a zero byte and none before it is the message length.
pub proof fn lemma_message_len_at(buf: Seq<u8>, i: int)
    requires
        0 <= i <= buf.len(),
        forall|j: int| 0 <= j < i ==> #[trigger] buf[j] != 0,
        i < buf.len() ==> buf[i] == 0,
    ensures
        message_len(buf) == i,
{
    lemma_message_len(buf);
    let m = message_len(buf);
    if m < i {
        assert(buf[m] != 0);
    } else if m > i {
        assert(buf[i] != 0);
    }
}

/// The bytes of the message in a scratch buffer: all that stands before the
/// first zero byte.
pub open spec fn message_bytes(buf: Seq<u8>) -> Seq<u8> {
    buf.take(message_len(buf))
}

/// The message that a scratch buffer holds, if it holds one.
pub open spec fn panic_text(buf: Seq<u8>) -> Option<Seq<char>> {
    if message_len(buf) == 0 {
        None
    } else {
        Some(lossy_text(message_bytes(buf)))
    }
}

/// The message that a scratch buffer holds, if it holds one, read as UTF-8.
/// It is the message where the bytes before the first zero byte are UTF-8.
pub open spec fn utf8_panic_text(buf: Seq<u8>) -> Option<Seq<char>> {
    if message_len(buf) == 0 {
        None
    } else {
        Some(decode_utf8(message_bytes(buf)))
    }
}

impl EnclavePanic {
    /// The message of the panic, if it has one.
    pub open spec fn text(&self) -> Option<Seq<char>> {
        match *self {
            EnclavePanic::NoDebugBuf => None,
            EnclavePanic::DebugStr(message) => Some(message@),
        }
    }

    /// Reads the panic message that an enclave left in its scratch buffer.
    pub fn from_scratch(buf: &[u8]) -> (panic: EnclavePanic)
        ensures
            panic.text() == panic_text(buf@),
            valid_utf8(message_bytes(buf@)) ==> panic.text() == utf8_panic_text(buf@),
    {
        let n: usize = buf.len();
        let mut nul: usize = 0;
        while nul < n && buf[nul] != 0
            invariant
                nul <= n,
                n == buf@.len(),
                forall|j: int| 0 <= j < nul ==> #[trigger] buf@[j] != 0,
            decreases n - nul,
        {
            nul += 1;
        }
        proof {
            lemma_message_len_at(buf@, nul as int);
        }
        if nul == 0 {
            EnclavePanic::NoDebugBuf
        } else {
            let message = vstd::slice::slice_subrange(buf, 0, nul);
            assert(message@ == message_bytes(buf@));
            EnclavePanic::DebugStr(text_of(message))
        }
    }

    /// The panic as one line of text.
    pub fn message(&self) -> (text: String)
        ensures
            text@ == match *self {
                EnclavePanic::NoDebugBuf => "Enclave panic"@,
                EnclavePanic::DebugStr(message) => "Enclave panic: "@ + message@,
            },
    {
        match self {
            EnclavePanic::NoDebugBuf => String::from_str("Enclave panic"),
            EnclavePanic::DebugStr(message) => String::from_str("Enclave panic: ").concat(
                message.as_str(),
            ),
        }
    }
}

/// The digit of `d` in base sixteen, for `d` below sixteen.
pub open spec fn hex_digit(d: int) -> char {
    if d == 0 {
        '0'
    } else if d == 1 {
        '1'
    } else if d == 2 {
        '2'
    } else if d == 3 {
        '3'
    } else if d == 4 {
        '4'
    } else if d == 5 {
        '5'
    } else if d == 6 {
        '6'
    } else if d == 7 {
        '7'
    } else if d == 8 {
        '8'
    } else if d == 9 {
        '9'
    } else if d == 10 {
        'a'
    } else if d == 11 {
        'b'
    } else if d == 12 {
        'c'
    } else if d == 13 {
        'd'
    } else if d == 14 {
        'e'
    } else {
        'f'
    }
}

/// The digits of `n` in base sixteen, the highest first, without leading
/// zeros.
pub open spec fn hex_digits(n: nat) -> Seq<char>
    decreases n,
{
    if n < 16 {
        seq![hex_digit(n as int)]
    } else {
        hex_digits(n / 16).push(hex_digit((n % 16) as int))
    }
}

fn hex_digit_str(d: u64) -> (s: &'static str)
    requires
        d < 16,
    ensures
        s@ == seq![hex_digit(d as int)],
{
    proof {
        reveal_strlit("0");
        reveal_strlit("1");
        reveal_strlit("2");
        reveal_strlit("3");
        reveal_strlit("4");
        reveal_strlit("5");
        reveal_strlit("6");
        reveal_strlit("7");
        reveal_strlit("8");
        reveal_strlit("9");
        reveal_strlit("a");
        reveal_strlit("b");
        reveal_strlit("c");
        reveal_strlit("d");
        reveal_strlit("e");
        reveal_strlit("f");
    }
    let s = if d == 0 {
        "0"
    } else if d == 1 {
        "1"
    } else if d == 2 {
        "2"
    } else if d == 3 {
        "3"
    } else if d == 4 {
        "4"
    } else if d == 5 {
        "5"
    } else if d == 6 {
        "6"
    } else if d == 7 {
        "7"
    } else if d == 8 {
        "8"
    } else if d == 9 {
        "9"
    } else if d == 10 {
        "a"
    } else if d == 11 {
        "b"
    } else if d == 12 {
        "c"
    } else if d == 13 {
        "d"
    } else if d == 14 {
        "e"
    } else {
        "f"
    };
    assert(s@ =~= seq![hex_digit(d as int)]);
    s
}

/// Writes `n` in base sixteen, in lower case and without a prefix.
pub fn hex(n: u64) -> (text: String)
    ensures
        text@ == hex_digits(n as nat),
    decreases n,
{
    if n < 16 {
        String::from_str(hex_digit_str(n))
    } else {
        let mut text = hex(n / 16);
        text.append(hex_digit_str(n % 16));
        text
    }
}

/// Why an entry into the enclave failed, as the caller of the runner is told.
#[derive(Debug, PartialEq, Eq)]
pub enum EntryError {
    /// The enclave panicked.
    Panic(EnclavePanic),
    /// Every thread of a command enclave waits for an event that cannot come.
    AllThreadsWaiting,
    /// The thread of a library call waits for an event that cannot come.
    ThreadWaiting,
    /// The enclave made a usercall with a number that does not exist.
    InvalidUsercall(u64),
    /// The main thread of a command enclave returned instead of exiting.
    MainReturned,
    /// The thread of a library call stopped because another thread aborted.
    Secondary,
}

impl EntryError {
    /// The text of the error.
    pub open spec fn text(&self) -> Seq<char> {
        match *self {
            EntryError::Panic(EnclavePanic::NoDebugBuf) => "Enclave panic"@,
            EntryError::Panic(EnclavePanic::DebugStr(message)) => "Enclave panic: "@ + message@,
            EntryError::AllThreadsWaiting =>
                "All enclave threads are waiting indefinitely without possibility of wakeup"@,
            EntryError::ThreadWaiting =>
                "This thread is waiting indefinitely without possibility of wakeup"@,
            EntryError::InvalidUsercall(n) => "The enclave performed an invalid usercall 0x"@
                + hex_digits(n as nat),
            EntryError::MainReturned =>
                "The enclave returned from the main entrypoint in violation of the specification."@,
            EntryError::Secondary => "This thread exited because another thread aborted"@,
        }
    }

    /// The error as one line of text.
    pub fn message(&self) -> (text: String)
        ensures
            text@ == self.text(),
    {
        match self {
            EntryError::Panic(panic) => panic.message(),
            EntryError::AllThreadsWaiting => String::from_str(
                "All enclave threads are waiting indefinitely without possibility of wakeup",
            ),
            EntryError::ThreadWaiting => String::from_str(
                "This thread is waiting indefinitely without possibility of wakeup",
            ),
            EntryError::InvalidUsercall(n) => {
                let digits = hex(*n);
                String::from_str("The enclave performed an invalid usercall 0x").concat(
                    digits.as_str(),
                )
            },
            EntryError::MainReturned => String::from_str(
                "The enclave returned from the main entrypoint in violation of the specification.",
            ),
            EntryError::Secondary => String::from_str(
                "This thread exited because another thread aborted",
            ),
        }
    }
}

} // verus!
