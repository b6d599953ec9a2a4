//! Numbers shared with the enclave: descriptors, event bits and timeouts.

use vstd::prelude::*;

verus! {

/// A file descriptor as the enclave names it.
pub type Fd = u64;

/// The descriptor of the host's standard input.
pub const FD_STDIN: Fd = 0;

/// The descriptor of the host's standard output.
pub const FD_STDOUT: Fd = 1;

/// The descriptor of the host's standard error.
pub const FD_STDERR: Fd = 2;

/// Event: the usercall queue has room again.
pub const EV_USERCALLQ_NOT_FULL: u64 = 0b0001;

/// Event: the return queue holds a result.
pub const EV_RETURNQ_NOT_EMPTY: u64 = 0b0010;

/// Event: another thread asked this one to wake up.
pub const EV_UNPARK: u64 = 0b0100;

/// The event bit that the runner keeps for itself. It is queued to every
/// thread when the enclave shuts down and never reaches the enclave.
pub const EV_ABORT: u64 = 0b1000;

/// The three event bits that an enclave may send and wait for.
pub const EV_ALL: u64 = 0b0111;

/// Timeout of a wait that only looks at what has already arrived.
pub const WAIT_NO: u64 = 0;

/// Timeout of a wait that blocks until a matching event arrives.
pub const WAIT_INDEFINITE: u64 = 0xffff_ffff_ffff_ffff;

} // verus!
