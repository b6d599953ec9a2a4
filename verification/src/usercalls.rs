//! The parts of the usercalls that are decided without looking at the state
//! of the enclave: addresses, buffers for reads, memory layouts and time.

use vstd::prelude::*;
use vstd::layout::valid_layout;
use vstd::string::{StringExecFns, StringSliceAdditionalSpecFns};
use vstd::utf8::valid_utf8;
use crate::error::ErrorKind;

verus! {

/// Reads `bytes` as text with `std::str::from_utf8`, which accepts exactly
/// the byte strings that are UTF-8 and gives them back as they are.
#[verifier::external_body]
fn utf8_text(bytes: &[u8]) -> (text: Option<&str>)
    ensures
        text.is_some() == valid_utf8(bytes@),
        text matches Some(s) ==> s.spec_bytes() == bytes@,
{
    std::str::from_utf8(bytes).ok()
}

/// Reads the address that an enclave gave for binding or connecting. An
/// address that is not UTF-8 is refused with `ConnectionRefused`.
pub fn parse_address(addr: &[u8]) -> (r: Result<&str, ErrorKind>)
    ensures
        match r {
            Ok(text) => valid_utf8(addr@) && text.spec_bytes() == addr@,
            Err(e) => !valid_utf8(addr@) && e == ErrorKind::ConnectionRefused,
        },
{
    match utf8_text(addr) {
        Some(text) => Ok(text),
        None => Err(ErrorKind::ConnectionRefused),
    }
}

/// The text that the enclave gets for an address of a connection: the
/// address, or `error` where the host could not tell it.
pub fn address_text(resolved: Option<String>) -> (text: String)
    ensures
        text@ == match resolved {
            Some(address) => address@,
            None => "error"@,
        },
{
    match resolved {
        Some(address) => address,
        None => String::from_str("error"),
    }
}

/// The size of the buffer that a read without a buffer of the enclave's own
/// reads into.
pub const READ_ALLOC_SIZE: usize = 8192;

/// A zeroed buffer of `READ_ALLOC_SIZE` bytes.
pub fn read_alloc_buffer() -> (buf: Vec<u8>)
    ensures
        buf@ == Seq::new(READ_ALLOC_SIZE as nat, |i: int| 0u8),
{
    let mut buf: Vec<u8> = Vec::with_capacity(READ_ALLOC_SIZE);
    let mut i: usize = 0;
    while i < READ_ALLOC_SIZE
        invariant
            i <= READ_ALLOC_SIZE,
            buf@ == Seq::new(i as nat, |i: int| 0u8),
        decreases READ_ALLOC_SIZE - i,
    {
        buf.push(0);
        i += 1;
        assert(buf@ =~= Seq::new(i as nat, |i: int| 0u8));
    }
    buf
}

/// Cuts a buffer that a read has filled with `size` bytes down to those
/// bytes. A size beyond the buffer leaves it whole.
pub fn read_alloc_finish(buf: Vec<u8>, size: usize) -> (data: Vec<u8>)
    ensures
        data@ == if size <= buf@.len() {
            buf@.take(size as int)
        } else {
            buf@
        },
{
    let mut data = buf;
    data.truncate(size);
    data
}

/// Asks `std::alloc::Layout::from_size_align` whether a block of `size`
/// bytes aligned to `alignment` can be described: the alignment must be a
/// power of two, and the size, rounded up to it, must not exceed
/// `isize::MAX`.
#[verifier::external_body]
fn layout_exists(size: usize, alignment: usize) -> (exists: bool)
    ensures
        exists == valid_layout(size, alignment),
{
    std::alloc::Layout::from_size_align(size, alignment).is_ok()
}

/// Whether the enclave may ask for a block of `size` bytes aligned to
/// `alignment`: a layout that cannot be described and a block of no bytes
/// are refused with `InvalidInput`.
pub fn alloc_request(size: usize, alignment: usize) -> (r: Result<(), ErrorKind>)
    ensures
        r == if valid_layout(size, alignment) && size != 0 {
            Ok::<(), ErrorKind>(())
        } else {
            Err::<(), ErrorKind>(ErrorKind::InvalidInput)
        },
{
    if !layout_exists(size, alignment) {
        return Err(ErrorKind::InvalidInput);
    }
    if size == 0 {
        return Err(ErrorKind::InvalidInput);
    }
    Ok(())
}

/// What an allocation that gave the pointer back tells the enclave: a null
/// pointer is `Other`.
pub fn alloc_result(is_null: bool) -> (r: Result<(), ErrorKind>)
    ensures
        r == if is_null {
            Err::<(), ErrorKind>(ErrorKind::Other)
        } else {
            Ok::<(), ErrorKind>(())
        },
{
    if is_null {
        Err(ErrorKind::Other)
    } else {
        Ok(())
    }
}

/// Whether a block of `size` bytes aligned to `alignment` that the enclave
/// gives back is to be freed: a layout that cannot be described is refused
/// with `InvalidInput`, and a block of no bytes is not freed.
pub fn free_request(size: usize, alignment: usize) -> (r: Result<bool, ErrorKind>)
    ensures
        r == if valid_layout(size, alignment) {
            Ok::<bool, ErrorKind>(size != 0)
        } else {
            Err::<bool, ErrorKind>(ErrorKind::InvalidInput)
        },
{
    if !layout_exists(size, alignment) {
        return Err(ErrorKind::InvalidInput);
    }
    Ok(size != 0)
}

/// The queues for asynchronous usercalls are not supported: the answer is
/// always `Other`.
pub fn async_queues() -> (r: Result<(), ErrorKind>)
    ensures
        r == Err::<(), ErrorKind>(ErrorKind::Other),
{
    Err(ErrorKind::Other)
}

/// The nanoseconds in one second.
pub const NANOS_PER_SEC: u64 = 1_000_000_000;

/// Reads the host's clock with `SystemTime::elapsed` on the Unix epoch and
/// gives the time since then as whole seconds and the nanoseconds of the
/// second begun, which are fewer than a second. `None` where the clock
/// stands before the epoch.
#[verifier::external_body]
fn time_since_epoch() -> (now: Option<(u64, u32)>)
    ensures
        now matches Some((_, nanos)) ==> nanos < NANOS_PER_SEC,
{
    std::time::UNIX_EPOCH.elapsed().ok().map(|d| (d.as_secs(), d.subsec_nanos()))
}

/// A time of `secs` seconds and `subsec_nanos` nanoseconds since the Unix
/// epoch as nanoseconds, where that fits in 64 bits.
pub fn epoch_nanos(secs: u64, subsec_nanos: u32) -> (nanos: Option<u64>)
    ensures
        nanos == if secs * NANOS_PER_SEC + subsec_nanos <= u64::MAX {
            Some((secs * NANOS_PER_SEC + subsec_nanos) as u64)
        } else {
            None
        },
{
    match secs.checked_mul(NANOS_PER_SEC) {
        Some(whole) => whole.checked_add(subsec_nanos as u64),
        None => None,
    }
}

/// The host's time in nanoseconds since the Unix epoch. The enclave must not
/// rely on it. `None` where the clock stands before the epoch or beyond
/// what 64 bits hold.
pub fn insecure_time() -> (nanos: Option<u64>) {
    match time_since_epoch() {
        Some((secs, subsec_nanos)) => epoch_nanos(secs, subsec_nanos),
        None => None,
    }
}

} // verus!
