//! Event masks, and the rules by which a waiting thread sorts the events that
//! reach it.

use vstd::prelude::*;
use crate::abi::{EV_ABORT, EV_ALL};
use crate::error::ErrorKind;

verus! {

/// The abort bit as it travels through an event queue.
pub const ABORT_BIT: u8 = 0b1000;

/// Whether `set` names nothing but the three events an enclave may use.
pub open spec fn is_event_set(set: u64) -> bool {
    set & !EV_ALL == 0
}

/// Narrows an event set given by the enclave to one byte, refusing any bit
/// outside the three enclave-visible events.
pub fn check_event_set(set: u64) -> (r: Result<u8, ErrorKind>)
    ensures
        is_event_set(set) ==> r == Ok::<u8, ErrorKind>(set as u8) && set <= EV_ALL,
        !is_event_set(set) ==> r == Err::<u8, ErrorKind>(ErrorKind::InvalidInput),
        r matches Ok(m) ==> m & ABORT_BIT == 0 && m <= 7,
{
    if (set & !EV_ALL) != 0 {
        return Err(ErrorKind::InvalidInput);
    }
    assert(set & !EV_ALL == 0 ==> set <= 7 && (set as u8) & 8 == 0 && (set as u8) <= 7)
        by (bit_vector);
    Ok(set as u8)
}

/// What becomes of one event that reaches a thread waiting with some mask.
#[derive(Clone, Copy, Debug, PartialEq, Eq, Structural)]
pub enum Delivery {
    /// The event carries the abort bit: the enclave is shutting down.
    Abort,
    /// The event has a bit in common with the mask and ends the wait.
    Matched(u8),
    /// The event is kept for a later wait.
    Buffered,
}

/// The fate of event `ev` under `mask`. The abort bit is looked at first, so
/// an event that ends a wait never carries it.
pub open spec fn delivery(mask: u8, ev: u8) -> Delivery {
    if ev & ABORT_BIT != 0 {
        Delivery::Abort
    } else if ev & mask != 0 {
        Delivery::Matched(ev)
    } else {
        Delivery::Buffered
    }
}

/// Sorts one event as `delivery` says.
pub fn classify(mask: u8, ev: u8) -> (d: Delivery)
    ensures
        d == delivery(mask, ev),
{
    if (ev & ABORT_BIT) != 0 {
        Delivery::Abort
    } else if (ev & mask) != 0 {
        Delivery::Matched(ev)
    } else {
        Delivery::Buffered
    }
}

/// The union of all events in a buffer.
pub open spec fn pending_union(s: Seq<u8>) -> u8
    decreases s.len(),
{
    if s.len() == 0 {
        0
    } else {
        pending_union(s.drop_last()) | s.last()
    }
}

/// The position of the oldest event in `s` that has a bit in common with
/// `mask`, or the length of `s` if there is none.
pub open spec fn first_match(s: Seq<u8>, mask: u8) -> int
    decreases s.len(),
{
    if s.len() == 0 {
        0
    } else if s[0] & mask != 0 {
        0
    } else {
        1 + first_match(s.drop_first(), mask)
    }
}

/// Whether no event in `s` carries the abort bit.
pub open spec fn abort_free(s: Seq<u8>) -> bool {
    forall|i: int| 0 <= i < s.len() ==> #[trigger] s[i] & ABORT_BIT == 0
}

/// `first_match` lies within the buffer or just behind it, nothing before it
/// matches, and where it lies within the buffer the event there matches.
pub proof fn lemma_first_match(s: Seq<u8>, mask: u8)
    ensures
        0 <= first_match(s, mask) <= s.len(),
        forall|j: int| 0 <= j < first_match(s, mask) ==> #[trigger] s[j] & mask == 0,
        first_match(s, mask) < s.len() ==> s[first_match(s, mask)] & mask != 0,
    decreases s.len(),
{
    if s.len() != 0 && s[0] & mask == 0 {
        let t = s.drop_first();
        lemma_first_match(t, mask);
        assert forall|j: int| 0 <= j < first_match(s, mask) implies #[trigger] s[j] & mask
            == 0 by {
            if j > 0 {
                assert(s[j] == t[j - 1]);
            }
        }
        assert(first_match(t, mask) < t.len() ==> t[first_match(t, mask)] == s[first_match(
            s,
            mask,
        )]);
    }
}

/// A position with a match and none before it is the first match; a buffer
/// without any match has its first match at its length.
pub proof fn lemma_first_match_at(s: Seq<u8>, mask: u8, i: int)
    requires
        0 <= i <= s.len(),
        forall|j: int| 0 <= j < i ==> #[trigger] s[j] & mask == 0,
        i < s.len() ==> s[i] & mask != 0,
    ensures
        first_match(s, mask) == i,
{
    lemma_first_match(s, mask);
    let f = first_match(s, mask);
    if f < i {
        assert(s[f] & mask == 0);
    } else if f > i {
        assert(s[i] & mask == 0);
    }
}

/// The union of a buffer meets a mask exactly when one of its events does.
pub proof fn lemma_union_meets(s: Seq<u8>, mask: u8)
    ensures
        (pending_union(s) & mask != 0) <==> first_match(s, mask) < s.len(),
    decreases s.len(),
{
    lemma_first_match(s, mask);
    if s.len() == 0 {
        assert(0u8 & mask == 0) by (bit_vector);
    } else {
        let t = s.drop_last();
        let a = pending_union(t);
        let b = s.last();
        lemma_union_meets(t, mask);
        lemma_first_match(t, mask);
        assert(((a | b) & mask != 0) <==> (a & mask != 0 || b & mask != 0)) by (bit_vector);
        let f = first_match(s, mask);
        let g = first_match(t, mask);
        if g < t.len() {
            assert(t[g] == s[g]);
            if f >= s.len() {
                assert(s[g] & mask == 0);
            }
        } else if b & mask != 0 {
            if f >= s.len() {
                assert(s[s.len() - 1] & mask == 0);
            }
        } else {
            if f < s.len() {
                if f < t.len() {
                    assert(t[f] == s[f]);
                    assert(t[f] & mask == 0);
                }
            }
        }
    }
}

/// Adding an event to a buffer adds its bits to the union.
pub proof fn lemma_union_push(s: Seq<u8>, ev: u8)
    ensures
        pending_union(s.push(ev)) == pending_union(s) | ev,
{
    assert(s.push(ev).drop_last() == s);
}

} // verus!
