//! The reasons for which the threads of a command enclave stopped, and the
//! rule by which what a thread ended with becomes the verdict on the enclave.

use vstd::prelude::*;
use crate::error::{EnclaveAbort, EnclavePanic, ThreadResult};
use crate::tcs::EnclaveEntry;

verus! {

/// The reasons that the threads of a command enclave gave for stopping.
pub struct PanicReason {
    /// The first exit or invalid usercall that a launched thread reported.
    pub primary_panic_reason: Option<EnclaveAbort<EnclavePanic>>,
    /// Every later report, in the order of arrival.
    pub other_reasons: Vec<EnclaveAbort<EnclavePanic>>,
}

/// The mathematical content of a `PanicReason`.
pub struct PanicReasonView {
    pub primary: Option<EnclaveAbort<EnclavePanic>>,
    pub others: Seq<EnclaveAbort<EnclavePanic>>,
}

impl View for PanicReason {
    type V = PanicReasonView;

    open spec fn view(&self) -> PanicReasonView {
        PanicReasonView { primary: self.primary_panic_reason, others: self.other_reasons@ }
    }
}

/// Whether a reason is one that can take the primary slot: an exit or an
/// invalid usercall.
pub open spec fn is_primary_kind(e: EnclaveAbort<EnclavePanic>) -> bool {
    e is Exit || e is InvalidUsercall
}

impl PanicReasonView {
    /// Nothing recorded.
    pub open spec fn empty() -> PanicReasonView {
        PanicReasonView { primary: None, others: Seq::empty() }
    }

    /// The reasons after `e` took the primary slot, or joined the others
    /// where the slot was taken.
    pub open spec fn record(self, e: EnclaveAbort<EnclavePanic>) -> PanicReasonView {
        if self.primary.is_none() {
            PanicReasonView { primary: Some(e), others: self.others }
        } else {
            PanicReasonView { primary: self.primary, others: self.others.push(e) }
        }
    }

    /// The reasons after `e` joined the others.
    pub open spec fn note(self, e: EnclaveAbort<EnclavePanic>) -> PanicReasonView {
        PanicReasonView { primary: self.primary, others: self.others.push(e) }
    }

    /// The number of reasons held.
    pub open spec fn count(self) -> int {
        self.others.len() + if self.primary.is_some() {
            1int
        } else {
            0int
        }
    }

    /// The reasons after a thread that was entered in `mode` ended with
    /// `result`.
    pub open spec fn after(self, result: ThreadResult, mode: EnclaveEntry) -> PanicReasonView {
        match (mode, result) {
            (EnclaveEntry::ExecutableNonMain, Err(e)) => if e is Secondary {
                self
            } else if is_primary_kind(e) {
                self.record(e)
            } else {
                self.note(e)
            },
            _ => self,
        }
    }

    /// The reasons after launched threads ended with `results`, one after
    /// the other.
    pub open spec fn after_all(self, results: Seq<ThreadResult>) -> PanicReasonView
        decreases results.len(),
    {
        if results.len() == 0 {
            self
        } else {
            self.after(results[0], EnclaveEntry::ExecutableNonMain).after_all(
                results.drop_first(),
            )
        }
    }
}

/// Whether the end of a launched thread leaves a reason behind: every error
/// but `Secondary` does.
pub open spec fn leaves_reason(result: ThreadResult) -> bool {
    result matches Err(e) && !(e is Secondary)
}

/// The number of results in `results` that leave a reason behind.
pub open spec fn reasons_left(results: Seq<ThreadResult>) -> int
    decreases results.len(),
{
    if results.len() == 0 {
        0
    } else {
        reasons_left(results.drop_first()) + if leaves_reason(results[0]) {
            1int
        } else {
            0int
        }
    }
}

/// The verdict that the end of a thread gives, if it gives one: the results
/// of a library call and of the main thread are verdicts, and a launched
/// thread that exits or makes an invalid usercall gives `Secondary` once its
/// reason is recorded, so that the main thread can finish. Every other end
/// of a launched thread gives none: its success is dropped, so is a
/// `Secondary`, which a peer has noted already, and any other error only
/// joins the other reasons.
pub open spec fn verdict(result: ThreadResult, mode: EnclaveEntry) -> Option<ThreadResult> {
    match mode {
        EnclaveEntry::Library | EnclaveEntry::ExecutableMain => Some(result),
        EnclaveEntry::ExecutableNonMain => match result {
            Ok(_) => None,
            Err(e) => if is_primary_kind(e) {
                Some(Err(EnclaveAbort::Secondary))
            } else {
                None
            },
        },
    }
}

/// However many launched threads stop and whatever they stop with, a primary
/// reason that is there stays, a primary slot is only ever filled with an
/// exit or an invalid usercall, and every result that leaves a reason adds
/// exactly one: what does not get the primary slot is among the others.
pub proof fn lemma_one_primary(reasons: PanicReasonView, results: Seq<ThreadResult>)
    ensures
        reasons.primary.is_some() ==> reasons.after_all(results).primary == reasons.primary,
        reasons.primary.is_none() ==> (reasons.after_all(results).primary matches Some(e)
            ==> is_primary_kind(e)),
        reasons.after_all(results).count() == reasons.count() + reasons_left(results),
        reasons.after_all(results).others.len() >= reasons.others.len(),
        reasons.after_all(results).others.take(reasons.others.len() as int) == reasons.others,
    decreases results.len(),
{
    if results.len() == 0 {
        assert(reasons.others.take(reasons.others.len() as int) == reasons.others);
    } else {
        let next = reasons.after(results[0], EnclaveEntry::ExecutableNonMain);
        lemma_one_primary(next, results.drop_first());
        let last = next.after_all(results.drop_first());
        assert(next.others.take(reasons.others.len() as int) == reasons.others);
        assert(last.others.take(reasons.others.len() as int) == last.others.take(
            next.others.len() as int,
        ).take(reasons.others.len() as int));
    }
}

/// Whether the end of a launched thread leaves a reason behind.
pub fn reason_left(result: &ThreadResult) -> (left: bool)
    ensures
        left == leaves_reason(*result),
{
    match result {
        Ok(_) => false,
        Err(EnclaveAbort::Secondary) => false,
        Err(_) => true,
    }
}

impl PanicReason {
    /// Nothing recorded.
    pub fn new() -> (reasons: PanicReason)
        ensures
            reasons@ == PanicReasonView::empty(),
    {
        PanicReason { primary_panic_reason: None, other_reasons: Vec::new() }
    }

    /// Takes in what a thread that was entered in `mode` ended with, and
    /// returns the verdict on the enclave if this end gives one.
    pub fn thread_stopped(&mut self, result: ThreadResult, mode: EnclaveEntry) -> (v: Option<
        ThreadResult,
    >)
        ensures
            final(self)@ == old(self)@.after(result, mode),
            v == verdict(result, mode),
    {
        match mode {
            EnclaveEntry::Library => Some(result),
            EnclaveEntry::ExecutableMain => Some(result),
            EnclaveEntry::ExecutableNonMain => match result {
                Ok(_) => None,
                Err(EnclaveAbort::Secondary) => None,
                Err(EnclaveAbort::Exit { panic }) => {
                    self.record(EnclaveAbort::Exit { panic });
                    Some(Err(EnclaveAbort::Secondary))
                },
                Err(EnclaveAbort::InvalidUsercall(n)) => {
                    self.record(EnclaveAbort::InvalidUsercall(n));
                    Some(Err(EnclaveAbort::Secondary))
                },
                Err(e) => {
                    self.other_reasons.push(e);
                    None
                },
            },
        }
    }

    /// Puts `e` into the primary slot, or among the others where the slot is
    /// taken.
    pub fn record(&mut self, e: EnclaveAbort<EnclavePanic>)
        ensures
            final(self)@ == old(self)@.record(e),
    {
        if self.primary_panic_reason.is_none() {
            self.primary_panic_reason = Some(e);
        } else {
            self.other_reasons.push(e);
        }
    }

    /// Takes the primary reason out, if there is one.
    pub fn take_primary(&mut self) -> (primary: Option<EnclaveAbort<EnclavePanic>>)
        ensures
            primary == old(self)@.primary,
            final(self)@ == (PanicReasonView { primary: None, others: old(self)@.others }),
    {
        self.primary_panic_reason.take()
    }
}

} // verus!
