//! The result channel: a single-slot mailbox modelling the 32-byte shared
//! buffer through which the device reports at most one match per dispatch.
//!
//! The slot holds all zeroes when no lane has matched ("empty"); any other
//! contents are a match payload. The host consumes the slot with a single
//! read-then-clear step, so a payload is reported at most once and every
//! dispatch cycle starts from an empty slot.

use vstd::prelude::*;

verus! {

/// Number of bytes in the root buffer and in the result slot.
pub const PAYLOAD_LEN: usize = 32;

/// The all-zero sentinel: true when every byte of `s` is zero, i.e. the slot
/// holds no match.
pub open spec fn all_zero(s: Seq<u8>) -> bool {
    forall|i: int| 0 <= i < s.len() ==> s[i] == 0
}

/// What one consume step reports for a slot holding `s`: the payload exactly
/// as the device left it, or nothing when the slot is empty.
pub open spec fn consume_report(s: Seq<u8>) -> Option<Seq<u8>> {
    if all_zero(s) {
        None
    } else {
        Some(s)
    }
}

/// The slot contents after one consume step: always empty, whatever was
/// consumed.
pub open spec fn slot_after_consume(s: Seq<u8>) -> Seq<u8> {
    Seq::new(s.len(), |i: int| 0u8)
}

/// Host-side state of the result channel: the last contents read back from the
/// device's result buffer, consumed with a single read-then-clear step.
pub struct ResultChannel {
    slot: [u8; PAYLOAD_LEN],
}

impl View for ResultChannel {
    type V = Seq<u8>;

    closed spec fn view(&self) -> Seq<u8> {
        self.slot@
    }
}

impl ResultChannel {
    /// A fresh channel starts empty, as the device-side buffer is created
    /// zero-filled.
    pub fn new() -> (c: ResultChannel)
        ensures
            c@.len() == PAYLOAD_LEN,
            all_zero(c@),
    {
        ResultChannel { slot: [0u8; PAYLOAD_LEN] }
    }

    /// Record the bytes read back from the device's result buffer. A later
    /// load overwrites an earlier one, mirroring the device-side race where
    /// the last lane to write wins.
    pub fn load(&mut self, bytes: &[u8; PAYLOAD_LEN])
        ensures
            final(self)@ == bytes@,
    {
        self.slot = *bytes;
    }

    /// True when the slot holds the all-zero sentinel, i.e. no match is
    /// pending.
    pub fn is_empty(&self) -> (r: bool)
        ensures
            r == all_zero(self@),
    {
        let mut i: usize = 0;
        while i < PAYLOAD_LEN
            invariant
                0 <= i <= PAYLOAD_LEN,
                forall|j: int| 0 <= j < i ==> self.slot@[j] == 0,
            decreases PAYLOAD_LEN - i,
        {
            if self.slot[i] != 0 {
                return false;
            }
            i = i + 1;
        }
        true
    }

    /// The single read-then-clear consume step: report the pending match, if
    /// any, and leave the slot empty either way, so a payload can never be
    /// observed twice and the next cycle starts clean.
    pub fn take(&mut self) -> (r: Option<[u8; PAYLOAD_LEN]>)
        ensures
            r matches Some(p) ==> p@ == old(self)@,
            (r is Some) <==> (consume_report(old(self)@) is Some),
            r is None ==> all_zero(old(self)@),
            final(self)@ == slot_after_consume(old(self)@),
            all_zero(final(self)@),
    {
        if self.is_empty() {
            proof {
                assert(self@ =~= slot_after_consume(self@));
            }
            None
        } else {
            let payload = self.slot;
            self.slot = [0u8; PAYLOAD_LEN];
            proof {
                assert(self@ =~= slot_after_consume(payload@));
            }
            Some(payload)
        }
    }
}

/// A slot that no lane wrote to reports no match, and consuming it leaves it
/// exactly as it was: repeated dispatches that never match are idempotent on
/// the channel.
pub proof fn lemma_empty_slot_idempotent(s: Seq<u8>)
    requires
        all_zero(s),
    ensures
        consume_report(s) is None,
        slot_after_consume(s) == s,
{
    assert(slot_after_consume(s) =~= s);
}

/// A slot that some lane wrote to reports exactly the bytes that were
/// written: a genuine match is never lost or altered by the consume step.
pub proof fn lemma_filled_slot_reported(s: Seq<u8>)
    requires
        !all_zero(s),
    ensures
        consume_report(s) == Some(s),
{
}

/// Consuming leaves the slot empty, so without a fresh device write the next
/// consume reports nothing: a consumed payload is never reported a second
/// time.
pub proof fn lemma_match_not_reported_twice(s: Seq<u8>)
    ensures
        all_zero(slot_after_consume(s)),
        consume_report(slot_after_consume(s)) is None,
{
}

} // verus!
