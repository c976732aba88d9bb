//! The protocol's long-lived state, and the ledger of nonces seen for the
//! current block.

use crate::error::ErrorCode;
use vstd::prelude::*;

verus! {

/// Number of nonces that can be recorded for one block height.
pub const NONCE_SLOTS: usize = 16;

/// The state account as it is stored.
#[derive(Clone, Copy, Debug, PartialEq, Eq)]
pub struct NearMissMint {
    /// Tokens awarded so far.
    pub total_minted: u64,
    /// Number of trailing zero bytes that makes a digest a near miss.
    pub difficulty_target: u8,
    /// Block height for which `submitted_nonces` holds.
    pub last_block_height: u32,
    /// The nonces accepted at `last_block_height`; zero marks a free slot.
    pub submitted_nonces: [u32; 16],
    /// Bump seed of the account's address.
    pub bump: u8,
    /// Total routed to oracle maintenance so far.
    pub oracle_balance: u64,
    /// Total routed to the treasury so far.
    pub treasury_balance: u64,
    /// Room for the previous block's hash of the last tip. Nothing fills it.
    pub last_prev_hash: [u8; 32],
    /// Room for the merkle root of the last tip. Nothing fills it.
    pub last_merkle_root: [u8; 32],
}

/// The protocol state as a mathematical value.
pub struct ProtocolState {
    pub total_minted: u64,
    pub difficulty_target: u8,
    pub last_reference_height: u32,
    pub submitted_nonces: Seq<u32>,
    pub bump: u8,
    pub oracle_balance: u64,
    pub treasury_balance: u64,
    pub last_prev_hash: Seq<u8>,
    pub last_merkle_root: Seq<u8>,
}

/// A ledger with every slot free.
pub open spec fn empty_ledger() -> Seq<u32> {
    Seq::new(NONCE_SLOTS as nat, |i: int| 0u32)
}

/// Index of the first free slot; the number of slots if none is free.
pub open spec fn first_free_slot(slots: Seq<u32>) -> int
    decreases slots.len(),
{
    if slots.len() == 0 || slots.first() == 0 {
        0
    } else {
        1 + first_free_slot(slots.drop_first())
    }
}

impl ProtocolState {
    /// The ledger is sound: it has its sixteen slots, and no nonce fills
    /// two of them.
    pub open spec fn wf(self) -> bool {
        &&& self.submitted_nonces.len() == NONCE_SLOTS
        &&& forall|i: int, j: int|
            0 <= i < j < self.submitted_nonces.len() && self.submitted_nonces[i] != 0
                ==> self.submitted_nonces[i] != self.submitted_nonces[j]
    }

    /// The ledger that a submission at `height` meets: the stored one if it
    /// is for that height, an empty one if the height has moved.
    pub open spec fn ledger_at(self, height: u32) -> Seq<u32> {
        if self.last_reference_height == height {
            self.submitted_nonces
        } else {
            empty_ledger()
        }
    }

    /// Whether `nonce` can be recorded at `height`: it is not in the ledger
    /// and a slot is free. Zero marks a free slot, so it is never accepted.
    pub open spec fn accepts(self, nonce: u32, height: u32) -> bool {
        !self.ledger_at(height).contains(nonce) && self.ledger_at(height).contains(0)
    }

    /// The state that an attempt to record `nonce` at `height` leaves: the
    /// ledger is the one for `height`, with the nonce in its first free slot
    /// if it was accepted.
    pub open spec fn after_record(self, nonce: u32, height: u32) -> ProtocolState {
        let ledger = self.ledger_at(height);
        ProtocolState {
            last_reference_height: height,
            submitted_nonces: if self.accepts(nonce, height) {
                ledger.update(first_free_slot(ledger), nonce)
            } else {
                ledger
            },
            ..self
        }
    }

    /// The state after attempts to record each of `nonces` in turn, all at
    /// `height`.
    pub open spec fn after_all(self, nonces: Seq<u32>, height: u32) -> ProtocolState
        decreases nonces.len(),
    {
        if nonces.len() == 0 {
            self
        } else {
            self.after_all(nonces.drop_last(), height).after_record(nonces.last(), height)
        }
    }
}

impl View for NearMissMint {
    type V = ProtocolState;

    open spec fn view(&self) -> ProtocolState {
        ProtocolState {
            total_minted: self.total_minted,
            difficulty_target: self.difficulty_target,
            last_reference_height: self.last_block_height,
            submitted_nonces: self.submitted_nonces@,
            bump: self.bump,
            oracle_balance: self.oracle_balance,
            treasury_balance: self.treasury_balance,
            last_prev_hash: self.last_prev_hash@,
            last_merkle_root: self.last_merkle_root@,
        }
    }
}

/// The first free slot is free, and every slot before it is taken.
pub proof fn lemma_first_free_slot(slots: Seq<u32>)
    ensures
        0 <= first_free_slot(slots) <= slots.len(),
        forall|i: int| 0 <= i < first_free_slot(slots) ==> slots[i] != 0,
        first_free_slot(slots) < slots.len() ==> slots[first_free_slot(slots)] == 0,
        first_free_slot(slots) < slots.len() <==> slots.contains(0),
    decreases slots.len(),
{
    if slots.len() != 0 && slots.first() != 0 {
        let tail = slots.drop_first();
        lemma_first_free_slot(tail);
        assert forall|i: int| 0 <= i < first_free_slot(slots) implies slots[i] != 0 by {
            if i > 0 {
                assert(slots[i] == tail[i - 1]);
            }
        }
    }
}

impl NearMissMint {
    /// Records `nonce` for the block at `current_height`. A height other
    /// than the stored one empties the ledger first. The nonce is refused
    /// if the ledger holds it already, and also if no slot is free.
    pub fn record_nonce(&mut self, nonce: u32, current_height: u32) -> (recorded: Result<
        (),
        ErrorCode,
    >)
        ensures
            final(self)@ == old(self)@.after_record(nonce, current_height),
            recorded == if old(self)@.accepts(nonce, current_height) {
                Ok::<(), ErrorCode>(())
            } else {
                Err::<(), ErrorCode>(ErrorCode::DuplicateSubmission)
            },
            old(self)@.wf() ==> final(self)@.wf(),
    {
        proof {
            if old(self)@.wf() {
                lemma_record_preserves_wf(old(self)@, nonce, current_height);
            }
        }
        if self.last_block_height != current_height {
            self.submitted_nonces = [0u32; 16];
            self.last_block_height = current_height;
        }
        let ghost ledger = self.submitted_nonces@;
        let mut found_slot: Option<usize> = None;
        let mut i: usize = 0;
        while i < 16
            invariant
                i <= 16,
                ledger.len() == 16,
                ledger == old(self)@.ledger_at(current_height),
                self@ == (ProtocolState {
                    last_reference_height: current_height,
                    submitted_nonces: ledger,
                    ..old(self)@
                }),
                forall|k: int| 0 <= k < i ==> ledger[k] != nonce,
                match found_slot {
                    Some(slot) => slot < i && ledger[slot as int] == 0 && forall|k: int|
                        0 <= k < slot ==> ledger[k] != 0,
                    None => forall|k: int| 0 <= k < i ==> ledger[k] != 0,
                },
            decreases 16 - i,
        {
            let n = self.submitted_nonces[i];
            if n == nonce {
                return Err(ErrorCode::DuplicateSubmission);
            }
            if n == 0 && found_slot.is_none() {
                found_slot = Some(i);
            }
            i = i + 1;
        }
        proof {
            lemma_first_free_slot(ledger);
        }
        match found_slot {
            Some(slot) => {
                self.submitted_nonces[slot] = nonce;
                Ok(())
            },
            None => Err(ErrorCode::DuplicateSubmission),
        }
    }
}

/// Recording keeps the ledger sound.
pub proof fn lemma_record_preserves_wf(state: ProtocolState, nonce: u32, height: u32)
    requires
        state.wf(),
    ensures
        state.after_record(nonce, height).wf(),
{
    let ledger = state.ledger_at(height);
    lemma_first_free_slot(ledger);
    if state.accepts(nonce, height) {
        let next = ledger.update(first_free_slot(ledger), nonce);
        assert forall|i: int, j: int| 0 <= i < j < next.len() && next[i] != 0 implies next[i]
            != next[j] by {}
    }
}

/// A nonce is never accepted twice at one height: once an attempt to record
/// it has been made, accepted or not, the same nonce is refused.
pub proof fn lemma_second_attempt_is_refused(state: ProtocolState, nonce: u32, height: u32)
    ensures
        !state.after_record(nonce, height).accepts(nonce, height),
{
    let ledger = state.ledger_at(height);
    lemma_first_free_slot(ledger);
    if state.accepts(nonce, height) {
        let slot = first_free_slot(ledger);
        assert(ledger.update(slot, nonce)[slot] == nonce);
    }
}

/// A refused nonce stays refused while the height stays the same, whatever
/// else is recorded in between.
pub proof fn lemma_refusal_is_stable(state: ProtocolState, nonce: u32, other: u32, height: u32)
    requires
        !state.accepts(nonce, height),
    ensures
        !state.after_record(other, height).accepts(nonce, height),
{
    let ledger = state.ledger_at(height);
    lemma_first_free_slot(ledger);
    if state.accepts(other, height) {
        let slot = first_free_slot(ledger);
        let next = ledger.update(slot, other);
        if ledger.contains(nonce) && nonce != 0 {
            let k = choose|k: int| 0 <= k < ledger.len() && ledger[k] == nonce;
            assert(next[k] == nonce);
        }
    }
}

/// In a run of submissions at one height, a nonce that was submitted before
/// is refused from then on, whatever became of the earlier submission and
/// whatever was submitted in between.
pub proof fn lemma_submitted_nonce_stays_refused(
    state: ProtocolState,
    nonces: Seq<u32>,
    height: u32,
    i: int,
    k: int,
)
    requires
        0 <= i < k <= nonces.len(),
    ensures
        !state.after_all(nonces.take(k), height).accepts(nonces[i], height),
    decreases k - i,
{
    assert(nonces.take(k).drop_last() =~= nonces.take(k - 1));
    let earlier = state.after_all(nonces.take(k - 1), height);
    if i == k - 1 {
        lemma_second_attempt_is_refused(earlier, nonces[i], height);
    } else {
        lemma_submitted_nonce_stays_refused(state, nonces, height, i, k - 1);
        lemma_refusal_is_stable(earlier, nonces[i], nonces[k - 1], height);
    }
}

/// Among submissions at one height, every repetition of a nonce is refused.
pub proof fn lemma_repeated_nonce_is_refused(
    state: ProtocolState,
    nonces: Seq<u32>,
    height: u32,
    i: int,
    j: int,
)
    requires
        0 <= i < j < nonces.len(),
        nonces[i] == nonces[j],
    ensures
        !state.after_all(nonces.take(j), height).accepts(nonces[j], height),
{
    lemma_submitted_nonce_stays_refused(state, nonces, height, i, j);
}

/// Recording one nonce does not put another into the ledger.
pub proof fn lemma_absence_is_stable(state: ProtocolState, nonce: u32, other: u32, height: u32)
    requires
        !state.ledger_at(height).contains(nonce),
        other != nonce,
    ensures
        !state.after_record(other, height).ledger_at(height).contains(nonce),
{
    let ledger = state.ledger_at(height);
    let next = state.after_record(other, height).ledger_at(height);
    lemma_first_free_slot(ledger);
    if next.contains(nonce) {
        let k = choose|k: int| 0 <= k < next.len() && next[k] == nonce;
        assert(ledger[k] == nonce);
    }
}

/// Among submissions at one height, the first occurrence of a nonce is
/// accepted if a slot is still free when it comes, provided the ledger did
/// not hold the nonce at the start. Zero is held by every ledger with a free
/// slot, and so is never such a nonce.
pub proof fn lemma_first_occurrence_is_accepted(
    state: ProtocolState,
    nonces: Seq<u32>,
    height: u32,
    j: int,
)
    requires
        0 <= j < nonces.len(),
        forall|i: int| 0 <= i < j ==> nonces[i] != nonces[j],
        !state.ledger_at(height).contains(nonces[j]),
        state.after_all(nonces.take(j), height).ledger_at(height).contains(0),
    ensures
        state.after_all(nonces.take(j), height).accepts(nonces[j], height),
{
    lemma_unsubmitted_nonce_stays_absent(state, nonces, height, nonces[j], j);
}

proof fn lemma_unsubmitted_nonce_stays_absent(
    state: ProtocolState,
    nonces: Seq<u32>,
    height: u32,
    nonce: u32,
    k: int,
)
    requires
        0 <= k <= nonces.len(),
        forall|i: int| 0 <= i < k ==> nonces[i] != nonce,
        !state.ledger_at(height).contains(nonce),
    ensures
        !state.after_all(nonces.take(k), height).ledger_at(height).contains(nonce),
    decreases k,
{
    if k > 0 {
        assert(nonces.take(k).drop_last() =~= nonces.take(k - 1));
        lemma_unsubmitted_nonce_stays_absent(state, nonces, height, nonce, k - 1);
        lemma_absence_is_stable(
            state.after_all(nonces.take(k - 1), height),
            nonce,
            nonces[k - 1],
            height,
        );
    }
}

/// A ledger that holds the first `k` of `nonces` in order, as far as there
/// are slots, and is free after them.
pub open spec fn filled_ledger(nonces: Seq<u32>, k: int) -> Seq<u32> {
    Seq::new(NONCE_SLOTS as nat, |i: int| if i < k { nonces[i] } else { 0u32 })
}

/// Distinct nonces, none of them zero, submitted at a height at which the
/// ledger was empty, fill the slots in order.
pub proof fn lemma_ledger_fills_in_order(
    state: ProtocolState,
    nonces: Seq<u32>,
    height: u32,
    k: int,
)
    requires
        state.ledger_at(height) == empty_ledger(),
        0 <= k <= nonces.len(),
        forall|i: int| 0 <= i < nonces.len() ==> nonces[i] != 0,
        forall|i: int, j: int| 0 <= i < j < nonces.len() ==> nonces[i] != nonces[j],
    ensures
        state.after_all(nonces.take(k), height).ledger_at(height) == filled_ledger(nonces, k),
    decreases k,
{
    if k > 0 {
        assert(nonces.take(k).drop_last() =~= nonces.take(k - 1));
        lemma_ledger_fills_in_order(state, nonces, height, k - 1);
        let earlier = state.after_all(nonces.take(k - 1), height);
        let ledger = earlier.ledger_at(height);
        lemma_first_free_slot(ledger);
        if k - 1 < NONCE_SLOTS {
            assert(ledger[k - 1] == 0);
        }
        assert(earlier.after_record(nonces[k - 1], height).ledger_at(height) =~= filled_ledger(
            nonces,
            k,
        ));
    }
}

/// The ledger has room for sixteen nonces at a height and for no more: of
/// distinct nonces, none of them zero, submitted at a height at which the
/// ledger was empty, the first sixteen are accepted and every later one is
/// refused. The ledger is empty at every height but the stored one, and at
/// that one too after the setup.
pub proof fn lemma_ledger_capacity(state: ProtocolState, nonces: Seq<u32>, height: u32, k: int)
    requires
        state.ledger_at(height) == empty_ledger(),
        0 <= k < nonces.len(),
        forall|i: int| 0 <= i < nonces.len() ==> nonces[i] != 0,
        forall|i: int, j: int| 0 <= i < j < nonces.len() ==> nonces[i] != nonces[j],
    ensures
        state.after_all(nonces.take(k), height).accepts(nonces[k], height) <==> k < NONCE_SLOTS,
{
    lemma_ledger_fills_in_order(state, nonces, height, k);
    let ledger = filled_ledger(nonces, k);
    if k < NONCE_SLOTS {
        assert(ledger[k] == 0);
    }
}

/// A new height empties the ledger before anything is recorded: any nonce
/// but zero is accepted, whether or not it was used at the height before,
/// and is then the ledger's only entry.
pub proof fn lemma_new_height_clears_ledger(state: ProtocolState, nonce: u32, height: u32)
    requires
        state.last_reference_height != height,
        nonce != 0,
    ensures
        state.accepts(nonce, height),
        state.after_record(nonce, height).last_reference_height == height,
        state.after_record(nonce, height).submitted_nonces == empty_ledger().update(0, nonce),
{
    let ledger = empty_ledger();
    assert(ledger[0] == 0);
}

} // verus!
