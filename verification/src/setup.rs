//! The one-time setup of the protocol state.

use crate::error::InitializeError;
use crate::state::{empty_ledger, NearMissMint, ProtocolState};
use vstd::prelude::*;

verus! {

/// The accounts of the setup.
#[derive(Clone, Copy, Debug, PartialEq, Eq)]
pub struct Initialize {
    /// The protocol state: none until it is set up.
    pub near_miss_mint: Option<NearMissMint>,
    /// Bump seed of the state account's address.
    pub bump: u8,
}

/// The state that the setup establishes: the given difficulty target and
/// bump seed, nothing minted, nothing forfeited, and an empty ledger.
pub open spec fn initial_state(difficulty_target: u8, bump: u8) -> ProtocolState {
    ProtocolState {
        total_minted: 0,
        difficulty_target,
        last_reference_height: 0,
        submitted_nonces: empty_ledger(),
        bump,
        oracle_balance: 0,
        treasury_balance: 0,
        last_prev_hash: Seq::new(32, |i: int| 0u8),
        last_merkle_root: Seq::new(32, |i: int| 0u8),
    }
}

impl NearMissMint {
    /// Bytes that the stored state takes.
    pub const SPACE: usize = 8 + 8 + 1 + 4 + 64 + 1 + 8 + 8 + 32 + 32;

    /// Sets the protocol state up with `difficulty_k` as its difficulty
    /// target. This can be done once: where the state exists already, the
    /// call fails and changes nothing.
    pub fn initialize(ctx: &mut Initialize, difficulty_k: u8) -> (done: Result<
        (),
        InitializeError,
    >)
        ensures
            match done {
                Ok(()) => {
                    &&& old(ctx).near_miss_mint is None
                    &&& final(ctx).near_miss_mint is Some
                    &&& final(ctx).near_miss_mint.unwrap()@ == initial_state(
                        difficulty_k,
                        old(ctx).bump,
                    )
                    &&& final(ctx).bump == old(ctx).bump
                },
                Err(e) => {
                    &&& e == InitializeError::AlreadyInitialized
                    &&& old(ctx).near_miss_mint is Some
                    &&& *final(ctx) == *old(ctx)
                },
            },
    {
        if ctx.near_miss_mint.is_some() {
            return Err(InitializeError::AlreadyInitialized);
        }
        let near_miss = NearMissMint {
            total_minted: 0,
            difficulty_target: difficulty_k,
            last_block_height: 0,
            submitted_nonces: [0u32; 16],
            bump: ctx.bump,
            oracle_balance: 0,
            treasury_balance: 0,
            last_prev_hash: [0u8; 32],
            last_merkle_root: [0u8; 32],
        };
        assert(near_miss.submitted_nonces@ =~= empty_ledger());
        assert(near_miss.last_prev_hash@ =~= Seq::new(32, |i: int| 0u8));
        assert(near_miss.last_merkle_root@ =~= Seq::new(32, |i: int| 0u8));
        ctx.near_miss_mint = Some(near_miss);
        Ok(())
    }
}

/// Sets the protocol state up: see [`NearMissMint::initialize`].
pub fn initialize(ctx: &mut Initialize, difficulty_k: u8) -> (done: Result<(), InitializeError>)
    ensures
        match done {
            Ok(()) => {
                &&& old(ctx).near_miss_mint is None
                &&& final(ctx).near_miss_mint is Some
                &&& final(ctx).near_miss_mint.unwrap()@ == initial_state(
                    difficulty_k,
                    old(ctx).bump,
                )
                &&& final(ctx).bump == old(ctx).bump
            },
            Err(e) => {
                &&& e == InitializeError::AlreadyInitialized
                &&& old(ctx).near_miss_mint is Some
                &&& *final(ctx) == *old(ctx)
            },
        },
{
    NearMissMint::initialize(ctx, difficulty_k)
}

/// The state that the setup establishes is sound, and its ledger is empty
/// at every height: every nonce but zero is accepted.
pub proof fn lemma_initial_state(difficulty_target: u8, bump: u8, nonce: u32, height: u32)
    ensures
        initial_state(difficulty_target, bump).wf(),
        initial_state(difficulty_target, bump).ledger_at(height) == empty_ledger(),
        initial_state(difficulty_target, bump).accepts(nonce, height) <==> nonce != 0,
{
    let ledger = empty_ledger();
    assert(ledger[0] == 0);
}

} // verus!
