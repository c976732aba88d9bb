use proof_of_wasted_work::error::{ErrorCode, InitializeError};
use proof_of_wasted_work::setup::{initialize, Initialize};
use proof_of_wasted_work::state::NearMissMint;

fn fresh(difficulty_target: u8, bump: u8) -> NearMissMint {
    NearMissMint {
        total_minted: 0,
        difficulty_target,
        last_block_height: 0,
        submitted_nonces: [0u32; 16],
        bump,
        oracle_balance: 0,
        treasury_balance: 0,
        last_prev_hash: [0u8; 32],
        last_merkle_root: [0u8; 32],
    }
}

#[test]
fn initialize_sets_the_state_up() {
    let mut ctx = Initialize { near_miss_mint: None, bump: 253 };
    assert_eq!(initialize(&mut ctx, 3), Ok(()));
    assert_eq!(ctx, Initialize { near_miss_mint: Some(fresh(3, 253)), bump: 253 });
}

#[test]
fn initialize_fails_the_second_time() {
    let mut ctx = Initialize { near_miss_mint: None, bump: 1 };
    assert_eq!(initialize(&mut ctx, 3), Ok(()));
    assert_eq!(initialize(&mut ctx, 4), Err(InitializeError::AlreadyInitialized));
    assert_eq!(ctx, Initialize { near_miss_mint: Some(fresh(3, 1)), bump: 1 });
}

#[test]
fn initialize_on_the_state_type_does_the_same() {
    let mut ctx = Initialize { near_miss_mint: None, bump: 9 };
    assert_eq!(NearMissMint::initialize(&mut ctx, 0), Ok(()));
    assert_eq!(ctx.near_miss_mint, Some(fresh(0, 9)));
    assert_eq!(
        NearMissMint::initialize(&mut ctx, 0),
        Err(InitializeError::AlreadyInitialized)
    );
}

#[test]
fn stored_state_takes_166_bytes() {
    assert_eq!(NearMissMint::SPACE, 166);
}

#[test]
fn error_codes_count_from_zero() {
    assert_eq!(ErrorCode::Overflow.code(), 0);
    assert_eq!(ErrorCode::DuplicateSubmission.code(), 1);
    assert_eq!(ErrorCode::InvalidNearMiss.code(), 2);
    assert_eq!(ErrorCode::StaleSubmission.code(), 3);
    assert_eq!(ErrorCode::InvalidOracleValue.code(), 4);
    assert_eq!(ErrorCode::StaleFeed.code(), 5);
}

#[test]
fn error_messages() {
    assert_eq!(ErrorCode::Overflow.message(), "Arithmetic overflow occurred.");
    assert_eq!(
        ErrorCode::DuplicateSubmission.message(),
        "Duplicate nonce submission within the current block."
    );
    assert_eq!(
        ErrorCode::InvalidNearMiss.message(),
        "Submission did not meet near-miss criteria."
    );
    assert_eq!(
        ErrorCode::StaleSubmission.message(),
        "Submission is stale compared to Bitcoin block data."
    );
    assert_eq!(
        ErrorCode::InvalidOracleValue.message(),
        "Oracle feed provided an invalid value."
    );
    assert_eq!(ErrorCode::StaleFeed.message(), "Switchboard feed data is stale.");
}
