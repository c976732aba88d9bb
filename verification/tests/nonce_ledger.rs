use proof_of_wasted_work::error::ErrorCode;
use proof_of_wasted_work::state::{NearMissMint, NONCE_SLOTS};

fn state_at(height: u32) -> NearMissMint {
    NearMissMint {
        total_minted: 0,
        difficulty_target: 1,
        last_block_height: height,
        submitted_nonces: [0u32; 16],
        bump: 255,
        oracle_balance: 0,
        treasury_balance: 0,
        last_prev_hash: [0u8; 32],
        last_merkle_root: [0u8; 32],
    }
}

#[test]
fn ledger_has_sixteen_slots() {
    assert_eq!(NONCE_SLOTS, 16);
    assert_eq!(state_at(0).submitted_nonces.len(), NONCE_SLOTS);
}

#[test]
fn first_occurrence_is_recorded_and_every_later_one_refused() {
    let mut state = state_at(7);
    assert_eq!(state.record_nonce(41, 7), Ok(()));
    assert_eq!(state.record_nonce(41, 7), Err(ErrorCode::DuplicateSubmission));
    assert_eq!(state.record_nonce(42, 7), Ok(()));
    assert_eq!(state.record_nonce(41, 7), Err(ErrorCode::DuplicateSubmission));
    assert_eq!(state.record_nonce(42, 7), Err(ErrorCode::DuplicateSubmission));
    let mut expected = [0u32; 16];
    expected[0] = 41;
    expected[1] = 42;
    assert_eq!(state.submitted_nonces, expected);
    assert_eq!(state.last_block_height, 7);
}

#[test]
fn nonces_fill_the_first_free_slot() {
    let mut state = state_at(3);
    state.submitted_nonces[0] = 10;
    state.submitted_nonces[2] = 30;
    assert_eq!(state.record_nonce(20, 3), Ok(()));
    assert_eq!(state.record_nonce(40, 3), Ok(()));
    let mut expected = [0u32; 16];
    expected[0] = 10;
    expected[1] = 20;
    expected[2] = 30;
    expected[3] = 40;
    assert_eq!(state.submitted_nonces, expected);
}

#[test]
fn seventeenth_distinct_nonce_is_refused() {
    let mut state = state_at(100);
    for nonce in 1..=16u32 {
        assert_eq!(state.record_nonce(nonce * 1000, 100), Ok(()));
    }
    assert_eq!(state.record_nonce(17_000, 100), Err(ErrorCode::DuplicateSubmission));
    assert_eq!(state.record_nonce(18_000, 100), Err(ErrorCode::DuplicateSubmission));
    let mut expected = [0u32; 16];
    for (slot, value) in expected.iter_mut().enumerate() {
        *value = (slot as u32 + 1) * 1000;
    }
    assert_eq!(state.submitted_nonces, expected);
}

#[test]
fn new_height_clears_the_ledger() {
    let mut state = state_at(100);
    for nonce in 1..=16u32 {
        assert_eq!(state.record_nonce(nonce, 100), Ok(()));
    }
    assert_eq!(state.record_nonce(5, 100), Err(ErrorCode::DuplicateSubmission));
    assert_eq!(state.record_nonce(5, 101), Ok(()));
    let mut expected = [0u32; 16];
    expected[0] = 5;
    assert_eq!(state.submitted_nonces, expected);
    assert_eq!(state.last_block_height, 101);
    // Going back to an earlier height is a change of height like any other.
    assert_eq!(state.record_nonce(5, 100), Ok(()));
    assert_eq!(state.submitted_nonces, expected);
    assert_eq!(state.last_block_height, 100);
}

#[test]
fn zero_is_never_a_nonce() {
    let mut state = state_at(9);
    assert_eq!(state.record_nonce(0, 9), Err(ErrorCode::DuplicateSubmission));
    assert_eq!(state.submitted_nonces, [0u32; 16]);
    for nonce in 1..=16u32 {
        assert_eq!(state.record_nonce(nonce, 9), Ok(()));
    }
    assert_eq!(state.record_nonce(0, 9), Err(ErrorCode::DuplicateSubmission));
}

#[test]
fn refused_nonce_at_a_new_height_still_turns_the_ledger_over() {
    let mut state = state_at(1);
    assert_eq!(state.record_nonce(77, 1), Ok(()));
    assert_eq!(state.record_nonce(0, 2), Err(ErrorCode::DuplicateSubmission));
    assert_eq!(state.last_block_height, 2);
    assert_eq!(state.submitted_nonces, [0u32; 16]);
}

#[test]
fn recording_touches_the_ledger_only() {
    let mut state = state_at(1);
    state.total_minted = 500;
    state.oracle_balance = 7;
    state.treasury_balance = 8;
    state.last_prev_hash = [1u8; 32];
    state.last_merkle_root = [2u8; 32];
    assert_eq!(state.record_nonce(77, 4), Ok(()));
    let mut expected = state_at(4);
    expected.total_minted = 500;
    expected.oracle_balance = 7;
    expected.treasury_balance = 8;
    expected.last_prev_hash = [1u8; 32];
    expected.last_merkle_root = [2u8; 32];
    expected.submitted_nonces[0] = 77;
    assert_eq!(state, expected);
}
