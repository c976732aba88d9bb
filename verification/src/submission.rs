//! The submission workflow: take the deposit, judge the header, and either
//! reward the submitter and return the deposit, or share the deposit out.

use crate::accounts::{Balances, Submission, SubmitNearMiss};
use crate::difficulty::{check, is_near_miss, EXPECTED_BITCOIN_VERSION};
use crate::error::{ErrorCode, SubmitError};
use crate::header::{encode, header_bytes};
use crate::oracle::{get_tip_data, read_feed, spec_read_feed, spec_tip_data, BlockTipView};
use crate::settlement::{
    burn_share,
    collect_deposit,
    distribute_deposit,
    distribution_shares,
    oracle_share,
    return_deposit,
    treasury_share,
    SUBMISSION_DEPOSIT,
    TOKEN_PER_NEAR_MISS,
};
use crate::state::{
    empty_ledger,
    filled_ledger,
    first_free_slot,
    lemma_first_free_slot,
    lemma_new_height_clears_ledger,
    lemma_record_preserves_wf,
    lemma_second_attempt_is_refused,
    ProtocolState,
    NONCE_SLOTS,
};
use vstd::prelude::*;

verus! {

/// How a submission ended.
#[derive(Clone, Copy, Debug, PartialEq, Eq, Structural)]
pub enum Outcome {
    /// The header was a near miss: this many tokens are to be minted to the
    /// submitter, and the deposit went back.
    Rewarded(u64),
    /// The header was no near miss: this much of the deposit went to the
    /// oracle fund and the treasury, and the rest was burned.
    Rejected(u64),
}

impl Submission {
    /// Whether a header is a near miss for these accounts. The header is
    /// hashed with the time the feed reports, so the feed is read first; a
    /// header of another version is refused before that.
    pub open spec fn verification(
        self,
        version: u32,
        prev_hash: Seq<u8>,
        merkle_root: Seq<u8>,
        bits: u32,
        nonce: u32,
        extra_nonce: u64,
    ) -> Result<bool, ErrorCode> {
        if version != EXPECTED_BITCOIN_VERSION {
            Ok(false)
        } else {
            match spec_read_feed(self.btc_tip_feed) {
                Err(e) => Err(e),
                Ok(reading) => match reading.spec_reference_timestamp() {
                    Err(e) => Err(e),
                    Ok(reference_timestamp) => Ok(
                        is_near_miss(
                            version,
                            header_bytes(
                                version,
                                prev_hash,
                                merkle_root,
                                reference_timestamp,
                                bits,
                                nonce,
                                extra_nonce,
                            ),
                            self.near_miss_mint.difficulty_target,
                        ),
                    ),
                },
            }
        }
    }

    /// The accounts once `nonce` is recorded at `height` and the reward for
    /// it is entered in the tokens minted.
    pub open spec fn after_reward(self, nonce: u32, height: u32) -> Result<
        Submission,
        SubmitError,
    > {
        if !self.near_miss_mint.accepts(nonce, height) {
            Err(SubmitError::Protocol(ErrorCode::DuplicateSubmission))
        } else if self.near_miss_mint.total_minted + TOKEN_PER_NEAR_MISS > u64::MAX {
            Err(SubmitError::Protocol(ErrorCode::Overflow))
        } else {
            Ok(
                Submission {
                    near_miss_mint: ProtocolState {
                        total_minted: (self.near_miss_mint.total_minted
                            + TOKEN_PER_NEAR_MISS) as u64,
                        ..self.near_miss_mint.after_record(nonce, height)
                    },
                    ..self
                },
            )
        }
    }

    /// The accounts after attempts to reward each of `nonces` in turn, all at
    /// `height`. A refused attempt changes nothing.
    pub open spec fn after_rewards(self, nonces: Seq<u32>, height: u32) -> Submission
        decreases nonces.len(),
    {
        if nonces.len() == 0 {
            self
        } else {
            let earlier = self.after_rewards(nonces.drop_last(), height);
            match earlier.after_reward(nonces.last(), height) {
                Ok(rewarded) => rewarded,
                Err(_) => earlier,
            }
        }
    }

    /// The accounts once a valid submission is processed: the chain tip is
    /// read from the feed, and the nonce is recorded and rewarded at the
    /// tip's height.
    pub open spec fn after_valid_submission(self, nonce: u32, unix_timestamp: i64) -> Result<
        Submission,
        SubmitError,
    > {
        match spec_tip_data(self.btc_tip_feed, unix_timestamp) {
            Err(e) => Err(e),
            Ok(tip) => self.after_reward(nonce, tip.height),
        }
    }

    /// How a submission ends, and the accounts it leaves.
    pub open spec fn after_submission(
        self,
        version: u32,
        prev_hash: Seq<u8>,
        merkle_root: Seq<u8>,
        bits: u32,
        nonce: u32,
        extra_nonce: u64,
        unix_timestamp: i64,
    ) -> Result<(Outcome, Submission), SubmitError> {
        match self.after_collect() {
            Err(e) => Err(e),
            Ok(collected) => match collected.verification(
                version,
                prev_hash,
                merkle_root,
                bits,
                nonce,
                extra_nonce,
            ) {
                Err(e) => Err(SubmitError::Protocol(e)),
                Ok(true) => match collected.after_valid_submission(nonce, unix_timestamp) {
                    Err(e) => Err(e),
                    Ok(rewarded) => match rewarded.after_refund() {
                        Err(e) => Err(e),
                        Ok(settled) => Ok((Outcome::Rewarded(TOKEN_PER_NEAR_MISS), settled)),
                    },
                },
                Ok(false) => match collected.after_distribution() {
                    Err(e) => Err(e),
                    Ok(settled) => Ok(
                        (
                            Outcome::Rejected(
                                (oracle_share(SUBMISSION_DEPOSIT) + treasury_share(
                                    SUBMISSION_DEPOSIT,
                                )) as u64,
                            ),
                            settled,
                        ),
                    ),
                },
            },
        }
    }
}

/// Judges a submitted header. The submitter's own `_timestamp` is taken
/// and not used: the header is hashed with the feed's time. A feed that
/// cannot be decoded, or that has no successful round, is an error and not
/// a mere refusal.
pub fn verify_near_miss(
    ctx: &SubmitNearMiss,
    version: u32,
    prev_hash: [u8; 32],
    merkle_root: [u8; 32],
    _timestamp: u32,
    bits: u32,
    nonce: u32,
    extra_nonce: u64,
) -> (valid: Result<bool, ErrorCode>)
    ensures
        valid == ctx@.verification(version, prev_hash@, merkle_root@, bits, nonce, extra_nonce),
{
    if version != EXPECTED_BITCOIN_VERSION {
        return Ok(false);
    }
    let reading = match read_feed(ctx.btc_tip_feed.as_slice()) {
        Ok(reading) => reading,
        Err(e) => {
            return Err(e);
        },
    };
    let feed_timestamp = match reading.reference_timestamp() {
        Ok(feed_timestamp) => feed_timestamp,
        Err(e) => {
            return Err(e);
        },
    };
    let header = encode(
        version,
        &prev_hash,
        &merkle_root,
        feed_timestamp,
        bits,
        nonce,
        extra_nonce,
    );
    Ok(check(version, header.as_slice(), ctx.near_miss_mint.difficulty_target))
}

/// Records `nonce` for the block at `current_height` and enters the reward
/// in the tokens minted, or fails and changes nothing. Where it succeeds,
/// the reward is owed to the submitter: the caller has it minted.
pub fn reward_submission(ctx: &mut SubmitNearMiss, nonce: u32, current_height: u32) -> (rewarded:
    Result<(), SubmitError>)
    ensures
        match rewarded {
            Ok(()) => old(ctx)@.after_reward(nonce, current_height) == Ok::<
                Submission,
                SubmitError,
            >(final(ctx)@),
            Err(e) => old(ctx)@.after_reward(nonce, current_height) == Err::<
                Submission,
                SubmitError,
            >(e) && final(ctx)@ == old(ctx)@,
        },
{
    let mut near_miss = ctx.near_miss_mint;
    match near_miss.record_nonce(nonce, current_height) {
        Ok(()) => {},
        Err(e) => {
            return Err(SubmitError::Protocol(e));
        },
    }
    near_miss.total_minted = match near_miss.total_minted.checked_add(TOKEN_PER_NEAR_MISS) {
        Some(total) => total,
        None => {
            return Err(SubmitError::Protocol(ErrorCode::Overflow));
        },
    };
    ctx.near_miss_mint = near_miss;
    Ok(())
}

/// Processes a valid submission: reads the chain tip at `unix_timestamp`,
/// then records the nonce at the tip's height and enters the reward in the
/// tokens minted. Where it succeeds, the caller has the reward minted.
pub fn process_valid_submission(ctx: &mut SubmitNearMiss, nonce: u32, unix_timestamp: i64) -> (done:
    Result<(), SubmitError>)
    ensures
        match done {
            Ok(()) => old(ctx)@.after_valid_submission(nonce, unix_timestamp) == Ok::<
                Submission,
                SubmitError,
            >(final(ctx)@),
            Err(e) => old(ctx)@.after_valid_submission(nonce, unix_timestamp) == Err::<
                Submission,
                SubmitError,
            >(e) && final(ctx)@ == old(ctx)@,
        },
{
    let current_height = match get_tip_data(ctx.btc_tip_feed.as_slice(), unix_timestamp) {
        Ok(tip) => tip.height,
        Err(e) => {
            return Err(e);
        },
    };
    reward_submission(ctx, nonce, current_height)
}

/// Handles one submission from start to end. The deposit is taken first;
/// the header is judged; a near miss is recorded and rewarded and the
/// deposit returned, anything else forfeits the deposit. Whatever fails on
/// the way, the submission is then undone as a whole: an error leaves the
/// accounts as they were, deposit included.
pub fn submit_near_miss(
    ctx: &mut SubmitNearMiss,
    version: u32,
    prev_hash: [u8; 32],
    merkle_root: [u8; 32],
    timestamp: u32,
    bits: u32,
    nonce: u32,
    extra_nonce: u64,
    unix_timestamp: i64,
) -> (outcome: Result<Outcome, SubmitError>)
    ensures
        match outcome {
            Ok(o) => old(ctx)@.after_submission(
                version,
                prev_hash@,
                merkle_root@,
                bits,
                nonce,
                extra_nonce,
                unix_timestamp,
            ) == Ok::<(Outcome, Submission), SubmitError>((o, final(ctx)@)),
            Err(e) => old(ctx)@.after_submission(
                version,
                prev_hash@,
                merkle_root@,
                bits,
                nonce,
                extra_nonce,
                unix_timestamp,
            ) == Err::<(Outcome, Submission), SubmitError>(e) && final(ctx)@ == old(ctx)@,
        },
{
    let near_miss = ctx.near_miss_mint;
    let balances = ctx.balances;
    match collect_deposit(ctx) {
        Ok(()) => {},
        Err(e) => {
            return Err(e);
        },
    }
    let valid = match verify_near_miss(
        ctx,
        version,
        prev_hash,
        merkle_root,
        timestamp,
        bits,
        nonce,
        extra_nonce,
    ) {
        Ok(valid) => valid,
        Err(e) => {
            ctx.balances = balances;
            return Err(SubmitError::Protocol(e));
        },
    };
    if valid {
        match process_valid_submission(ctx, nonce, unix_timestamp) {
            Ok(()) => {},
            Err(e) => {
                ctx.balances = balances;
                return Err(e);
            },
        }
        match return_deposit(ctx) {
            Ok(()) => Ok(Outcome::Rewarded(TOKEN_PER_NEAR_MISS)),
            Err(e) => {
                ctx.near_miss_mint = near_miss;
                ctx.balances = balances;
                Err(e)
            },
        }
    } else {
        match distribute_deposit(ctx) {
            Ok(()) => {
                let (oracle_amount, treasury_amount) = distribution_shares(SUBMISSION_DEPOSIT);
                Ok(Outcome::Rejected(oracle_amount + treasury_amount))
            },
            Err(e) => {
                ctx.balances = balances;
                Err(e)
            },
        }
    }
}

/// A rewarded submission enters the reward once and costs nothing: every
/// lamport is where it was, the nonce is recorded, and the totals of
/// forfeited deposits have not moved. The tip's height is always zero, so
/// that is where the nonce is recorded.
pub proof fn lemma_rewarded_submission(
    before: Submission,
    after: Submission,
    amount: u64,
    version: u32,
    prev_hash: Seq<u8>,
    merkle_root: Seq<u8>,
    bits: u32,
    nonce: u32,
    extra_nonce: u64,
    unix_timestamp: i64,
)
    requires
        before.after_submission(
            version,
            prev_hash,
            merkle_root,
            bits,
            nonce,
            extra_nonce,
            unix_timestamp,
        ) == Ok::<(Outcome, Submission), SubmitError>((Outcome::Rewarded(amount), after)),
    ensures
        amount == TOKEN_PER_NEAR_MISS,
        before.verification(version, prev_hash, merkle_root, bits, nonce, extra_nonce) == Ok::<
            bool,
            ErrorCode,
        >(true),
        before.near_miss_mint.accepts(nonce, 0),
        after.balances == before.balances,
        after.near_miss_mint == (ProtocolState {
            total_minted: (before.near_miss_mint.total_minted + TOKEN_PER_NEAR_MISS) as u64,
            ..before.near_miss_mint.after_record(nonce, 0)
        }),
        after.btc_tip_feed == before.btc_tip_feed,
{
}

/// A rejected submission forfeits the deposit and mints nothing: the
/// submitter is a deposit poorer, a fifth of it has reached the oracle fund
/// and half of it the treasury, and three tenths stay in custody for good.
/// The two running totals grow by the two shares, and nothing else in the
/// state moves: no nonce is recorded.
pub proof fn lemma_rejected_submission(
    before: Submission,
    after: Submission,
    amount: u64,
    version: u32,
    prev_hash: Seq<u8>,
    merkle_root: Seq<u8>,
    bits: u32,
    nonce: u32,
    extra_nonce: u64,
    unix_timestamp: i64,
)
    requires
        before.after_submission(
            version,
            prev_hash,
            merkle_root,
            bits,
            nonce,
            extra_nonce,
            unix_timestamp,
        ) == Ok::<(Outcome, Submission), SubmitError>((Outcome::Rejected(amount), after)),
    ensures
        amount == 700_000,
        before.verification(version, prev_hash, merkle_root, bits, nonce, extra_nonce) == Ok::<
            bool,
            ErrorCode,
        >(false),
        after.balances == (Balances {
            mint_authority: (before.balances.mint_authority - 1_000_000) as u64,
            near_miss_mint: (before.balances.near_miss_mint + 300_000) as u64,
            oracle_maintenance: (before.balances.oracle_maintenance + 200_000) as u64,
            treasury: (before.balances.treasury + 500_000) as u64,
        }),
        after.near_miss_mint == (ProtocolState {
            oracle_balance: (before.near_miss_mint.oracle_balance + 200_000) as u64,
            treasury_balance: (before.near_miss_mint.treasury_balance + 500_000) as u64,
            ..before.near_miss_mint
        }),
        after.btc_tip_feed == before.btc_tip_feed,
{
}

/// No submission makes or loses lamports, and none leaves a deposit in
/// limbo: the custody holds what it held before, or that and the burned
/// share of one deposit.
pub proof fn lemma_submission_conserves_lamports(
    before: Submission,
    after: Submission,
    outcome: Outcome,
    version: u32,
    prev_hash: Seq<u8>,
    merkle_root: Seq<u8>,
    bits: u32,
    nonce: u32,
    extra_nonce: u64,
    unix_timestamp: i64,
)
    requires
        before.after_submission(
            version,
            prev_hash,
            merkle_root,
            bits,
            nonce,
            extra_nonce,
            unix_timestamp,
        ) == Ok::<(Outcome, Submission), SubmitError>((outcome, after)),
    ensures
        after.balances.total_lamports() == before.balances.total_lamports(),
        after.balances.near_miss_mint == before.balances.near_miss_mint
            || after.balances.near_miss_mint == before.balances.near_miss_mint + burn_share(
            SUBMISSION_DEPOSIT,
        ),
{
    match outcome {
        Outcome::Rewarded(amount) => lemma_rewarded_submission(
            before,
            after,
            amount,
            version,
            prev_hash,
            merkle_root,
            bits,
            nonce,
            extra_nonce,
            unix_timestamp,
        ),
        Outcome::Rejected(amount) => lemma_rejected_submission(
            before,
            after,
            amount,
            version,
            prev_hash,
            merkle_root,
            bits,
            nonce,
            extra_nonce,
            unix_timestamp,
        ),
    }
}

/// The counters only grow, and only as the outcome says: the tokens minted
/// by the reward of one near miss, the two totals by the shares of one
/// deposit. The difficulty target never moves.
pub proof fn lemma_submission_counters(
    before: Submission,
    after: Submission,
    outcome: Outcome,
    version: u32,
    prev_hash: Seq<u8>,
    merkle_root: Seq<u8>,
    bits: u32,
    nonce: u32,
    extra_nonce: u64,
    unix_timestamp: i64,
)
    requires
        before.after_submission(
            version,
            prev_hash,
            merkle_root,
            bits,
            nonce,
            extra_nonce,
            unix_timestamp,
        ) == Ok::<(Outcome, Submission), SubmitError>((outcome, after)),
    ensures
        after.near_miss_mint.difficulty_target == before.near_miss_mint.difficulty_target,
        after.near_miss_mint.total_minted == before.near_miss_mint.total_minted + (if outcome
            is Rewarded {
            TOKEN_PER_NEAR_MISS
        } else {
            0
        }),
        after.near_miss_mint.oracle_balance == before.near_miss_mint.oracle_balance + (if outcome
            is Rejected {
            oracle_share(SUBMISSION_DEPOSIT)
        } else {
            0
        }),
        after.near_miss_mint.treasury_balance == before.near_miss_mint.treasury_balance + (
        if outcome is Rejected {
            treasury_share(SUBMISSION_DEPOSIT)
        } else {
            0
        }),
{
}

/// A submission keeps the ledger sound.
pub proof fn lemma_submission_keeps_ledger_sound(
    before: Submission,
    after: Submission,
    outcome: Outcome,
    version: u32,
    prev_hash: Seq<u8>,
    merkle_root: Seq<u8>,
    bits: u32,
    nonce: u32,
    extra_nonce: u64,
    unix_timestamp: i64,
)
    requires
        before.near_miss_mint.wf(),
        before.after_submission(
            version,
            prev_hash,
            merkle_root,
            bits,
            nonce,
            extra_nonce,
            unix_timestamp,
        ) == Ok::<(Outcome, Submission), SubmitError>((outcome, after)),
    ensures
        after.near_miss_mint.wf(),
{
    let ledger = after.near_miss_mint.submitted_nonces;
    assert(ledger == before.near_miss_mint.submitted_nonces || ledger
        == before.near_miss_mint.after_record(nonce, 0).submitted_nonces) by {
        match outcome {
            Outcome::Rewarded(amount) => lemma_rewarded_submission(
                before,
                after,
                amount,
                version,
                prev_hash,
                merkle_root,
                bits,
                nonce,
                extra_nonce,
                unix_timestamp,
            ),
            Outcome::Rejected(amount) => lemma_rejected_submission(
                before,
                after,
                amount,
                version,
                prev_hash,
                merkle_root,
                bits,
                nonce,
                extra_nonce,
                unix_timestamp,
            ),
        }
    }
    lemma_record_preserves_wf(before.near_miss_mint, nonce, 0);
}

/// A feed that decodes but reports no successful round aborts every
/// submission of the expected version that the submitter can pay for: the
/// submission fails as a whole, whatever the header hashes to, and so
/// leaves every balance and the whole state as they were.
pub proof fn lemma_untrusted_feed_aborts(
    before: Submission,
    version: u32,
    prev_hash: Seq<u8>,
    merkle_root: Seq<u8>,
    bits: u32,
    nonce: u32,
    extra_nonce: u64,
    unix_timestamp: i64,
)
    requires
        version == EXPECTED_BITCOIN_VERSION,
        before.balances.wf(),
        before.balances.mint_authority >= SUBMISSION_DEPOSIT,
        match spec_read_feed(before.btc_tip_feed) {
            Ok(reading) => reading.success_count == 0,
            Err(_) => false,
        },
    ensures
        before.after_submission(
            version,
            prev_hash,
            merkle_root,
            bits,
            nonce,
            extra_nonce,
            unix_timestamp,
        ) == Err::<(Outcome, Submission), SubmitError>(
            SubmitError::Protocol(ErrorCode::InvalidOracleValue),
        ),
{
}

/// A second submission of a nonce that was rewarded is never rewarded
/// again: the tokens minted grow by one reward, not by two.
pub proof fn lemma_no_second_reward(
    before: Submission,
    after: Submission,
    first: (u32, Seq<u8>, Seq<u8>, u32, u64, i64),
    second: (u32, Seq<u8>, Seq<u8>, u32, u64, i64),
    nonce: u32,
)
    requires
        before.after_submission(first.0, first.1, first.2, first.3, nonce, first.4, first.5)
            == Ok::<(Outcome, Submission), SubmitError>(
            (Outcome::Rewarded(TOKEN_PER_NEAR_MISS), after),
        ),
    ensures
        match after.after_submission(
            second.0,
            second.1,
            second.2,
            second.3,
            nonce,
            second.4,
            second.5,
        ) {
            Ok((outcome, _)) => outcome is Rejected,
            Err(_) => true,
        },
        after.verification(second.0, second.1, second.2, second.3, nonce, second.4) == Ok::<
            bool,
            ErrorCode,
        >(true) && after.after_collect() is Ok ==> after.after_submission(
            second.0,
            second.1,
            second.2,
            second.3,
            nonce,
            second.4,
            second.5,
        ) is Err,
{
    lemma_rewarded_submission(
        before,
        after,
        TOKEN_PER_NEAR_MISS,
        first.0,
        first.1,
        first.2,
        first.3,
        nonce,
        first.4,
        first.5,
    );
    lemma_second_attempt_is_refused(before.near_miss_mint, nonce, 0);
}

/// A submission that is no near miss, from a submitter who holds the
/// deposit, is rejected and settled whenever the two running totals have
/// room for their shares: the submitter pays the deposit, the oracle fund
/// and the treasury take 200,000 and 500,000 lamports of it, the other
/// 300,000 stay in custody, and nothing is minted.
pub proof fn lemma_invalid_submission_is_settled(
    before: Submission,
    version: u32,
    prev_hash: Seq<u8>,
    merkle_root: Seq<u8>,
    bits: u32,
    nonce: u32,
    extra_nonce: u64,
    unix_timestamp: i64,
)
    requires
        before.balances.wf(),
        before.balances.mint_authority >= SUBMISSION_DEPOSIT,
        before.verification(version, prev_hash, merkle_root, bits, nonce, extra_nonce) == Ok::<
            bool,
            ErrorCode,
        >(false),
        before.near_miss_mint.oracle_balance + 200_000 <= u64::MAX,
        before.near_miss_mint.treasury_balance + 500_000 <= u64::MAX,
    ensures
        before.after_submission(
            version,
            prev_hash,
            merkle_root,
            bits,
            nonce,
            extra_nonce,
            unix_timestamp,
        ) == Ok::<(Outcome, Submission), SubmitError>(
            (
                Outcome::Rejected(700_000),
                Submission {
                    near_miss_mint: ProtocolState {
                        oracle_balance: (before.near_miss_mint.oracle_balance + 200_000) as u64,
                        treasury_balance: (before.near_miss_mint.treasury_balance
                            + 500_000) as u64,
                        ..before.near_miss_mint
                    },
                    balances: Balances {
                        mint_authority: (before.balances.mint_authority - 1_000_000) as u64,
                        near_miss_mint: (before.balances.near_miss_mint + 300_000) as u64,
                        oracle_maintenance: (before.balances.oracle_maintenance + 200_000) as u64,
                        treasury: (before.balances.treasury + 500_000) as u64,
                    },
                    ..before
                },
            ),
        ),
{
}

/// A nonce that the ledger for `height` does not hold is rewarded there if
/// a slot is free and the tokens minted have room for the reward: it takes
/// the first free slot, every other slot keeps what it held, and the tokens
/// minted grow by one reward. At a height other than the stored one the
/// ledger met is empty, so the nonce, if it is not zero, is then the
/// ledger's only entry, whatever the ledger held before.
pub proof fn lemma_fresh_nonce_is_rewarded(before: Submission, nonce: u32, height: u32)
    requires
        nonce != 0,
        !before.near_miss_mint.ledger_at(height).contains(nonce),
        before.near_miss_mint.ledger_at(height).contains(0),
        before.near_miss_mint.submitted_nonces.len() == NONCE_SLOTS,
        before.near_miss_mint.total_minted + TOKEN_PER_NEAR_MISS <= u64::MAX,
    ensures
        ({
            let ledger = before.near_miss_mint.ledger_at(height);
            let slot = first_free_slot(ledger);
            &&& 0 <= slot < NONCE_SLOTS
            &&& ledger[slot] == 0
            &&& forall|i: int| 0 <= i < slot ==> ledger[i] != 0
            &&& before.near_miss_mint.last_reference_height != height ==> slot == 0 && ledger
                == empty_ledger()
            &&& before.after_reward(nonce, height) == Ok::<Submission, SubmitError>(
                Submission {
                    near_miss_mint: ProtocolState {
                        total_minted: (before.near_miss_mint.total_minted
                            + TOKEN_PER_NEAR_MISS) as u64,
                        last_reference_height: height,
                        submitted_nonces: ledger.update(slot, nonce),
                        ..before.near_miss_mint
                    },
                    ..before
                },
            )
        }),
{
    let ledger = before.near_miss_mint.ledger_at(height);
    lemma_first_free_slot(ledger);
    if before.near_miss_mint.last_reference_height != height {
        assert(ledger[0] == 0);
    }
}

/// At a height other than the stored one the ledger is emptied before
/// anything is recorded: any nonce but zero is rewarded there if the tokens
/// minted have room, whatever the ledger held, and is then its only entry.
pub proof fn lemma_nonce_is_rewarded_at_new_height(before: Submission, nonce: u32, height: u32)
    requires
        before.near_miss_mint.last_reference_height != height,
        nonce != 0,
        before.near_miss_mint.total_minted + TOKEN_PER_NEAR_MISS <= u64::MAX,
    ensures
        before.after_reward(nonce, height) == Ok::<Submission, SubmitError>(
            Submission {
                near_miss_mint: ProtocolState {
                    total_minted: (before.near_miss_mint.total_minted
                        + TOKEN_PER_NEAR_MISS) as u64,
                    last_reference_height: height,
                    submitted_nonces: empty_ledger().update(0, nonce),
                    ..before.near_miss_mint
                },
                ..before
            },
        ),
{
    lemma_new_height_clears_ledger(before.near_miss_mint, nonce, height);
}

/// A valid submission is processed at the height of the tip that the feed
/// gives: where the feed gives one, processing is rewarding at that height.
pub proof fn lemma_valid_submission_is_rewarded_at_tip(
    before: Submission,
    nonce: u32,
    unix_timestamp: i64,
    tip: BlockTipView,
)
    requires
        spec_tip_data(before.btc_tip_feed, unix_timestamp) == Ok::<BlockTipView, SubmitError>(tip),
    ensures
        before.after_valid_submission(nonce, unix_timestamp) == before.after_reward(
            nonce,
            tip.height,
        ),
{
}

/// A near miss is rewarded and costs nothing whenever the submitter holds
/// the deposit, the feed gives a tip, the ledger for the tip's height has
/// a free slot and not the nonce, and the tokens minted have room: the
/// outcome is the reward, every lamport is back where it was, and the
/// state is that of the rewarded nonce. So a nonce used at another height
/// may be used again at the tip's.
pub proof fn lemma_near_miss_is_rewarded(
    before: Submission,
    version: u32,
    prev_hash: Seq<u8>,
    merkle_root: Seq<u8>,
    bits: u32,
    nonce: u32,
    extra_nonce: u64,
    unix_timestamp: i64,
    tip: BlockTipView,
)
    requires
        before.balances.wf(),
        before.balances.mint_authority >= SUBMISSION_DEPOSIT,
        before.verification(version, prev_hash, merkle_root, bits, nonce, extra_nonce) == Ok::<
            bool,
            ErrorCode,
        >(true),
        spec_tip_data(before.btc_tip_feed, unix_timestamp) == Ok::<BlockTipView, SubmitError>(tip),
        nonce != 0,
        !before.near_miss_mint.ledger_at(tip.height).contains(nonce),
        before.near_miss_mint.ledger_at(tip.height).contains(0),
        before.near_miss_mint.submitted_nonces.len() == NONCE_SLOTS,
        before.near_miss_mint.total_minted + TOKEN_PER_NEAR_MISS <= u64::MAX,
    ensures
        before.after_submission(
            version,
            prev_hash,
            merkle_root,
            bits,
            nonce,
            extra_nonce,
            unix_timestamp,
        ) == Ok::<(Outcome, Submission), SubmitError>(
            (
                Outcome::Rewarded(TOKEN_PER_NEAR_MISS),
                Submission {
                    near_miss_mint: ProtocolState {
                        total_minted: (before.near_miss_mint.total_minted
                            + TOKEN_PER_NEAR_MISS) as u64,
                        last_reference_height: tip.height,
                        submitted_nonces: before.near_miss_mint.ledger_at(tip.height).update(
                            first_free_slot(before.near_miss_mint.ledger_at(tip.height)),
                            nonce,
                        ),
                        ..before.near_miss_mint
                    },
                    ..before
                },
            ),
        ),
{
    lemma_fresh_nonce_is_rewarded(before.after_collect().unwrap(), nonce, tip.height);
}

/// How many of `count` distinct nonces a ledger that was empty has taken.
pub open spec fn taken(count: int) -> int {
    if count < NONCE_SLOTS {
        count
    } else {
        NONCE_SLOTS as int
    }
}

/// Of distinct nonces, none of them zero, submitted at a height at which
/// the ledger was empty, sixteen are rewarded and no more. After `k` of
/// them the ledger holds the first sixteen in order, and the tokens minted
/// have grown by one reward for each nonce taken: by sixteen rewards after
/// seventeen submissions. The next nonce is rewarded if it is among the
/// first sixteen, and is refused as a duplicate if it is not.
pub proof fn lemma_sixteen_rewards_at_a_height(
    before: Submission,
    nonces: Seq<u32>,
    height: u32,
    k: int,
)
    requires
        before.near_miss_mint.ledger_at(height) == empty_ledger(),
        0 <= k <= nonces.len(),
        forall|i: int| 0 <= i < nonces.len() ==> nonces[i] != 0,
        forall|i: int, j: int| 0 <= i < j < nonces.len() ==> nonces[i] != nonces[j],
        before.near_miss_mint.total_minted + TOKEN_PER_NEAR_MISS * taken(k) <= u64::MAX,
    ensures
        ({
            let after = before.after_rewards(nonces.take(k), height);
            &&& after.near_miss_mint.ledger_at(height) == filled_ledger(nonces, k)
            &&& after.near_miss_mint.total_minted == before.near_miss_mint.total_minted
                + TOKEN_PER_NEAR_MISS * taken(k)
            &&& after.balances == before.balances
            &&& k < nonces.len() && k >= NONCE_SLOTS ==> after.after_reward(nonces[k], height)
                == Err::<Submission, SubmitError>(
                SubmitError::Protocol(ErrorCode::DuplicateSubmission),
            )
            &&& k < nonces.len() && k < NONCE_SLOTS && after.near_miss_mint.total_minted
                + TOKEN_PER_NEAR_MISS <= u64::MAX ==> after.after_reward(nonces[k], height) is Ok
        }),
    decreases k,
{
    let after = before.after_rewards(nonces.take(k), height);
    if k == 0 {
        assert(empty_ledger() =~= filled_ledger(nonces, 0));
    } else {
        assert(nonces.take(k).drop_last() =~= nonces.take(k - 1));
        assert(nonces.take(k).last() == nonces[k - 1]);
        lemma_sixteen_rewards_at_a_height(before, nonces, height, k - 1);
        let earlier = before.after_rewards(nonces.take(k - 1), height);
        let ledger = earlier.near_miss_mint.ledger_at(height);
        lemma_first_free_slot(ledger);
        if k - 1 < NONCE_SLOTS {
            assert(ledger[k - 1] == 0);
            assert(earlier.near_miss_mint.accepts(nonces[k - 1], height));
            assert(earlier.after_reward(nonces[k - 1], height) is Ok);
            assert(ledger.update(k - 1, nonces[k - 1]) =~= filled_ledger(nonces, k));
        } else {
            assert(earlier.after_reward(nonces[k - 1], height) is Err);
            assert(after == earlier);
            assert(filled_ledger(nonces, k - 1) =~= filled_ledger(nonces, k));
        }
    }
    if k < nonces.len() {
        let ledger = filled_ledger(nonces, k);
        if k < NONCE_SLOTS {
            assert(ledger[k] == 0);
            assert(!ledger.contains(nonces[k]));
        } else {
            assert(!ledger.contains(0));
        }
    }
}

/// A near miss at a tip whose height is not the stored one is rewarded
/// whatever the ledger held, so also with a nonce that was used at the
/// stored height: the submitter needs the deposit, the nonce must not be
/// zero, and the tokens minted need room. The nonce is then the ledger's
/// only entry, the height is the tip's, and the deposit is back.
pub proof fn lemma_near_miss_at_new_height_is_rewarded(
    before: Submission,
    version: u32,
    prev_hash: Seq<u8>,
    merkle_root: Seq<u8>,
    bits: u32,
    nonce: u32,
    extra_nonce: u64,
    unix_timestamp: i64,
    tip: BlockTipView,
)
    requires
        before.balances.wf(),
        before.balances.mint_authority >= SUBMISSION_DEPOSIT,
        before.verification(version, prev_hash, merkle_root, bits, nonce, extra_nonce) == Ok::<
            bool,
            ErrorCode,
        >(true),
        spec_tip_data(before.btc_tip_feed, unix_timestamp) == Ok::<BlockTipView, SubmitError>(tip),
        before.near_miss_mint.last_reference_height != tip.height,
        nonce != 0,
        before.near_miss_mint.total_minted + TOKEN_PER_NEAR_MISS <= u64::MAX,
    ensures
        before.after_submission(
            version,
            prev_hash,
            merkle_root,
            bits,
            nonce,
            extra_nonce,
            unix_timestamp,
        ) == Ok::<(Outcome, Submission), SubmitError>(
            (
                Outcome::Rewarded(TOKEN_PER_NEAR_MISS),
                Submission {
                    near_miss_mint: ProtocolState {
                        total_minted: (before.near_miss_mint.total_minted
                            + TOKEN_PER_NEAR_MISS) as u64,
                        last_reference_height: tip.height,
                        submitted_nonces: empty_ledger().update(0, nonce),
                        ..before.near_miss_mint
                    },
                    ..before
                },
            ),
        ),
{
    lemma_nonce_is_rewarded_at_new_height(before.after_collect().unwrap(), nonce, tip.height);
}

} // verus!
