//! Amounts: the deposit that backs a submission, the reward for a near
//! miss, and how a forfeited deposit is shared out.

use crate::accounts::{Account, Balances, Submission, SubmitNearMiss};
use crate::error::{ErrorCode, SubmitError};
use crate::state::ProtocolState;
use vstd::prelude::*;

verus! {

/// Lamports in one SOL.
pub const LAMPORTS_PER_SOL: u64 = 1_000_000_000;

/// Tokens minted for each accepted near miss.
pub const TOKEN_PER_NEAR_MISS: u64 = 100;

/// Deposit taken with each submission: 0.001 SOL.
pub const SUBMISSION_DEPOSIT: u64 = LAMPORTS_PER_SOL / 1000;

/// Percentage of a forfeited deposit that funds oracle maintenance.
pub const ORACLE_MAINTENANCE_PERCENTAGE: u8 = 20;

/// Percentage of a forfeited deposit that is burned: it stays in the
/// protocol's custody for good.
pub const BURN_PERCENTAGE: u8 = 30;

/// Percentage of a forfeited deposit that goes to the treasury.
pub const TREASURY_PERCENTAGE: u8 = 50;

/// The part of `amount` that goes to oracle maintenance, rounded down.
pub open spec fn oracle_share(amount: u64) -> u64 {
    (amount * ORACLE_MAINTENANCE_PERCENTAGE / 100) as u64
}

/// The part of `amount` that goes to the treasury, rounded down.
pub open spec fn treasury_share(amount: u64) -> u64 {
    (amount * TREASURY_PERCENTAGE / 100) as u64
}

/// The part of `amount` that is burned: what the two shares leave.
pub open spec fn burn_share(amount: u64) -> u64 {
    (amount - oracle_share(amount) - treasury_share(amount)) as u64
}

/// Splits a forfeited amount into the oracle's share and the treasury's.
/// The products are formed in 128 bits, so no amount is too large.
pub fn distribution_shares(amount: u64) -> (shares: (u64, u64))
    ensures
        shares.0 == oracle_share(amount),
        shares.1 == treasury_share(amount),
        shares.0 + shares.1 <= amount,
{
    let wide = amount as u128;
    let oracle_percentage = ORACLE_MAINTENANCE_PERCENTAGE as u128;
    let treasury_percentage = TREASURY_PERCENTAGE as u128;
    assert(wide * oracle_percentage == wide * 20 && wide * treasury_percentage == wide * 50)
        by (nonlinear_arith)
        requires
            oracle_percentage == 20,
            treasury_percentage == 50,
    ;
    let oracle_amount = (wide * oracle_percentage / 100) as u64;
    let treasury_amount = (wide * treasury_percentage / 100) as u64;
    (oracle_amount, treasury_amount)
}

/// The shares never exceed the amount they are taken from: a fifth of it,
/// rounded down, to the oracle, half of it, rounded down, to the treasury,
/// and the rest burned. What is burned is three tenths of the amount,
/// rounded down, and at most two units more: exactly three tenths where the
/// amount is a multiple of ten.
pub proof fn lemma_shares(amount: u64)
    ensures
        oracle_share(amount) == amount / 5,
        treasury_share(amount) == amount / 2,
        oracle_share(amount) + treasury_share(amount) <= amount,
        oracle_share(amount) + treasury_share(amount) + burn_share(amount) == amount,
        amount * BURN_PERCENTAGE / 100 <= burn_share(amount) <= amount * BURN_PERCENTAGE / 100
            + 2,
        amount % 10 == 0 ==> burn_share(amount) == amount * 3 / 10,
{
}

/// The shares of the deposit itself.
pub proof fn lemma_deposit_shares()
    ensures
        SUBMISSION_DEPOSIT == 1_000_000,
        oracle_share(SUBMISSION_DEPOSIT) == 200_000,
        treasury_share(SUBMISSION_DEPOSIT) == 500_000,
        burn_share(SUBMISSION_DEPOSIT) == 300_000,
        ORACLE_MAINTENANCE_PERCENTAGE + BURN_PERCENTAGE + TREASURY_PERCENTAGE == 100,
{
}

impl Submission {
    /// The accounts once the deposit has moved from the submitter into the
    /// protocol's custody.
    pub open spec fn after_collect(self) -> Result<Submission, SubmitError> {
        match self.balances.after_transfer(
            Account::MintAuthority,
            Account::NearMissMint,
            SUBMISSION_DEPOSIT,
        ) {
            Ok(balances) => Ok(Submission { balances, ..self }),
            Err(e) => Err(e),
        }
    }

    /// The accounts once the whole deposit has moved back to the submitter.
    pub open spec fn after_refund(self) -> Result<Submission, SubmitError> {
        match self.balances.after_transfer(
            Account::NearMissMint,
            Account::MintAuthority,
            SUBMISSION_DEPOSIT,
        ) {
            Ok(balances) => Ok(Submission { balances, ..self }),
            Err(e) => Err(e),
        }
    }

    /// The accounts once a forfeited deposit has been shared out.
    pub open spec fn after_distribution(self) -> Result<Submission, SubmitError> {
        self.after_distribution_of(SUBMISSION_DEPOSIT)
    }

    /// The accounts once a forfeited `amount` has been shared out: the
    /// oracle's share and the treasury's have left the custody, each is
    /// added to its running total, and the rest stays where it is.
    pub open spec fn after_distribution_of(self, amount: u64) -> Result<Submission, SubmitError> {
        let oracle_amount = oracle_share(amount);
        let treasury_amount = treasury_share(amount);
        match self.balances.after_transfer(
            Account::NearMissMint,
            Account::OracleMaintenance,
            oracle_amount,
        ) {
            Err(e) => Err(e),
            Ok(paid) => match paid.after_transfer(
                Account::NearMissMint,
                Account::Treasury,
                treasury_amount,
            ) {
                Err(e) => Err(e),
                Ok(balances) => if self.near_miss_mint.oracle_balance + oracle_amount > u64::MAX
                    || self.near_miss_mint.treasury_balance + treasury_amount > u64::MAX {
                    Err(SubmitError::Protocol(ErrorCode::Overflow))
                } else {
                    Ok(
                        Submission {
                            balances,
                            near_miss_mint: ProtocolState {
                                oracle_balance: (self.near_miss_mint.oracle_balance
                                    + oracle_amount) as u64,
                                treasury_balance: (self.near_miss_mint.treasury_balance
                                    + treasury_amount) as u64,
                                ..self.near_miss_mint
                            },
                            ..self
                        },
                    )
                },
            },
        }
    }
}

/// Takes the deposit from the submitter into the protocol's custody.
pub fn collect_deposit(ctx: &mut SubmitNearMiss) -> (collected: Result<(), SubmitError>)
    ensures
        match collected {
            Ok(()) => old(ctx)@.after_collect() == Ok::<Submission, SubmitError>(final(ctx)@),
            Err(e) => old(ctx)@.after_collect() == Err::<Submission, SubmitError>(e) && final(ctx)@ == old(ctx)@,
        },
{
    ctx.balances.transfer(Account::MintAuthority, Account::NearMissMint, SUBMISSION_DEPOSIT)
}

/// Returns the whole deposit to the submitter.
pub fn return_deposit(ctx: &mut SubmitNearMiss) -> (returned: Result<(), SubmitError>)
    ensures
        match returned {
            Ok(()) => old(ctx)@.after_refund() == Ok::<Submission, SubmitError>(final(ctx)@),
            Err(e) => old(ctx)@.after_refund() == Err::<Submission, SubmitError>(e) && final(ctx)@ == old(ctx)@,
        },
{
    ctx.balances.transfer(Account::NearMissMint, Account::MintAuthority, SUBMISSION_DEPOSIT)
}

/// Shares out a forfeited deposit: see [`distribute`].
pub fn distribute_deposit(ctx: &mut SubmitNearMiss) -> (distributed: Result<(), SubmitError>)
    ensures
        match distributed {
            Ok(()) => old(ctx)@.after_distribution() == Ok::<Submission, SubmitError>(final(ctx)@),
            Err(e) => old(ctx)@.after_distribution() == Err::<Submission, SubmitError>(e)
                && final(ctx)@ == old(ctx)@,
        },
{
    distribute(ctx, SUBMISSION_DEPOSIT)
}

/// Shares out a forfeited `amount` that lies in custody: a fifth to oracle
/// maintenance, half to the treasury, each rounded down. What is left is
/// burned by leaving it in custody. Either all of this happens or nothing.
pub fn distribute(ctx: &mut SubmitNearMiss, amount: u64) -> (distributed: Result<(), SubmitError>)
    ensures
        match distributed {
            Ok(()) => old(ctx)@.after_distribution_of(amount) == Ok::<Submission, SubmitError>(
                final(ctx)@,
            ),
            Err(e) => old(ctx)@.after_distribution_of(amount) == Err::<Submission, SubmitError>(e)
                && final(ctx)@ == old(ctx)@,
        },
{
    let (oracle_amount, treasury_amount) = distribution_shares(amount);
    let mut balances = ctx.balances;
    match balances.transfer(Account::NearMissMint, Account::OracleMaintenance, oracle_amount) {
        Ok(()) => {},
        Err(e) => {
            return Err(e);
        },
    }
    match balances.transfer(Account::NearMissMint, Account::Treasury, treasury_amount) {
        Ok(()) => {},
        Err(e) => {
            return Err(e);
        },
    }
    let oracle_balance = match ctx.near_miss_mint.oracle_balance.checked_add(oracle_amount) {
        Some(total) => total,
        None => {
            return Err(SubmitError::Protocol(ErrorCode::Overflow));
        },
    };
    let treasury_balance = match ctx.near_miss_mint.treasury_balance.checked_add(treasury_amount) {
        Some(total) => total,
        None => {
            return Err(SubmitError::Protocol(ErrorCode::Overflow));
        },
    };
    ctx.balances = balances;
    ctx.near_miss_mint.oracle_balance = oracle_balance;
    ctx.near_miss_mint.treasury_balance = treasury_balance;
    Ok(())
}

/// A forfeited amount that lies in custody is shared out whenever the two
/// running totals have room for their shares: the oracle fund and the
/// treasury, and their totals, grow by a fifth and by half of the amount,
/// each rounded down; the custody loses the two shares and keeps the rest
/// of the amount for good; no lamport is made or lost, and nothing else in
/// the state moves.
pub proof fn lemma_distribution(before: Submission, amount: u64)
    requires
        before.balances.wf(),
        before.balances.near_miss_mint >= amount,
        before.near_miss_mint.oracle_balance + oracle_share(amount) <= u64::MAX,
        before.near_miss_mint.treasury_balance + treasury_share(amount) <= u64::MAX,
    ensures
        before.after_distribution_of(amount) == Ok::<Submission, SubmitError>(
            Submission {
                near_miss_mint: ProtocolState {
                    oracle_balance: (before.near_miss_mint.oracle_balance + oracle_share(
                        amount,
                    )) as u64,
                    treasury_balance: (before.near_miss_mint.treasury_balance + treasury_share(
                        amount,
                    )) as u64,
                    ..before.near_miss_mint
                },
                balances: Balances {
                    near_miss_mint: (before.balances.near_miss_mint - oracle_share(amount)
                        - treasury_share(amount)) as u64,
                    oracle_maintenance: (before.balances.oracle_maintenance + oracle_share(
                        amount,
                    )) as u64,
                    treasury: (before.balances.treasury + treasury_share(amount)) as u64,
                    ..before.balances
                },
                ..before
            },
        ),
        before.after_distribution_of(amount).unwrap().balances.total_lamports()
            == before.balances.total_lamports(),
        before.after_distribution_of(amount).unwrap().balances.near_miss_mint
            == before.balances.near_miss_mint - amount + burn_share(amount),
{
    lemma_shares(amount);
}

} // verus!
