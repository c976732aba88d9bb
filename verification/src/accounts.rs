//! The accounts that a call works on, as plain values: the protocol state,
//! the balances that value moves between, and the oracle feed.

use crate::error::SubmitError;
use crate::state::{NearMissMint, ProtocolState};
use vstd::prelude::*;

verus! {

/// An account that holds lamports.
#[derive(Clone, Copy, Debug, PartialEq, Eq, Structural)]
pub enum Account {
    /// The submitter, who pays the deposit.
    MintAuthority,
    /// The protocol's custody: the state account.
    NearMissMint,
    /// The fund for oracle maintenance.
    OracleMaintenance,
    /// The protocol's treasury.
    Treasury,
}

/// The lamports in the four accounts between which a submission moves
/// value.
#[derive(Clone, Copy, Debug, PartialEq, Eq, Structural)]
pub struct Balances {
    pub mint_authority: u64,
    pub near_miss_mint: u64,
    pub oracle_maintenance: u64,
    pub treasury: u64,
}

impl Balances {
    /// The lamports that `account` holds.
    pub open spec fn spec_balance_of(self, account: Account) -> u64 {
        match account {
            Account::MintAuthority => self.mint_authority,
            Account::NearMissMint => self.near_miss_mint,
            Account::OracleMaintenance => self.oracle_maintenance,
            Account::Treasury => self.treasury,
        }
    }

    /// These balances with `account` holding `lamports`.
    pub open spec fn with_balance(self, account: Account, lamports: u64) -> Balances {
        match account {
            Account::MintAuthority => Balances { mint_authority: lamports, ..self },
            Account::NearMissMint => Balances { near_miss_mint: lamports, ..self },
            Account::OracleMaintenance => Balances { oracle_maintenance: lamports, ..self },
            Account::Treasury => Balances { treasury: lamports, ..self },
        }
    }

    /// All lamports in the four accounts.
    pub open spec fn total_lamports(self) -> int {
        self.mint_authority + self.near_miss_mint + self.oracle_maintenance + self.treasury
    }

    /// The balances are those of a ledger: all its lamports together are an
    /// amount that a balance can express. Between such accounts no transfer
    /// overflows.
    pub open spec fn wf(self) -> bool {
        self.total_lamports() <= u64::MAX
    }

    /// The balances after `amount` lamports moved from one account to
    /// another. The move fails if the source holds less than `amount`, and
    /// if the target would hold more than a balance can express.
    pub open spec fn after_transfer(self, from: Account, to: Account, amount: u64) -> Result<
        Balances,
        SubmitError,
    > {
        if self.spec_balance_of(from) < amount {
            Err(SubmitError::InsufficientFunds)
        } else {
            let debited = self.with_balance(from, (self.spec_balance_of(from) - amount) as u64);
            if debited.spec_balance_of(to) + amount > u64::MAX {
                Err(SubmitError::BalanceOverflow)
            } else {
                Ok(debited.with_balance(to, (debited.spec_balance_of(to) + amount) as u64))
            }
        }
    }

    /// The lamports that `account` holds.
    #[verifier::when_used_as_spec(spec_balance_of)]
    pub fn balance_of(self, account: Account) -> (lamports: u64)
        ensures
            lamports == self.spec_balance_of(account),
    {
        match account {
            Account::MintAuthority => self.mint_authority,
            Account::NearMissMint => self.near_miss_mint,
            Account::OracleMaintenance => self.oracle_maintenance,
            Account::Treasury => self.treasury,
        }
    }

    fn set_balance(&mut self, account: Account, lamports: u64)
        ensures
            *final(self) == old(self).with_balance(account, lamports),
    {
        match account {
            Account::MintAuthority => {
                self.mint_authority = lamports;
            },
            Account::NearMissMint => {
                self.near_miss_mint = lamports;
            },
            Account::OracleMaintenance => {
                self.oracle_maintenance = lamports;
            },
            Account::Treasury => {
                self.treasury = lamports;
            },
        }
    }

    /// Moves `amount` lamports from one account to another, or fails and
    /// moves nothing.
    pub fn transfer(&mut self, from: Account, to: Account, amount: u64) -> (moved: Result<
        (),
        SubmitError,
    >)
        ensures
            match moved {
                Ok(()) => old(self).after_transfer(from, to, amount) == Ok::<Balances, SubmitError>(
                    *final(self),
                ),
                Err(e) => old(self).after_transfer(from, to, amount) == Err::<
                    Balances,
                    SubmitError,
                >(e) && *final(self) == *old(self),
            },
    {
        let available = self.balance_of(from);
        if available < amount {
            return Err(SubmitError::InsufficientFunds);
        }
        let mut moved = *self;
        moved.set_balance(from, available - amount);
        match moved.balance_of(to).checked_add(amount) {
            None => Err(SubmitError::BalanceOverflow),
            Some(credited) => {
                moved.set_balance(to, credited);
                *self = moved;
                Ok(())
            },
        }
    }
}

/// A transfer neither makes nor loses lamports.
pub proof fn lemma_transfer_conserves(balances: Balances, from: Account, to: Account, amount: u64)
    requires
        balances.after_transfer(from, to, amount) is Ok,
    ensures
        balances.after_transfer(from, to, amount).unwrap().total_lamports()
            == balances.total_lamports(),
{
}

/// Between the accounts of a ledger a transfer succeeds exactly when its
/// source holds the amount: the target always has room.
pub proof fn lemma_transfer_succeeds(balances: Balances, from: Account, to: Account, amount: u64)
    requires
        balances.wf(),
    ensures
        balances.after_transfer(from, to, amount) is Ok <==> balances.spec_balance_of(from)
            >= amount,
        balances.after_transfer(from, to, amount) is Err ==> balances.after_transfer(
            from,
            to,
            amount,
        ) == Err::<Balances, SubmitError>(SubmitError::InsufficientFunds),
        balances.after_transfer(from, to, amount) is Ok ==> balances.after_transfer(
            from,
            to,
            amount,
        ).unwrap().wf(),
{
}

/// The accounts of a submission.
#[derive(Debug, PartialEq, Eq)]
pub struct SubmitNearMiss {
    /// The protocol state.
    pub near_miss_mint: NearMissMint,
    /// What the accounts hold.
    pub balances: Balances,
    /// The data of the feed account that reports the chain tip.
    pub btc_tip_feed: Vec<u8>,
}

/// The accounts of a submission as a mathematical value.
pub struct Submission {
    pub near_miss_mint: ProtocolState,
    pub balances: Balances,
    pub btc_tip_feed: Seq<u8>,
}

impl View for SubmitNearMiss {
    type V = Submission;

    open spec fn view(&self) -> Submission {
        Submission {
            near_miss_mint: self.near_miss_mint@,
            balances: self.balances,
            btc_tip_feed: self.btc_tip_feed@,
        }
    }
}

} // verus!
