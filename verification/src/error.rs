//! The ways in which a call into the protocol can fail.

use vstd::prelude::*;

verus! {

/// The protocol's own error kinds.
#[derive(Clone, Copy, Debug, PartialEq, Eq, Structural)]
pub enum ErrorCode {
    /// A counter would have grown past its range.
    Overflow,
    /// The nonce is already recorded for the current block, or no slot is
    /// left to record it in.
    DuplicateSubmission,
    /// Reserved: a failed difficulty check is reported as a rejected
    /// submission, not as this error.
    InvalidNearMiss,
    /// Reserved: nothing raises it.
    StaleSubmission,
    /// The oracle feed cannot be decoded, or has no successful round.
    InvalidOracleValue,
    /// Reserved: nothing raises it.
    StaleFeed,
}

impl ErrorCode {
    /// The number under which the host reports this error: the variant's
    /// position in the declaration.
    pub open spec fn spec_code(self) -> u32 {
        match self {
            ErrorCode::Overflow => 0,
            ErrorCode::DuplicateSubmission => 1,
            ErrorCode::InvalidNearMiss => 2,
            ErrorCode::StaleSubmission => 3,
            ErrorCode::InvalidOracleValue => 4,
            ErrorCode::StaleFeed => 5,
        }
    }

    /// What this error says to the submitter.
    pub open spec fn spec_message(self) -> &'static str {
        match self {
            ErrorCode::Overflow => "Arithmetic overflow occurred.",
            ErrorCode::DuplicateSubmission => "Duplicate nonce submission within the current block.",
            ErrorCode::InvalidNearMiss => "Submission did not meet near-miss criteria.",
            ErrorCode::StaleSubmission => "Submission is stale compared to Bitcoin block data.",
            ErrorCode::InvalidOracleValue => "Oracle feed provided an invalid value.",
            ErrorCode::StaleFeed => "Switchboard feed data is stale.",
        }
    }

    /// What this error says to the submitter.
    #[verifier::when_used_as_spec(spec_message)]
    pub fn message(self) -> (message: &'static str)
        ensures
            message == self.spec_message(),
    {
        match self {
            ErrorCode::Overflow => "Arithmetic overflow occurred.",
            ErrorCode::DuplicateSubmission => "Duplicate nonce submission within the current block.",
            ErrorCode::InvalidNearMiss => "Submission did not meet near-miss criteria.",
            ErrorCode::StaleSubmission => "Submission is stale compared to Bitcoin block data.",
            ErrorCode::InvalidOracleValue => "Oracle feed provided an invalid value.",
            ErrorCode::StaleFeed => "Switchboard feed data is stale.",
        }
    }

    /// The number under which the host reports this error.
    #[verifier::when_used_as_spec(spec_code)]
    pub fn code(self) -> (code: u32)
        ensures
            code == self.spec_code(),
    {
        match self {
            ErrorCode::Overflow => 0,
            ErrorCode::DuplicateSubmission => 1,
            ErrorCode::InvalidNearMiss => 2,
            ErrorCode::StaleSubmission => 3,
            ErrorCode::InvalidOracleValue => 4,
            ErrorCode::StaleFeed => 5,
        }
    }
}

/// Why a submission was aborted. An aborted submission changes nothing.
#[derive(Clone, Copy, Debug, PartialEq, Eq, Structural)]
pub enum SubmitError {
    /// One of the protocol's own error kinds.
    Protocol(ErrorCode),
    /// The submitter holds less than the deposit.
    InsufficientFunds,
    /// An account would have held more than a balance can express. This
    /// does not happen between the accounts of one ledger, whose lamports
    /// are together an amount that a balance can express.
    BalanceOverflow,
    /// The feed's confirmed round has fewer successful responses than the
    /// feed itself asks for.
    InvalidAggregatorRound,
}

/// Why the protocol state could not be set up.
#[derive(Clone, Copy, Debug, PartialEq, Eq, Structural)]
pub enum InitializeError {
    /// The state exists already: it is set up once.
    AlreadyInitialized,
}

} // verus!
