//! Verification and settlement rules of a proof-of-wasted-work protocol:
//! miners hand in block headers whose double SHA-256 digest narrowly misses
//! a difficulty target, and are rewarded for each distinct near miss.

pub mod accounts;
pub mod difficulty;
pub mod error;
pub mod header;
pub mod oracle;
pub mod settlement;
pub mod setup;
pub mod state;
pub mod submission;

pub use accounts::{Account, Balances, SubmitNearMiss};
pub use difficulty::EXPECTED_BITCOIN_VERSION;
pub use error::{ErrorCode, InitializeError, SubmitError};
pub use oracle::BlockTip;
pub use settlement::{
    BURN_PERCENTAGE, ORACLE_MAINTENANCE_PERCENTAGE, SUBMISSION_DEPOSIT, TOKEN_PER_NEAR_MISS,
    TREASURY_PERCENTAGE,
};
pub use setup::{initialize, Initialize};
pub use state::NearMissMint;
pub use submission::{submit_near_miss, Outcome};
