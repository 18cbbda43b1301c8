//! The fixed limits of the proposal lifecycle.

use vstd::prelude::*;

verus! {

/// Seconds in a day.
pub const SECONDS_PER_DAY: i64 = 86400;

/// Base units in one whole token.
pub const BASE_UNITS_PER_TOKEN: u64 = 1_000_000;

/// The deposit a new configuration asks of a proposer, in base units.
pub const PROPOSAL_DEPOSIT_AMOUNT: u64 = 100_000_000;

/// The most proposals one participant may have open.
pub const MAX_ACTIVE_PROPOSALS: u8 = 3;

/// The stake a new configuration asks of a proposer, in base units.
pub const MIN_STAKE_TO_PROPOSE: u64 = 100_000_000;

/// The age in seconds that a stake must have before its owner may propose.
pub const MAX_STAKE_DURATION_TO_PROPOSE: i64 = 0;

/// The age in seconds that a stake must have before its owner may vote.
pub const MIN_STAKE_DURATION_FOR_VOTING: i64 = 0;

/// How long after the end of voting a voter's stake stays locked, in seconds.
pub const VOTE_LOCK_PERIOD: i64 = 0;

/// The most characters a title may have.
pub const MAX_TITLE_LENGTH: usize = 100;

/// The most characters a description may have.
pub const MAX_DESCRIPTION_LENGTH: usize = 1000;

/// The most bytes an execution payload may have.
pub const MAX_EXECUTION_DATA_LENGTH: usize = 500;

/// The short voting period, in days.
pub const VOTING_PERIOD_3_DAYS: u8 = 0;

/// The medium voting period, in days.
pub const VOTING_PERIOD_7_DAYS: u8 = 0;

/// The long voting period, in days.
pub const VOTING_PERIOD_14_DAYS: u8 = 0;

/// The voting periods a proposal may choose from.
pub const VALID_VOTING_PERIODS: [u8; 3] = [
    VOTING_PERIOD_3_DAYS,
    VOTING_PERIOD_7_DAYS,
    VOTING_PERIOD_14_DAYS,
];

/// The quorum a new configuration starts with, in percent.
pub const QUORUM_PERCENTAGE: u64 = 10;

/// The passing threshold a new configuration starts with, in percent.
pub const PASSING_THRESHOLD_PERCENTAGE: u64 = 51;

/// The timelock a new configuration starts with, in seconds.
pub const TIME_LOCK_DURATION: i64 = 0;

/// The longest timelock a configuration may hold, in seconds.
pub const MAX_TIME_LOCK_DURATION: u64 = 2_592_000;

} // verus!
