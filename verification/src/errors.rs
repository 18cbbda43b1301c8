//! The failures that operations report. Every failure leaves the records it
//! was given untouched.

use vstd::prelude::*;

verus! {

/// Failures of the staking, proposal and voting operations.
#[derive(Clone, Copy, Debug, PartialEq, Eq, Structural)]
pub enum ErrorCode {
    /// Stake amount below the minimum requirement.
    InsufficientStakeAmount,
    /// The caller does not own this staking record.
    UnauthorizedStaker,
    /// Less is staked than the withdrawal asks for.
    InsufficientStakedBalance,
    /// The staking pool is not active.
    PoolNotActive,
    /// The escrow does not belong to the pool.
    InvalidTokenMint,
    /// The mint does not belong to the accepted token program.
    InvalidTokenProgram,
    /// A zero amount, or an amount that overflows a total.
    InvalidAmount,
    /// The pool exists already.
    PoolAlreadyInitialized,
    /// Only the administrator may do this.
    Unauthorized,
    /// The price lies outside the accepted range.
    InvalidPrice,
    /// The price is older than allowed.
    StalePrice,
    /// The stake is locked by a vote.
    TokensLockedForGovernance,
    /// Less is staked than proposing requires.
    InsufficientStakeToPropose,
    /// The stake is younger than proposing requires.
    InsufficientStakeDurationToPropose,
    /// The deposit cannot be covered.
    InsufficientDepositToPropose,
    /// The proposer has too many active proposals.
    MaxActiveProposalsReached,
    /// The title is longer than allowed.
    ProposalTitleTooLong,
    /// The description is longer than allowed.
    ProposalDescriptionTooLong,
    /// The execution payload is longer than allowed.
    ExecutionDataTooLarge,
    /// The voting period is not one of the allowed lengths.
    InvalidVotingPeriod,
    /// The proposal is not active.
    ProposalNotActive,
    /// The voting window has closed.
    VotingPeriodEnded,
    /// The stake is younger than voting requires.
    InsufficientStakeDurationToVote,
    /// The voter has no voting power on record.
    VotingPowerNotCalculated,
    /// The voter has voted on this proposal before.
    AlreadyVoted,
    /// The voting window is still open.
    VotingPeriodNotEnded,
    /// The proposal has been finalized before.
    ProposalAlreadyFinalized,
    /// The refund target does not belong to the proposer.
    InvalidProposerAccount,
    /// The proposal has not passed.
    ProposalNotPassed,
    /// The timelock has not run out.
    TimelockNotExpired,
    /// The proposal has been executed before.
    ProposalAlreadyExecuted,
    /// The execution payload is malformed.
    InvalidExecutionData,
    /// A treasury transfer needs the treasury.
    MissingTreasuryAccount,
    /// A treasury transfer needs a recipient.
    MissingRecipientAccount,
    /// A treasury transfer needs the mint.
    MissingTokenMint,
    /// A treasury transfer needs the token program.
    MissingTokenProgram,
    /// A parameter update needs the configuration.
    MissingGovernanceConfig,
    /// The treasury holds less than the transfer asks for.
    InsufficientTreasuryBalance,
    /// The payload names no known parameter.
    InvalidParameterId,
    /// The value lies outside the parameter's range.
    InvalidParameterValue,
    /// The configuration has not been set up.
    GovernanceConfigNotInitialized,
    /// The configuration is not the expected one.
    InvalidGovernanceConfig,
}

/// Failures of the parameter store.
#[derive(Clone, Copy, Debug, PartialEq, Eq, Structural)]
pub enum GovernanceConfigError {
    /// The value lies outside the bounds stored for its field.
    InvalidParameterValue,
    /// The caller is neither the administrator nor backed by a proposal.
    Unauthorized,
    /// The staking record belongs to another program.
    InvalidStakingContract,
    /// The required proposal stake cannot be computed.
    InvalidProposalStake,
    /// The caller does not own the staking record.
    UnauthorizedStaker,
    /// The attached proposal has not been approved.
    ProposalNotApproved,
    /// The attached proposal is not a parameter update.
    InvalidProposalType,
    /// The caller may not switch emergency mode.
    EmergencyNotAuthorized,
    /// A batch holds more updates than allowed.
    TooManyBatchUpdates,
    /// The stored bounds are inconsistent.
    ParameterBoundsValidationFailed,
    /// The configuration has another version.
    ConfigVersionMismatch,
}

} // verus!
