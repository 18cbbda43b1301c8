//! The proposal lifecycle: creation, voting and finalization.

use vstd::prelude::*;
use vstd::string::StrSliceExecFns;
use crate::errors::ErrorCode;
use crate::identity::Pubkey;
use crate::ledger::{transfer_deposit_to_proposer, Custody, TransferIntent};
use crate::limits::{
    BASE_UNITS_PER_TOKEN, MAX_DESCRIPTION_LENGTH, MAX_EXECUTION_DATA_LENGTH,
    MAX_STAKE_DURATION_TO_PROPOSE, MAX_TIME_LOCK_DURATION, MAX_TITLE_LENGTH,
    MIN_STAKE_DURATION_FOR_VOTING, MIN_STAKE_TO_PROPOSE, PASSING_THRESHOLD_PERCENTAGE,
    PROPOSAL_DEPOSIT_AMOUNT, QUORUM_PERCENTAGE, SECONDS_PER_DAY, TIME_LOCK_DURATION,
    VALID_VOTING_PERIODS, VOTE_LOCK_PERIOD,
};
use crate::staking::{GovernanceAccount, StakingPool, UserStakingAccount};

verus! {

/// What a proposal does once it is executed.
#[derive(Clone, Copy, Debug, PartialEq, Eq, Structural)]
pub enum ProposalType {
    /// Nothing: the vote itself is the message.
    Text,
    /// Pays an amount out of the treasury.
    TreasuryTransfer,
    /// Changes one governance parameter.
    ParameterUpdate,
}

/// Where a proposal stands. `Active` is where it starts; finalization leads
/// to `Passed` or `Failed`, execution from `Passed` to `Executed` or
/// `ExecutionFailed`.
#[derive(Clone, Copy, Debug, PartialEq, Eq, Structural)]
pub enum ProposalStatus {
    /// Open for votes, or waiting to be finalized.
    Active,
    /// Carried by the vote and waiting for its timelock and execution.
    Passed,
    /// Rejected by the vote or short of the quorum; the deposit went back.
    Failed,
    /// Carried out; the deposit went back.
    Executed,
    /// Withdrawn by an administrator.
    Cancelled,
    /// Settled although its effect failed; the deposit went back.
    ExecutionFailed,
    /// Withdrawn by an administrator in an emergency.
    EmergencyCancelled,
}

/// The side a voter takes.
#[derive(Clone, Copy, Debug, PartialEq, Eq, Structural)]
pub enum VoteChoice {
    /// For the proposal.
    Yes,
    /// Against the proposal.
    No,
    /// Neither: counts towards the quorum only.
    Abstain,
}

/// A proposal with its tallies and its deposit.
#[derive(Clone, Debug, PartialEq, Eq)]
pub struct ProposalAccount {
    pub proposal_id: u64,
    pub proposer: Pubkey,
    pub title: String,
    pub description: String,
    pub proposal_type: ProposalType,
    pub status: ProposalStatus,
    pub execution_data: Vec<u8>,
    pub voting_period_days: u8,
    pub created_at: i64,
    pub voting_ends_at: i64,
    pub finalized_at: i64,
    pub executed_at: i64,
    pub timelock_end: i64,
    pub yes_votes: u64,
    pub no_votes: u64,
    pub abstain_votes: u64,
    pub total_voters: u32,
    pub deposit_amount: u64,
    pub deposit_refunded: bool,
    pub bump: u8,
}

/// The record of one vote. There is at most one for each pair of proposal and
/// voter, and it never changes: that it exists is what forbids a second vote.
#[derive(Clone, Copy, Debug, PartialEq, Eq)]
pub struct VoteRecord {
    pub voter: Pubkey,
    pub proposal_id: u64,
    pub vote_choice: VoteChoice,
    pub voting_power: u64,
    pub voted_at: i64,
    pub bump: u8,
}

/// The parameters that proposals are decided by.
#[derive(Clone, Copy, Debug, PartialEq, Eq)]
pub struct GovernanceConfig {
    pub authority: Pubkey,
    pub quorum_percentage: u64,
    pub passing_threshold: u64,
    pub timelock_duration: i64,
    pub min_stake_to_propose: u64,
    pub proposal_deposit: u64,
    pub created_at: i64,
    pub last_updated: i64,
    pub bump: u8,
}

impl GovernanceConfig {
    /// Whether each parameter lies in its range: the quorum in 1 to 100
    /// percent, the passing threshold in 51 to 100 percent, the timelock in 0
    /// to 30 days.
    pub open spec fn well_formed(&self) -> bool {
        &&& 1 <= self.quorum_percentage <= 100
        &&& 51 <= self.passing_threshold <= 100
        &&& 0 <= self.timelock_duration <= MAX_TIME_LOCK_DURATION
    }
}

impl ProposalAccount {
    /// All votes cast, whatever the side.
    pub open spec fn total_votes_cast(&self) -> int {
        self.yes_votes + self.no_votes + self.abstain_votes
    }

    /// Whether the texts and the payload keep within their lengths and the
    /// deposit is where the status says it is: still held while the proposal
    /// is active or waits for execution, returned once it has failed or was
    /// executed.
    pub open spec fn well_formed(&self) -> bool {
        &&& self.title@.len() <= MAX_TITLE_LENGTH
        &&& self.description@.len() <= MAX_DESCRIPTION_LENGTH
        &&& self.execution_data@.len() <= MAX_EXECUTION_DATA_LENGTH
        &&& (self.status == ProposalStatus::Active || self.status == ProposalStatus::Passed)
            ==> !self.deposit_refunded
        &&& (self.status == ProposalStatus::Failed || self.status == ProposalStatus::Executed
            || self.status == ProposalStatus::ExecutionFailed) ==> self.deposit_refunded
    }
}

/// The configuration as it stands right after it was set up at time `now`:
/// every parameter at its default.
pub open spec fn new_config(authority: Pubkey, bump: u8, now: i64) -> GovernanceConfig {
    GovernanceConfig {
        authority,
        quorum_percentage: QUORUM_PERCENTAGE,
        passing_threshold: PASSING_THRESHOLD_PERCENTAGE,
        timelock_duration: TIME_LOCK_DURATION,
        min_stake_to_propose: MIN_STAKE_TO_PROPOSE,
        proposal_deposit: PROPOSAL_DEPOSIT_AMOUNT,
        created_at: now,
        last_updated: now,
        bump,
    }
}

/// Sets up the configuration under the administrator `authority`.
pub fn initialize_governance_config(authority: Pubkey, bump: u8, now: i64) -> (r: GovernanceConfig)
    ensures
        r == new_config(authority, bump, now),
        r.well_formed(),
{
    GovernanceConfig {
        authority,
        quorum_percentage: QUORUM_PERCENTAGE,
        passing_threshold: PASSING_THRESHOLD_PERCENTAGE,
        timelock_duration: TIME_LOCK_DURATION,
        min_stake_to_propose: MIN_STAKE_TO_PROPOSE,
        proposal_deposit: PROPOSAL_DEPOSIT_AMOUNT,
        created_at: now,
        last_updated: now,
        bump,
    }
}

/// Whether a proposal may run for this many days.
pub open spec fn valid_voting_period(voting_period: u8) -> bool {
    ||| voting_period == VALID_VOTING_PERIODS[0]
    ||| voting_period == VALID_VOTING_PERIODS[1]
    ||| voting_period == VALID_VOTING_PERIODS[2]
}

/// Tells whether a proposal may run for this many days.
pub fn is_valid_voting_period(voting_period: u8) -> (r: bool)
    ensures
        r == valid_voting_period(voting_period),
{
    let periods = VALID_VOTING_PERIODS;
    let mut i: usize = 0;
    while i < 3
        invariant
            i <= 3,
            periods == VALID_VOTING_PERIODS,
            forall|j: int| 0 <= j < i ==> periods[j] != voting_period,
        decreases 3 - i,
    {
        if periods[i] == voting_period {
            return true;
        }
        i = i + 1;
    }
    false
}

/// Why a proposal cannot be created, if so.
pub open spec fn create_failure(
    config: GovernanceConfig,
    proposer: Pubkey,
    proposer_staking_account: UserStakingAccount,
    proposer_governance_account: GovernanceAccount,
    title: Seq<char>,
    description: Seq<char>,
    execution_data: Seq<u8>,
    voting_period: u8,
    now: i64,
) -> Option<ErrorCode> {
    if proposer_staking_account.staker != proposer {
        Some(ErrorCode::UnauthorizedStaker)
    } else if proposer_governance_account.staker != proposer {
        Some(ErrorCode::UnauthorizedStaker)
    } else if proposer_staking_account.staked_amount < config.min_stake_to_propose {
        Some(ErrorCode::InsufficientStakeToPropose)
    } else if now - proposer_staking_account.timestamp < MAX_STAKE_DURATION_TO_PROPOSE {
        Some(ErrorCode::InsufficientStakeDurationToPropose)
    } else if title.len() > MAX_TITLE_LENGTH {
        Some(ErrorCode::ProposalTitleTooLong)
    } else if description.len() > MAX_DESCRIPTION_LENGTH {
        Some(ErrorCode::ProposalDescriptionTooLong)
    } else if execution_data.len() > MAX_EXECUTION_DATA_LENGTH {
        Some(ErrorCode::ExecutionDataTooLarge)
    } else if !valid_voting_period(voting_period) {
        Some(ErrorCode::InvalidVotingPeriod)
    } else if now + voting_period * SECONDS_PER_DAY > i64::MAX {
        Some(ErrorCode::InvalidAmount)
    } else {
        None
    }
}

/// The proposal as it stands right after its creation at time `now`: active,
/// without votes, its window open for `voting_period` days, its deposit held.
pub open spec fn new_proposal(
    config: GovernanceConfig,
    proposer: Pubkey,
    proposal_id: u64,
    title: String,
    description: String,
    proposal_type: ProposalType,
    execution_data: Vec<u8>,
    voting_period: u8,
    bump: u8,
    now: i64,
) -> ProposalAccount {
    ProposalAccount {
        proposal_id,
        proposer,
        title,
        description,
        proposal_type,
        status: ProposalStatus::Active,
        execution_data,
        voting_period_days: voting_period,
        created_at: now,
        voting_ends_at: (now + voting_period * SECONDS_PER_DAY) as i64,
        finalized_at: 0,
        executed_at: 0,
        timelock_end: 0,
        yes_votes: 0,
        no_votes: 0,
        abstain_votes: 0,
        total_voters: 0,
        deposit_amount: config.proposal_deposit,
        deposit_refunded: false,
        bump,
    }
}

/// Creates a proposal. The proposer must own both records, have staked at
/// least the configured minimum for at least the required time, keep title,
/// description and payload within their lengths, and choose an allowed
/// voting period. The new proposal comes back together with the deposit that
/// has to move from the proposer into escrow.
pub fn create_proposal(
    config: &GovernanceConfig,
    proposer: &Pubkey,
    proposer_staking_account: &UserStakingAccount,
    proposer_governance_account: &GovernanceAccount,
    proposal_id: u64,
    title: String,
    description: String,
    proposal_type: ProposalType,
    execution_data: Vec<u8>,
    voting_period: u8,
    bump: u8,
    now: i64,
) -> (r: Result<(ProposalAccount, TransferIntent), ErrorCode>)
    ensures
        r matches Ok((proposal, _)) ==> proposal.well_formed(),
        match r {
            Ok((proposal, deposit)) => {
                &&& create_failure(
                    *config,
                    *proposer,
                    *proposer_staking_account,
                    *proposer_governance_account,
                    title@,
                    description@,
                    execution_data@,
                    voting_period,
                    now,
                ) is None
                &&& proposal == new_proposal(
                    *config,
                    *proposer,
                    proposal_id,
                    title,
                    description,
                    proposal_type,
                    execution_data,
                    voting_period,
                    bump,
                    now,
                )
                &&& deposit == (TransferIntent {
                    from: Custody::Participant(*proposer),
                    to: Custody::DepositEscrow,
                    amount: config.proposal_deposit,
                })
            },
            Err(e) => create_failure(
                *config,
                *proposer,
                *proposer_staking_account,
                *proposer_governance_account,
                title@,
                description@,
                execution_data@,
                voting_period,
                now,
            ) == Some(e),
        },
{
    if proposer_staking_account.staker != *proposer {
        return Err(ErrorCode::UnauthorizedStaker);
    }
    if proposer_governance_account.staker != *proposer {
        return Err(ErrorCode::UnauthorizedStaker);
    }
    if proposer_staking_account.staked_amount < config.min_stake_to_propose {
        return Err(ErrorCode::InsufficientStakeToPropose);
    }
    let stake_duration: i128 = now as i128 - proposer_staking_account.timestamp as i128;
    if stake_duration < MAX_STAKE_DURATION_TO_PROPOSE as i128 {
        return Err(ErrorCode::InsufficientStakeDurationToPropose);
    }
    if title.as_str().unicode_len() > MAX_TITLE_LENGTH {
        return Err(ErrorCode::ProposalTitleTooLong);
    }
    if description.as_str().unicode_len() > MAX_DESCRIPTION_LENGTH {
        return Err(ErrorCode::ProposalDescriptionTooLong);
    }
    if execution_data.len() > MAX_EXECUTION_DATA_LENGTH {
        return Err(ErrorCode::ExecutionDataTooLarge);
    }
    if !is_valid_voting_period(voting_period) {
        return Err(ErrorCode::InvalidVotingPeriod);
    }
    let voting_ends_at = match now.checked_add(voting_period as i64 * SECONDS_PER_DAY) {
        Some(end) => end,
        None => {
            return Err(ErrorCode::InvalidAmount);
        },
    };
    let proposal = ProposalAccount {
        proposal_id,
        proposer: *proposer,
        title,
        description,
        proposal_type,
        status: ProposalStatus::Active,
        execution_data,
        voting_period_days: voting_period,
        created_at: now,
        voting_ends_at,
        finalized_at: 0,
        executed_at: 0,
        timelock_end: 0,
        yes_votes: 0,
        no_votes: 0,
        abstain_votes: 0,
        total_voters: 0,
        deposit_amount: config.proposal_deposit,
        deposit_refunded: false,
        bump,
    };
    let deposit = TransferIntent {
        from: Custody::Participant(*proposer),
        to: Custody::DepositEscrow,
        amount: config.proposal_deposit,
    };
    Ok((proposal, deposit))
}

impl ProposalAccount {
    /// The tally of one side.
    pub open spec fn tally(&self, vote_choice: VoteChoice) -> u64 {
        match vote_choice {
            VoteChoice::Yes => self.yes_votes,
            VoteChoice::No => self.no_votes,
            VoteChoice::Abstain => self.abstain_votes,
        }
    }

    /// The proposal after one more voter put `voting_power` on one side.
    pub open spec fn with_vote(self, vote_choice: VoteChoice, voting_power: u64) -> ProposalAccount {
        let counted = ProposalAccount { total_voters: (self.total_voters + 1) as u32, ..self };
        match vote_choice {
            VoteChoice::Yes => ProposalAccount {
                yes_votes: (self.yes_votes + voting_power) as u64,
                ..counted
            },
            VoteChoice::No => ProposalAccount {
                no_votes: (self.no_votes + voting_power) as u64,
                ..counted
            },
            VoteChoice::Abstain => ProposalAccount {
                abstain_votes: (self.abstain_votes + voting_power) as u64,
                ..counted
            },
        }
    }
}

impl GovernanceAccount {
    /// The participant's standing after a vote at time `now` on a proposal
    /// whose lock runs until `lock_end`: one more participation, and the
    /// stake locked until the later of the old and the new lock end.
    pub open spec fn after_vote(self, lock_end: i64, now: i64) -> GovernanceAccount {
        GovernanceAccount {
            stake_lock_end: if self.stake_lock_end >= lock_end {
                self.stake_lock_end
            } else {
                lock_end
            },
            last_vote_timestamp: now,
            participation_count: (self.participation_count + 1) as u32,
            ..self
        }
    }
}

/// Why a vote cannot be cast, if so. `existing_vote` is what the store holds
/// under this proposal and voter.
pub open spec fn vote_failure(
    proposal: ProposalAccount,
    governance_account: GovernanceAccount,
    user_staking_account: UserStakingAccount,
    voter: Pubkey,
    existing_vote: Option<&VoteRecord>,
    vote_choice: VoteChoice,
    now: i64,
) -> Option<ErrorCode> {
    if user_staking_account.staker != voter {
        Some(ErrorCode::UnauthorizedStaker)
    } else if governance_account.staker != voter {
        Some(ErrorCode::UnauthorizedStaker)
    } else if existing_vote is Some {
        Some(ErrorCode::AlreadyVoted)
    } else if proposal.status != ProposalStatus::Active {
        Some(ErrorCode::ProposalNotActive)
    } else if now >= proposal.voting_ends_at {
        Some(ErrorCode::VotingPeriodEnded)
    } else if now - user_staking_account.timestamp < MIN_STAKE_DURATION_FOR_VOTING {
        Some(ErrorCode::InsufficientStakeDurationToVote)
    } else if governance_account.voting_power_cache == 0 {
        Some(ErrorCode::VotingPowerNotCalculated)
    } else if proposal.tally(vote_choice) + governance_account.voting_power_cache > u64::MAX {
        Some(ErrorCode::InvalidAmount)
    } else if proposal.total_voters + 1 > u32::MAX {
        Some(ErrorCode::InvalidAmount)
    } else if proposal.voting_ends_at + VOTE_LOCK_PERIOD > i64::MAX {
        Some(ErrorCode::InvalidAmount)
    } else if governance_account.participation_count + 1 > u32::MAX {
        Some(ErrorCode::InvalidAmount)
    } else {
        None
    }
}

/// Casts a vote. The voter must own both records, must not have voted on
/// this proposal before, and must have voting power on record; the proposal
/// must be active with its window still open. The vote counts with the power
/// on record, which is not computed anew. The voter's stake stays locked
/// until the window has closed and the lock period has passed, and never
/// less long than it was locked before. The record of the vote comes back
/// for the store to keep.
pub fn cast_vote(
    proposal: &mut ProposalAccount,
    governance_account: &mut GovernanceAccount,
    user_staking_account: &UserStakingAccount,
    voter: &Pubkey,
    existing_vote: Option<&VoteRecord>,
    vote_choice: VoteChoice,
    bump: u8,
    now: i64,
) -> (r: Result<VoteRecord, ErrorCode>)
    ensures
        old(proposal).well_formed() ==> final(proposal).well_formed(),
        match r {
            Ok(record) => {
                &&& vote_failure(
                    *old(proposal),
                    *old(governance_account),
                    *user_staking_account,
                    *voter,
                    existing_vote,
                    vote_choice,
                    now,
                ) is None
                &&& *final(proposal) == old(proposal).with_vote(
                    vote_choice,
                    old(governance_account).voting_power_cache,
                )
                &&& *final(governance_account) == old(governance_account).after_vote(
                    (old(proposal).voting_ends_at + VOTE_LOCK_PERIOD) as i64,
                    now,
                )
                &&& record == (VoteRecord {
                    voter: *voter,
                    proposal_id: old(proposal).proposal_id,
                    vote_choice,
                    voting_power: old(governance_account).voting_power_cache,
                    voted_at: now,
                    bump,
                })
            },
            Err(e) => {
                &&& vote_failure(
                    *old(proposal),
                    *old(governance_account),
                    *user_staking_account,
                    *voter,
                    existing_vote,
                    vote_choice,
                    now,
                ) == Some(e)
                &&& *final(proposal) == *old(proposal)
                &&& *final(governance_account) == *old(governance_account)
            },
        },
{
    if user_staking_account.staker != *voter {
        return Err(ErrorCode::UnauthorizedStaker);
    }
    if governance_account.staker != *voter {
        return Err(ErrorCode::UnauthorizedStaker);
    }
    if existing_vote.is_some() {
        return Err(ErrorCode::AlreadyVoted);
    }
    if proposal.status != ProposalStatus::Active {
        return Err(ErrorCode::ProposalNotActive);
    }
    if now >= proposal.voting_ends_at {
        return Err(ErrorCode::VotingPeriodEnded);
    }
    let stake_duration: i128 = now as i128 - user_staking_account.timestamp as i128;
    if stake_duration < MIN_STAKE_DURATION_FOR_VOTING as i128 {
        return Err(ErrorCode::InsufficientStakeDurationToVote);
    }
    let voting_power = governance_account.voting_power_cache;
    if voting_power == 0 {
        return Err(ErrorCode::VotingPowerNotCalculated);
    }
    let tally = match vote_choice {
        VoteChoice::Yes => proposal.yes_votes,
        VoteChoice::No => proposal.no_votes,
        VoteChoice::Abstain => proposal.abstain_votes,
    };
    let new_tally = match tally.checked_add(voting_power) {
        Some(sum) => sum,
        None => {
            return Err(ErrorCode::InvalidAmount);
        },
    };
    let total_voters = match proposal.total_voters.checked_add(1) {
        Some(count) => count,
        None => {
            return Err(ErrorCode::InvalidAmount);
        },
    };
    let lock_end = match proposal.voting_ends_at.checked_add(VOTE_LOCK_PERIOD) {
        Some(end) => end,
        None => {
            return Err(ErrorCode::InvalidAmount);
        },
    };
    let participation_count = match governance_account.participation_count.checked_add(1) {
        Some(count) => count,
        None => {
            return Err(ErrorCode::InvalidAmount);
        },
    };
    match vote_choice {
        VoteChoice::Yes => {
            proposal.yes_votes = new_tally;
        },
        VoteChoice::No => {
            proposal.no_votes = new_tally;
        },
        VoteChoice::Abstain => {
            proposal.abstain_votes = new_tally;
        },
    }
    proposal.total_voters = total_voters;
    if lock_end > governance_account.stake_lock_end {
        governance_account.stake_lock_end = lock_end;
    }
    governance_account.last_vote_timestamp = now;
    governance_account.participation_count = participation_count;
    Ok(
        VoteRecord {
            voter: *voter,
            proposal_id: proposal.proposal_id,
            vote_choice,
            voting_power,
            voted_at: now,
            bump,
        },
    )
}

/// The turnout that makes a vote binding: the quorum's share of all staked
/// whole tokens, rounded down.
pub open spec fn quorum_required(staking_pool: StakingPool, config: GovernanceConfig) -> int {
    (staking_pool.total_staked_amount / BASE_UNITS_PER_TOKEN) * config.quorum_percentage / 100
}

impl ProposalAccount {
    /// Whether enough votes were cast for the outcome to count. Abstentions
    /// count towards the turnout.
    pub open spec fn quorum_met(&self, staking_pool: StakingPool, config: GovernanceConfig) -> bool {
        self.total_votes_cast() >= quorum_required(staking_pool, config)
    }

    /// Whether the share of yes among yes and no reaches the passing
    /// threshold. Abstentions stay out of the share, and where nobody said
    /// yes or no the threshold is not met.
    pub open spec fn threshold_met(&self, config: GovernanceConfig) -> bool {
        &&& self.yes_votes + self.no_votes > 0
        &&& self.yes_votes * 100 / (self.yes_votes + self.no_votes) >= config.passing_threshold
    }

    /// Whether the vote carries the proposal.
    pub open spec fn carries(&self, staking_pool: StakingPool, config: GovernanceConfig) -> bool {
        self.quorum_met(staking_pool, config) && self.threshold_met(config)
    }

    /// Why the proposal cannot be finalized at time `now`, if so.
    pub open spec fn finalize_failure(
        &self,
        staking_pool: StakingPool,
        config: GovernanceConfig,
        now: i64,
    ) -> Option<ErrorCode> {
        if now < self.voting_ends_at {
            Some(ErrorCode::VotingPeriodNotEnded)
        } else if self.status != ProposalStatus::Active {
            Some(ErrorCode::ProposalNotActive)
        } else if self.finalized_at != 0 {
            Some(ErrorCode::ProposalAlreadyFinalized)
        } else if self.total_votes_cast() > u64::MAX {
            Some(ErrorCode::InvalidAmount)
        } else if (staking_pool.total_staked_amount / BASE_UNITS_PER_TOKEN)
            * config.quorum_percentage > u64::MAX {
            Some(ErrorCode::InvalidAmount)
        } else if self.quorum_met(staking_pool, config) && self.yes_votes + self.no_votes > 0
            && self.yes_votes * 100 > u64::MAX {
            Some(ErrorCode::InvalidAmount)
        } else if self.carries(staking_pool, config) && !(i64::MIN <= now
            + config.timelock_duration <= i64::MAX) {
            Some(ErrorCode::InvalidAmount)
        } else {
            None
        }
    }

    /// The proposal after it was finalized at time `now`: passed, with the
    /// timelock running and the deposit still held, or failed, with the
    /// deposit on its way back.
    pub open spec fn finalized(
        self,
        staking_pool: StakingPool,
        config: GovernanceConfig,
        now: i64,
    ) -> ProposalAccount {
        if self.carries(staking_pool, config) {
            ProposalAccount {
                status: ProposalStatus::Passed,
                finalized_at: now,
                timelock_end: (now + config.timelock_duration) as i64,
                ..self
            }
        } else {
            ProposalAccount {
                status: ProposalStatus::Failed,
                finalized_at: now,
                deposit_refunded: true,
                ..self
            }
        }
    }

    /// Marks the proposal failed at time `now` and asks for its deposit back.
    fn settle_failed(&mut self, now: i64) -> (refund: TransferIntent)
        ensures
            *final(self) == (ProposalAccount {
                status: ProposalStatus::Failed,
                finalized_at: now,
                deposit_refunded: true,
                ..*old(self)
            }),
            refund == TransferIntent::deposit_refund(old(self).proposer, old(self).deposit_amount),
    {
        self.status = ProposalStatus::Failed;
        self.finalized_at = now;
        self.deposit_refunded = true;
        transfer_deposit_to_proposer(self.proposer, self.deposit_amount)
    }
}

/// Decides a proposal once its voting window has closed. The proposal fails
/// if fewer votes were cast than the quorum asks for, or if the share of yes
/// among yes and no is below the passing threshold; its deposit then goes
/// back, and the refund to carry out is returned. Otherwise it passes, its
/// timelock starts, and nothing is returned: the deposit stays in escrow
/// until execution.
pub fn finalize_proposal(
    proposal: &mut ProposalAccount,
    staking_pool: &StakingPool,
    config: &GovernanceConfig,
    now: i64,
) -> (r: Result<Option<TransferIntent>, ErrorCode>)
    ensures
        old(proposal).well_formed() ==> final(proposal).well_formed(),
        match r {
            Ok(refund) => {
                &&& old(proposal).finalize_failure(*staking_pool, *config, now) is None
                &&& *final(proposal) == old(proposal).finalized(*staking_pool, *config, now)
                &&& refund == if old(proposal).carries(*staking_pool, *config) {
                    None
                } else {
                    Some(
                        TransferIntent::deposit_refund(
                            old(proposal).proposer,
                            old(proposal).deposit_amount,
                        ),
                    )
                }
            },
            Err(e) => {
                &&& old(proposal).finalize_failure(*staking_pool, *config, now) == Some(e)
                &&& *final(proposal) == *old(proposal)
            },
        },
{
    if now < proposal.voting_ends_at {
        return Err(ErrorCode::VotingPeriodNotEnded);
    }
    if proposal.status != ProposalStatus::Active {
        return Err(ErrorCode::ProposalNotActive);
    }
    if proposal.finalized_at != 0 {
        return Err(ErrorCode::ProposalAlreadyFinalized);
    }
    let yes_no_total = match proposal.yes_votes.checked_add(proposal.no_votes) {
        Some(sum) => sum,
        None => {
            return Err(ErrorCode::InvalidAmount);
        },
    };
    let total_votes_cast = match yes_no_total.checked_add(proposal.abstain_votes) {
        Some(sum) => sum,
        None => {
            return Err(ErrorCode::InvalidAmount);
        },
    };
    let total_voting_power = staking_pool.total_staked_amount / BASE_UNITS_PER_TOKEN;
    let quorum_required = match total_voting_power.checked_mul(config.quorum_percentage) {
        Some(product) => product / 100,
        None => {
            return Err(ErrorCode::InvalidAmount);
        },
    };
    if total_votes_cast < quorum_required {
        let refund = proposal.settle_failed(now);
        return Ok(Some(refund));
    }
    if yes_no_total == 0 {
        let refund = proposal.settle_failed(now);
        return Ok(Some(refund));
    }
    let yes_percentage = match proposal.yes_votes.checked_mul(100) {
        Some(product) => product / yes_no_total,
        None => {
            return Err(ErrorCode::InvalidAmount);
        },
    };
    if yes_percentage < config.passing_threshold {
        let refund = proposal.settle_failed(now);
        return Ok(Some(refund));
    }
    let timelock_end = match now.checked_add(config.timelock_duration) {
        Some(end) => end,
        None => {
            return Err(ErrorCode::InvalidAmount);
        },
    };
    proposal.status = ProposalStatus::Passed;
    proposal.finalized_at = now;
    proposal.timelock_end = timelock_end;
    Ok(None)
}

/// A second vote is refused. Once a vote was cast, the store holds its
/// record, and with that record any further vote of the same voter on the
/// same proposal fails as `AlreadyVoted`, whichever side it takes and
/// whenever it comes, so that the tallies stay as the first vote left them.
pub proof fn lemma_second_vote_is_refused(
    proposal: ProposalAccount,
    governance_account: GovernanceAccount,
    user_staking_account: UserStakingAccount,
    voter: Pubkey,
    first_choice: VoteChoice,
    bump: u8,
    first_time: i64,
    later_stake: UserStakingAccount,
    second_choice: VoteChoice,
    second_time: i64,
)
    requires
        vote_failure(
            proposal,
            governance_account,
            user_staking_account,
            voter,
            None,
            first_choice,
            first_time,
        ) is None,
        later_stake.staker == voter,
    ensures
        vote_failure(
            proposal.with_vote(first_choice, governance_account.voting_power_cache),
            governance_account.after_vote(
                (proposal.voting_ends_at + VOTE_LOCK_PERIOD) as i64,
                first_time,
            ),
            later_stake,
            voter,
            Some(
                &VoteRecord {
                    voter,
                    proposal_id: proposal.proposal_id,
                    vote_choice: first_choice,
                    voting_power: governance_account.voting_power_cache,
                    voted_at: first_time,
                    bump,
                },
            ),
            second_choice,
            second_time,
        ) == Some(ErrorCode::AlreadyVoted),
{
}

/// A vote never shortens a lock and never takes a participation back.
pub proof fn lemma_vote_only_extends_lock(
    governance_account: GovernanceAccount,
    lock_end: i64,
    now: i64,
)
    requires
        governance_account.participation_count < u32::MAX,
    ensures
        governance_account.after_vote(lock_end, now).stake_lock_end
            >= governance_account.stake_lock_end,
        governance_account.after_vote(lock_end, now).stake_lock_end >= lock_end,
        governance_account.after_vote(lock_end, now).participation_count
            == governance_account.participation_count + 1,
{
}

/// A proposal is finalized once. After a finalization went through, every
/// further attempt is refused, whatever the time, the pool or the
/// configuration: the status it reached stays, and no second refund is
/// asked for.
pub proof fn lemma_finalize_only_once(
    proposal: ProposalAccount,
    staking_pool: StakingPool,
    config: GovernanceConfig,
    now: i64,
    later_pool: StakingPool,
    later_config: GovernanceConfig,
    later: i64,
)
    requires
        proposal.finalize_failure(staking_pool, config, now) is None,
    ensures
        proposal.finalized(staking_pool, config, now).finalize_failure(
            later_pool,
            later_config,
            later,
        ) == Some(
            if later < proposal.voting_ends_at {
                ErrorCode::VotingPeriodNotEnded
            } else {
                ErrorCode::ProposalNotActive
            },
        ),
{
}

/// Finalization returns the deposit at most once. On a proposal whose
/// deposit is where its status says, a finalization that goes through finds
/// the deposit still held, and hands it back exactly where the proposal
/// fails; a passed proposal keeps it for execution to settle.
pub proof fn lemma_finalize_settles_deposit(
    proposal: ProposalAccount,
    staking_pool: StakingPool,
    config: GovernanceConfig,
    now: i64,
)
    requires
        proposal.well_formed(),
        proposal.finalize_failure(staking_pool, config, now) is None,
    ensures
        !proposal.deposit_refunded,
        proposal.finalized(staking_pool, config, now).well_formed(),
        proposal.carries(staking_pool, config) ==> {
            &&& proposal.finalized(staking_pool, config, now).status == ProposalStatus::Passed
            &&& !proposal.finalized(staking_pool, config, now).deposit_refunded
        },
        !proposal.carries(staking_pool, config) ==> {
            &&& proposal.finalized(staking_pool, config, now).status == ProposalStatus::Failed
            &&& proposal.finalized(staking_pool, config, now).deposit_refunded
        },
{
}

/// Without a quorum a proposal fails and its deposit goes back, however the
/// votes that were cast are split.
pub proof fn lemma_missed_quorum_fails(
    proposal: ProposalAccount,
    staking_pool: StakingPool,
    config: GovernanceConfig,
    now: i64,
)
    requires
        proposal.total_votes_cast() < quorum_required(staking_pool, config),
    ensures
        proposal.finalized(staking_pool, config, now).status == ProposalStatus::Failed,
        proposal.finalized(staking_pool, config, now).deposit_refunded,
{
}

/// Abstentions count towards the quorum and stay out of the threshold.
pub proof fn lemma_abstentions_only_reach_quorum(
    proposal: ProposalAccount,
    config: GovernanceConfig,
    abstain_votes: u64,
)
    ensures
        (ProposalAccount { abstain_votes, ..proposal }).threshold_met(config)
            == proposal.threshold_met(config),
        (ProposalAccount { abstain_votes, ..proposal }).total_votes_cast()
            == proposal.total_votes_cast() - proposal.abstain_votes + abstain_votes,
{
}

} // verus!
