//! What the store says of a participant: the voting power under its tiers,
//! and whether the participant may propose.

use vstd::prelude::*;
use crate::errors::GovernanceConfigError;
use crate::identity::{Pubkey, STAKING_CONTRACT_ID};
use crate::limits::BASE_UNITS_PER_TOKEN;
use crate::parameter_store::{
    GovernanceConfig, ProposalValidationPerformed, ProposalValidationResult,
    VotingPowerCalculated,
};
use crate::staking::{stake_duration_days, whole_days_staked, UserStakingAccount};
use crate::voting_power::{calculate_configurable_voting_power, configurable_voting_power};

verus! {

impl GovernanceConfig {
    /// The multiplier, in hundredths, by which a proposer's required stake
    /// grows with the proposals behind them: one escalation factor's
    /// hundredth for each earlier proposal, capped by the largest
    /// multiplier. Of the count of earlier proposals only the remainder
    /// modulo 65536 enters, and the escalation itself stops at 65535
    /// hundredths of a hundredth.
    pub open spec fn escalation_multiplier(&self, proposer_history: u32) -> int {
        let steps = proposer_history as int % 0x1_0000;
        let product = steps * self.proposal_settings.stake_escalation_factor;
        let escalation = if product > u16::MAX {
            u16::MAX as int
        } else {
            product
        };
        let multiplier = 100 + escalation / 100;
        if multiplier <= self.proposal_settings.max_escalation_multiplier {
            multiplier
        } else {
            self.proposal_settings.max_escalation_multiplier as int
        }
    }

    /// The stake that a proposer with this many earlier proposals needs: the
    /// base stake times the escalation multiplier, where the product stops
    /// at the largest amount there is, and of that a hundredth.
    pub open spec fn escalated_stake(&self, proposer_history: u32) -> int {
        let product = self.proposal_settings.base_proposal_stake * self.escalation_multiplier(
            proposer_history,
        );
        if product > u64::MAX {
            u64::MAX as int / 100
        } else {
            product / 100
        }
    }

    /// Computes the stake that a proposer with this many earlier proposals
    /// needs. The result must lie within the bounds of the base stake.
    pub fn calculate_proposal_stake_requirement(&self, proposer_history: u32) -> (r: Result<
        u64,
        GovernanceConfigError,
    >)
        ensures
            match r {
                Ok(required_stake) => {
                    &&& required_stake == self.escalated_stake(proposer_history)
                    &&& self.parameter_bounds.min_proposal_stake_base <= required_stake
                        <= self.parameter_bounds.max_proposal_stake_base
                },
                Err(e) => {
                    &&& e == GovernanceConfigError::InvalidParameterValue
                    &&& !(self.parameter_bounds.min_proposal_stake_base <= self.escalated_stake(
                        proposer_history,
                    ) <= self.parameter_bounds.max_proposal_stake_base)
                },
            },
    {
        let base_stake = self.proposal_settings.base_proposal_stake;
        let escalation_factor = self.proposal_settings.stake_escalation_factor;
        let max_multiplier = self.proposal_settings.max_escalation_multiplier;
        let steps: u32 = proposer_history % 0x1_0000;
        assert(steps * escalation_factor <= 0xFFFF * 0xFFFF) by (nonlinear_arith)
            requires
                steps <= 0xFFFF,
                escalation_factor <= 0xFFFF,
        ;
        let product: u32 = steps * (escalation_factor as u32);
        let escalation: u32 = if product > 0xFFFF {
            0xFFFF
        } else {
            product
        };
        let uncapped: u32 = 100 + escalation / 100;
        let escalation_multiplier: u64 = if uncapped <= max_multiplier as u32 {
            uncapped as u64
        } else {
            max_multiplier as u64
        };
        let required_stake = match base_stake.checked_mul(escalation_multiplier) {
            Some(product) => product / 100,
            None => u64::MAX / 100,
        };
        if required_stake >= self.parameter_bounds.min_proposal_stake_base && required_stake
            <= self.parameter_bounds.max_proposal_stake_base {
            Ok(required_stake)
        } else {
            Err(GovernanceConfigError::InvalidParameterValue)
        }
    }
}

/// Computes a participant's voting power at time `now` under the tiers of
/// the store: the stake in whole tokens, scaled by the multiplier that its
/// age earns. The staking record must be one of the staking program.
pub fn get_voting_power_with_config(
    config: &GovernanceConfig,
    user: &Pubkey,
    user_staking_account: &UserStakingAccount,
    staking_account_owner: &Pubkey,
    now: i64,
) -> (r: Result<(u64, VotingPowerCalculated), GovernanceConfigError>)
    requires
        user_staking_account.timestamp <= now,
    ensures
        match r {
            Ok((voting_power, event)) => {
                &&& staking_account_owner.has_bytes(STAKING_CONTRACT_ID)
                &&& voting_power == configurable_voting_power(
                    (user_staking_account.staked_amount / BASE_UNITS_PER_TOKEN) as nat,
                    stake_duration_days(user_staking_account.timestamp, now),
                    config.time_multipliers,
                )
                &&& event.user == *user
                &&& event.voting_power == voting_power
                &&& event.stake_amount == user_staking_account.staked_amount
                &&& event.stake_duration_days == if stake_duration_days(
                    user_staking_account.timestamp,
                    now,
                ) <= u32::MAX {
                    stake_duration_days(user_staking_account.timestamp, now)
                } else {
                    u32::MAX as nat
                }
                &&& event.timestamp == now
            },
            Err(e) => {
                &&& e == GovernanceConfigError::InvalidStakingContract
                &&& !staking_account_owner.has_bytes(STAKING_CONTRACT_ID)
            },
        },
{
    if *staking_account_owner != Pubkey::new_from_array(STAKING_CONTRACT_ID) {
        return Err(GovernanceConfigError::InvalidStakingContract);
    }
    let days = whole_days_staked(user_staking_account.timestamp, now);
    let voting_power = calculate_configurable_voting_power(
        user_staking_account.staked_amount / BASE_UNITS_PER_TOKEN,
        days,
        &config.time_multipliers,
    );
    let event = VotingPowerCalculated {
        user: *user,
        voting_power,
        stake_amount: user_staking_account.staked_amount,
        stake_duration_days: days,
        timestamp: now,
    };
    Ok((voting_power, event))
}

/// Why a participant cannot be checked against the proposal requirements,
/// if so.
pub open spec fn validation_failure(
    config: GovernanceConfig,
    user: Pubkey,
    user_staking_account: UserStakingAccount,
    staking_account_owner: Pubkey,
    proposer_history: u32,
) -> Option<GovernanceConfigError> {
    if !staking_account_owner.has_bytes(STAKING_CONTRACT_ID) {
        Some(GovernanceConfigError::InvalidStakingContract)
    } else if user_staking_account.staker != user {
        Some(GovernanceConfigError::UnauthorizedStaker)
    } else if !(config.parameter_bounds.min_proposal_stake_base <= config.escalated_stake(
        proposer_history,
    ) <= config.parameter_bounds.max_proposal_stake_base) {
        Some(GovernanceConfigError::InvalidParameterValue)
    } else {
        None
    }
}

/// What the check of a participant against the proposal requirements finds
/// at time `now`: the stake needed, and whether the participant's stake is
/// large enough and old enough.
pub open spec fn validation_result(
    config: GovernanceConfig,
    user_staking_account: UserStakingAccount,
    proposer_history: u32,
    now: i64,
) -> ProposalValidationResult {
    let required_stake = config.escalated_stake(proposer_history) as u64;
    let has_sufficient_stake = user_staking_account.staked_amount >= required_stake;
    let meets_duration_requirement = stake_duration_days(user_staking_account.timestamp, now)
        >= config.parameter_bounds.min_stake_duration_days;
    ProposalValidationResult {
        required_stake,
        has_sufficient_stake,
        meets_duration_requirement,
        can_propose: has_sufficient_stake && meets_duration_requirement,
    }
}

/// Checks a participant with `proposer_history` earlier proposals against
/// the proposal requirements. The staking record must be one of the staking
/// program and belong to `user`.
pub fn validate_proposal_requirements(
    config: &GovernanceConfig,
    user: &Pubkey,
    user_staking_account: &UserStakingAccount,
    staking_account_owner: &Pubkey,
    proposer_history: u32,
    now: i64,
) -> (r: Result<(ProposalValidationResult, ProposalValidationPerformed), GovernanceConfigError>)
    requires
        user_staking_account.timestamp <= now,
    ensures
        match r {
            Ok((result, event)) => {
                &&& validation_failure(
                    *config,
                    *user,
                    *user_staking_account,
                    *staking_account_owner,
                    proposer_history,
                ) is None
                &&& result == validation_result(*config, *user_staking_account, proposer_history, now)
                &&& event == (ProposalValidationPerformed {
                    user: *user,
                    required_stake: result.required_stake,
                    has_sufficient_stake: result.has_sufficient_stake,
                    meets_duration_requirement: result.meets_duration_requirement,
                    timestamp: now,
                })
            },
            Err(e) => validation_failure(
                *config,
                *user,
                *user_staking_account,
                *staking_account_owner,
                proposer_history,
            ) == Some(e),
        },
{
    if *staking_account_owner != Pubkey::new_from_array(STAKING_CONTRACT_ID) {
        return Err(GovernanceConfigError::InvalidStakingContract);
    }
    if user_staking_account.staker != *user {
        return Err(GovernanceConfigError::UnauthorizedStaker);
    }
    let required_stake = match config.calculate_proposal_stake_requirement(proposer_history) {
        Ok(required_stake) => required_stake,
        Err(e) => {
            return Err(e);
        },
    };
    let has_sufficient_stake = user_staking_account.staked_amount >= required_stake;
    let days = whole_days_staked(user_staking_account.timestamp, now);
    let meets_duration_requirement = days >= config.parameter_bounds.min_stake_duration_days;
    let result = ProposalValidationResult {
        required_stake,
        has_sufficient_stake,
        meets_duration_requirement,
        can_propose: has_sufficient_stake && meets_duration_requirement,
    };
    let event = ProposalValidationPerformed {
        user: *user,
        required_stake,
        has_sufficient_stake,
        meets_duration_requirement,
        timestamp: now,
    };
    Ok((result, event))
}

} // verus!
