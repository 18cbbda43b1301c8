//! The governance parameter store: every tunable with the bounds it must stay
//! within.

use vstd::prelude::*;
use crate::errors::GovernanceConfigError;
use crate::identity::{Pubkey, STAKING_CONTRACT_ID};
pub use crate::staking::{StakingPool, UserStakingAccount};

pub mod eligibility;
pub mod emergency;
pub mod updates;

pub use self::eligibility::{get_voting_power_with_config, validate_proposal_requirements};
pub use self::emergency::toggle_emergency_mode;
pub use self::updates::{batch_update_parameters, update_governance_parameter};

verus! {


/// The most updates one batch may carry.
pub const MAX_BATCH_UPDATES: usize = 10;

/// The number of duration tiers.
pub const TIME_MULTIPLIER_TIERS: u8 = 4;

/// The smallest multiplier a duration tier may have, in hundredths.
pub const MIN_TIME_MULTIPLIER: u16 = 100;

/// The largest multiplier a duration tier may have, in hundredths.
pub const MAX_TIME_MULTIPLIER: u16 = 500;

/// The range each tunable must stay within. Percentages are in hundredths of
/// a percent.
#[derive(Clone, Copy, Debug, PartialEq, Eq, Structural)]
pub struct ParameterBounds {
    pub min_quorum_percentage: u16,
    pub max_quorum_percentage: u16,
    pub min_proposal_stake_base: u64,
    pub max_proposal_stake_base: u64,
    pub min_voting_period_hours: u32,
    pub max_voting_period_hours: u32,
    pub min_execution_delay_hours: u32,
    pub max_execution_delay_hours: u32,
    pub min_stake_duration_days: u32,
    pub max_treasury_withdrawal_percentage: u16,
    pub spam_prevention_cooldown_hours: u32,
}

impl ParameterBounds {
    /// The bounds a new store starts with.
    pub open spec fn initial() -> ParameterBounds {
        ParameterBounds {
            min_quorum_percentage: 1000,
            max_quorum_percentage: 7000,
            min_proposal_stake_base: 1_000_000_000,
            max_proposal_stake_base: 100_000_000_000,
            min_voting_period_hours: 24,
            max_voting_period_hours: 168,
            min_execution_delay_hours: 6,
            max_execution_delay_hours: 72,
            min_stake_duration_days: 1,
            max_treasury_withdrawal_percentage: 1000,
            spam_prevention_cooldown_hours: 24,
        }
    }
}

impl Default for ParameterBounds {
    fn default() -> (r: ParameterBounds)
        ensures
            r == ParameterBounds::initial(),
    {
        ParameterBounds {
            min_quorum_percentage: 1000,
            max_quorum_percentage: 7000,
            min_proposal_stake_base: 1_000_000_000,
            max_proposal_stake_base: 100_000_000_000,
            min_voting_period_hours: 24,
            max_voting_period_hours: 168,
            min_execution_delay_hours: 6,
            max_execution_delay_hours: 72,
            min_stake_duration_days: 1,
            max_treasury_withdrawal_percentage: 1000,
            spam_prevention_cooldown_hours: 24,
        }
    }
}

/// The duration tiers of the voting-power formula. A stake younger than
/// `tier_1_days` earns `tier_1_multiplier`, one younger than `tier_2_days`
/// earns `tier_2_multiplier`, one younger than `tier_3_days` earns
/// `tier_3_multiplier`, and any older one `tier_4_multiplier`: the last tier
/// has no end. Multipliers are in hundredths.
#[derive(Clone, Copy, Debug, PartialEq, Eq, Structural)]
pub struct TimeMultipliers {
    pub tier_1_days: u32,
    pub tier_1_multiplier: u16,
    pub tier_2_days: u32,
    pub tier_2_multiplier: u16,
    pub tier_3_days: u32,
    pub tier_3_multiplier: u16,
    pub tier_4_multiplier: u16,
}

impl TimeMultipliers {
    /// The tiers a new store starts with: 1.0 below 30 days, 1.2 from 30 to
    /// below 90 days, 1.5 from 90 to below 365 days, 2.0 from 365 days on.
    pub open spec fn initial() -> TimeMultipliers {
        TimeMultipliers {
            tier_1_days: 30,
            tier_1_multiplier: 100,
            tier_2_days: 90,
            tier_2_multiplier: 120,
            tier_3_days: 365,
            tier_3_multiplier: 150,
            tier_4_multiplier: 200,
        }
    }

    /// The multiplier that a stake of this age earns.
    pub open spec fn multiplier_for(&self, stake_duration_days: nat) -> nat {
        if stake_duration_days >= self.tier_3_days {
            self.tier_4_multiplier as nat
        } else if stake_duration_days >= self.tier_2_days {
            self.tier_3_multiplier as nat
        } else if stake_duration_days >= self.tier_1_days {
            self.tier_2_multiplier as nat
        } else {
            self.tier_1_multiplier as nat
        }
    }

    /// Whether an older stake never earns a smaller multiplier.
    pub open spec fn rewards_age(&self) -> bool {
        self.tier_1_multiplier <= self.tier_2_multiplier <= self.tier_3_multiplier
            <= self.tier_4_multiplier
    }
}

impl Default for TimeMultipliers {
    fn default() -> (r: TimeMultipliers)
        ensures
            r == TimeMultipliers::initial(),
    {
        TimeMultipliers {
            tier_1_days: 30,
            tier_1_multiplier: 100,
            tier_2_days: 90,
            tier_2_multiplier: 120,
            tier_3_days: 365,
            tier_3_multiplier: 150,
            tier_4_multiplier: 200,
        }
    }
}

/// The tiers a new store starts with never let an older stake earn less.
pub proof fn lemma_initial_tiers_reward_age()
    ensures
        TimeMultipliers::initial().rewards_age(),
{
}

/// What a proposal costs and how it is decided by default.
#[derive(Clone, Copy, Debug, PartialEq, Eq, Structural)]
pub struct ProposalSettings {
    pub base_proposal_stake: u64,
    pub stake_escalation_factor: u16,
    pub max_escalation_multiplier: u16,
    pub default_quorum_percentage: u16,
    pub default_voting_period_hours: u32,
    pub proposal_fee_percentage: u16,
    pub refund_threshold_percentage: u16,
    pub max_concurrent_proposals: u8,
}

impl ProposalSettings {
    /// The settings a new store starts with.
    pub open spec fn initial() -> ProposalSettings {
        ProposalSettings {
            base_proposal_stake: 5_000_000_000,
            stake_escalation_factor: 150,
            max_escalation_multiplier: 500,
            default_quorum_percentage: 2000,
            default_voting_period_hours: 72,
            proposal_fee_percentage: 100,
            refund_threshold_percentage: 3000,
            max_concurrent_proposals: 3,
        }
    }
}

impl Default for ProposalSettings {
    fn default() -> (r: ProposalSettings)
        ensures
            r == ProposalSettings::initial(),
    {
        ProposalSettings {
            base_proposal_stake: 5_000_000_000,
            stake_escalation_factor: 150,
            max_escalation_multiplier: 500,
            default_quorum_percentage: 2000,
            default_voting_period_hours: 72,
            proposal_fee_percentage: 100,
            refund_threshold_percentage: 3000,
            max_concurrent_proposals: 3,
        }
    }
}

/// How passed proposals are carried out.
#[derive(Clone, Copy, Debug, PartialEq, Eq, Structural)]
pub struct ExecutionSettings {
    pub treasury_threshold_for_multisig: u64,
    pub multisig_required_approvals: u8,
    pub auto_execution_enabled: bool,
    pub execution_grace_period_hours: u32,
}

impl ExecutionSettings {
    /// The settings a new store starts with.
    pub open spec fn initial() -> ExecutionSettings {
        ExecutionSettings {
            treasury_threshold_for_multisig: 100_000_000_000,
            multisig_required_approvals: 3,
            auto_execution_enabled: true,
            execution_grace_period_hours: 48,
        }
    }
}

impl Default for ExecutionSettings {
    fn default() -> (r: ExecutionSettings)
        ensures
            r == ExecutionSettings::initial(),
    {
        ExecutionSettings {
            treasury_threshold_for_multisig: 100_000_000_000,
            multisig_required_approvals: 3,
            auto_execution_enabled: true,
            execution_grace_period_hours: 48,
        }
    }
}

/// The emergency override and who else may switch it.
#[derive(Clone, Copy, Debug, PartialEq, Eq)]
pub struct EmergencySettings {
    pub emergency_multisig: Pubkey,
    pub emergency_override_enabled: bool,
    pub emergency_quorum_reduction: u16,
    pub emergency_voting_period_hours: u32,
    pub emergency_cooldown_hours: u32,
}

impl EmergencySettings {
    /// Whether these are the settings a new store starts with: no emergency
    /// actor, the override off.
    pub open spec fn is_initial(&self) -> bool {
        &&& self.emergency_multisig.is_unset()
        &&& !self.emergency_override_enabled
        &&& self.emergency_quorum_reduction == 2000
        &&& self.emergency_voting_period_hours == 12
        &&& self.emergency_cooldown_hours == 168
    }
}

impl Default for EmergencySettings {
    fn default() -> (r: EmergencySettings)
        ensures
            r.is_initial(),
    {
        EmergencySettings {
            emergency_multisig: Pubkey::default(),
            emergency_override_enabled: false,
            emergency_quorum_reduction: 2000,
            emergency_voting_period_hours: 12,
            emergency_cooldown_hours: 168,
        }
    }
}

/// One change to one tunable.
#[derive(Clone, Copy, Debug, PartialEq, Eq, Structural)]
pub enum ParameterUpdateType {
    QuorumThreshold { percentage: u16 },
    ProposalStake { amount: u64 },
    TimeMultiplier { tier: u8, multiplier: u16 },
    VotingPeriod { hours: u32 },
    EmergencySettings { quorum_reduction: u16, voting_period: u32 },
    TreasuryLimit { percentage: u16 },
    ExecutionDelay { hours: u32 },
}

/// What a proposal known to the parameter store asks for.
#[derive(Clone, Copy, Debug, PartialEq, Eq, Structural)]
pub enum ProposalType {
    ParameterUpdate,
    TreasuryWithdrawal,
    Emergency,
    TextProposal,
}

/// Where a proposal known to the parameter store stands.
#[derive(Clone, Copy, Debug, PartialEq, Eq, Structural)]
pub enum ProposalStatus {
    Active,
    Approved,
    Rejected,
    Executed,
    Cancelled,
}

/// A proposal as the parameter store sees it.
#[derive(Clone, Copy, Debug, PartialEq, Eq)]
pub struct GovernanceProposal {
    pub id: u64,
    pub proposer: Pubkey,
    pub proposal_type: ProposalType,
    pub status: ProposalStatus,
    pub votes_for: u64,
    pub votes_against: u64,
    pub created_at: i64,
    pub voting_ends_at: i64,
    pub executed_at: i64,
    pub bump: u8,
}

/// The store itself: one record that holds every tunable.
#[derive(Clone, Copy, Debug, PartialEq, Eq)]
pub struct GovernanceConfig {
    pub authority: Pubkey,
    pub staking_pool: Pubkey,
    pub staking_contract: Pubkey,
    pub parameter_bounds: ParameterBounds,
    pub time_multipliers: TimeMultipliers,
    pub proposal_settings: ProposalSettings,
    pub execution_settings: ExecutionSettings,
    pub emergency_settings: EmergencySettings,
    pub version: u8,
    pub created_at: i64,
    pub last_updated: i64,
    pub bump: u8,
}

/// Tells that a store was set up.
#[derive(Clone, Copy, Debug, PartialEq, Eq)]
pub struct GovernanceConfigInitialized {
    pub authority: Pubkey,
    pub staking_pool: Pubkey,
    pub timestamp: i64,
}

/// Tells that a tunable changed.
#[derive(Clone, Debug, PartialEq, Eq)]
pub struct ParameterUpdated {
    pub parameter_type: String,
    pub old_value: u64,
    pub new_value: u64,
    pub updated_by: Pubkey,
    pub timestamp: i64,
}

/// Tells that the emergency settings changed.
#[derive(Clone, Copy, Debug, PartialEq, Eq)]
pub struct EmergencySettingsUpdated {
    pub quorum_reduction: u16,
    pub voting_period: u32,
    pub updated_by: Pubkey,
    pub timestamp: i64,
}

/// Tells that a participant's voting power was computed.
#[derive(Clone, Copy, Debug, PartialEq, Eq)]
pub struct VotingPowerCalculated {
    pub user: Pubkey,
    pub voting_power: u64,
    pub stake_amount: u64,
    pub stake_duration_days: u32,
    pub timestamp: i64,
}

/// Tells that a participant was checked against the proposal requirements.
#[derive(Clone, Copy, Debug, PartialEq, Eq)]
pub struct ProposalValidationPerformed {
    pub user: Pubkey,
    pub required_stake: u64,
    pub has_sufficient_stake: bool,
    pub meets_duration_requirement: bool,
    pub timestamp: i64,
}

/// Tells that emergency mode was switched.
#[derive(Clone, Copy, Debug, PartialEq, Eq)]
pub struct EmergencyModeToggled {
    pub enabled: bool,
    pub triggered_by: Pubkey,
    pub timestamp: i64,
}

/// What an accepted update has to announce.
#[derive(Clone, Debug, PartialEq, Eq)]
pub enum UpdateNotice {
    Parameter(ParameterUpdated),
    Emergency(EmergencySettingsUpdated),
}

/// Whether a participant may propose, and what it would take.
#[derive(Clone, Copy, Debug, PartialEq, Eq, Structural)]
pub struct ProposalValidationResult {
    pub required_stake: u64,
    pub has_sufficient_stake: bool,
    pub meets_duration_requirement: bool,
    pub can_propose: bool,
}

impl GovernanceConfig {
    /// Whether every tunable lies within the bounds stored for it.
    pub open spec fn well_formed(&self) -> bool {
        let b = self.parameter_bounds;
        let p = self.proposal_settings;
        let t = self.time_multipliers;
        &&& b.min_quorum_percentage <= p.default_quorum_percentage <= b.max_quorum_percentage
        &&& b.min_proposal_stake_base <= p.base_proposal_stake <= b.max_proposal_stake_base
        &&& b.min_voting_period_hours <= p.default_voting_period_hours
            <= b.max_voting_period_hours
        &&& b.min_execution_delay_hours <= self.execution_settings.execution_grace_period_hours
            <= b.max_execution_delay_hours
        &&& MIN_TIME_MULTIPLIER <= t.tier_1_multiplier <= MAX_TIME_MULTIPLIER
        &&& MIN_TIME_MULTIPLIER <= t.tier_2_multiplier <= MAX_TIME_MULTIPLIER
        &&& MIN_TIME_MULTIPLIER <= t.tier_3_multiplier <= MAX_TIME_MULTIPLIER
        &&& MIN_TIME_MULTIPLIER <= t.tier_4_multiplier <= MAX_TIME_MULTIPLIER
    }
}

/// The store as it stands right after it was set up at time `now`: every
/// tunable at its default.
pub open spec fn is_new_store(
    config: GovernanceConfig,
    authority: Pubkey,
    staking_pool: Pubkey,
    bump: u8,
    now: i64,
) -> bool {
    &&& config.authority == authority
    &&& config.staking_pool == staking_pool
    &&& config.staking_contract.has_bytes(STAKING_CONTRACT_ID)
    &&& config.parameter_bounds == ParameterBounds::initial()
    &&& config.time_multipliers == TimeMultipliers::initial()
    &&& config.proposal_settings == ProposalSettings::initial()
    &&& config.execution_settings == ExecutionSettings::initial()
    &&& config.emergency_settings.is_initial()
    &&& config.version == 1
    &&& config.created_at == now
    &&& config.last_updated == now
    &&& config.bump == bump
}

/// Sets up the store for the staking pool `staking_pool`, which must be a
/// record of the staking program.
pub fn initialize_governance_config(
    authority: Pubkey,
    staking_pool: Pubkey,
    staking_pool_owner: &Pubkey,
    bump: u8,
    now: i64,
) -> (r: Result<(GovernanceConfig, GovernanceConfigInitialized), GovernanceConfigError>)
    ensures
        match r {
            Ok((config, event)) => {
                &&& staking_pool_owner.has_bytes(STAKING_CONTRACT_ID)
                &&& is_new_store(config, authority, staking_pool, bump, now)
                &&& config.well_formed()
                &&& event == (GovernanceConfigInitialized {
                    authority,
                    staking_pool,
                    timestamp: now,
                })
            },
            Err(e) => {
                &&& e == GovernanceConfigError::InvalidStakingContract
                &&& !staking_pool_owner.has_bytes(STAKING_CONTRACT_ID)
            },
        },
{
    let staking_contract = Pubkey::new_from_array(STAKING_CONTRACT_ID);
    if *staking_pool_owner != staking_contract {
        return Err(GovernanceConfigError::InvalidStakingContract);
    }
    let config = GovernanceConfig {
        authority,
        staking_pool,
        staking_contract,
        parameter_bounds: ParameterBounds::default(),
        time_multipliers: TimeMultipliers::default(),
        proposal_settings: ProposalSettings::default(),
        execution_settings: ExecutionSettings::default(),
        emergency_settings: EmergencySettings::default(),
        version: 1,
        created_at: now,
        last_updated: now,
        bump,
    };
    Ok((config, GovernanceConfigInitialized { authority, staking_pool, timestamp: now }))
}

} // verus!
