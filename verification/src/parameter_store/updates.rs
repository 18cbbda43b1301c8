//! The one path by which a tunable changes: who may change it, which values
//! the store takes, and what a change leaves behind.

use vstd::prelude::*;
use crate::errors::GovernanceConfigError;
use crate::identity::Pubkey;
use crate::parameter_store::{
    EmergencySettings, EmergencySettingsUpdated, ExecutionSettings, GovernanceConfig,
    GovernanceProposal, ParameterBounds, ParameterUpdateType, ParameterUpdated, ProposalSettings,
    ProposalStatus, ProposalType, TimeMultipliers, UpdateNotice, MAX_BATCH_UPDATES,
    MAX_TIME_MULTIPLIER, MIN_TIME_MULTIPLIER, TIME_MULTIPLIER_TIERS,
};

verus! {

impl GovernanceConfig {
    /// Whether the value that `update` carries lies within the bounds stored
    /// for the field it addresses. Emergency settings have no bounds.
    pub open spec fn within_bounds(&self, update: ParameterUpdateType) -> bool {
        let b = self.parameter_bounds;
        match update {
            ParameterUpdateType::QuorumThreshold { percentage } => b.min_quorum_percentage
                <= percentage <= b.max_quorum_percentage,
            ParameterUpdateType::VotingPeriod { hours } => b.min_voting_period_hours <= hours
                <= b.max_voting_period_hours,
            ParameterUpdateType::ProposalStake { amount } => b.min_proposal_stake_base <= amount
                <= b.max_proposal_stake_base,
            ParameterUpdateType::TimeMultiplier { tier, multiplier } => tier
                <= TIME_MULTIPLIER_TIERS && MIN_TIME_MULTIPLIER <= multiplier
                <= MAX_TIME_MULTIPLIER,
            ParameterUpdateType::TreasuryLimit { percentage } => percentage
                <= b.max_treasury_withdrawal_percentage,
            ParameterUpdateType::ExecutionDelay { hours } => b.min_execution_delay_hours <= hours
                <= b.max_execution_delay_hours,
            ParameterUpdateType::EmergencySettings { .. } => true,
        }
    }

    /// Whether the store takes `update`: its value is within bounds and it
    /// addresses a field that exists. The duration tiers are 1, 2, 3 and 4.
    pub open spec fn accepts(&self, update: ParameterUpdateType) -> bool {
        &&& self.within_bounds(update)
        &&& update matches ParameterUpdateType::TimeMultiplier { tier, .. } ==> tier >= 1
    }

    /// The store after `update` took effect at time `now`.
    pub open spec fn with_update(self, update: ParameterUpdateType, now: i64) -> GovernanceConfig {
        let touched = GovernanceConfig { last_updated: now, ..self };
        match update {
            ParameterUpdateType::QuorumThreshold { percentage } => GovernanceConfig {
                proposal_settings: ProposalSettings {
                    default_quorum_percentage: percentage,
                    ..self.proposal_settings
                },
                ..touched
            },
            ParameterUpdateType::VotingPeriod { hours } => GovernanceConfig {
                proposal_settings: ProposalSettings {
                    default_voting_period_hours: hours,
                    ..self.proposal_settings
                },
                ..touched
            },
            ParameterUpdateType::ProposalStake { amount } => GovernanceConfig {
                proposal_settings: ProposalSettings {
                    base_proposal_stake: amount,
                    ..self.proposal_settings
                },
                ..touched
            },
            ParameterUpdateType::TimeMultiplier { tier, multiplier } => GovernanceConfig {
                time_multipliers: if tier == 1 {
                    TimeMultipliers { tier_1_multiplier: multiplier, ..self.time_multipliers }
                } else if tier == 2 {
                    TimeMultipliers { tier_2_multiplier: multiplier, ..self.time_multipliers }
                } else if tier == 3 {
                    TimeMultipliers { tier_3_multiplier: multiplier, ..self.time_multipliers }
                } else {
                    TimeMultipliers { tier_4_multiplier: multiplier, ..self.time_multipliers }
                },
                ..touched
            },
            ParameterUpdateType::TreasuryLimit { percentage } => GovernanceConfig {
                parameter_bounds: ParameterBounds {
                    max_treasury_withdrawal_percentage: percentage,
                    ..self.parameter_bounds
                },
                ..touched
            },
            ParameterUpdateType::ExecutionDelay { hours } => GovernanceConfig {
                execution_settings: ExecutionSettings {
                    execution_grace_period_hours: hours,
                    ..self.execution_settings
                },
                ..touched
            },
            ParameterUpdateType::EmergencySettings { quorum_reduction, voting_period } =>
            GovernanceConfig {
                emergency_settings: EmergencySettings {
                    emergency_quorum_reduction: quorum_reduction,
                    emergency_voting_period_hours: voting_period,
                    ..self.emergency_settings
                },
                ..touched
            },
        }
    }

    /// Checks the value that `update` carries against the bounds stored for
    /// its field.
    pub fn validate_parameter_bounds(&self, update_type: &ParameterUpdateType) -> (r: Result<
        (),
        GovernanceConfigError,
    >)
        ensures
            self.within_bounds(*update_type) ==> r == Ok::<(), GovernanceConfigError>(()),
            !self.within_bounds(*update_type) ==> r == Err::<(), GovernanceConfigError>(
                GovernanceConfigError::InvalidParameterValue,
            ),
    {
        let bounds = &self.parameter_bounds;
        let within = match *update_type {
            ParameterUpdateType::QuorumThreshold { percentage } => percentage
                >= bounds.min_quorum_percentage && percentage <= bounds.max_quorum_percentage,
            ParameterUpdateType::VotingPeriod { hours } => hours >= bounds.min_voting_period_hours
                && hours <= bounds.max_voting_period_hours,
            ParameterUpdateType::ProposalStake { amount } => amount
                >= bounds.min_proposal_stake_base && amount <= bounds.max_proposal_stake_base,
            ParameterUpdateType::TimeMultiplier { tier, multiplier } => tier
                <= TIME_MULTIPLIER_TIERS && multiplier >= MIN_TIME_MULTIPLIER && multiplier
                <= MAX_TIME_MULTIPLIER,
            ParameterUpdateType::TreasuryLimit { percentage } => percentage
                <= bounds.max_treasury_withdrawal_percentage,
            ParameterUpdateType::ExecutionDelay { hours } => hours
                >= bounds.min_execution_delay_hours && hours <= bounds.max_execution_delay_hours,
            ParameterUpdateType::EmergencySettings { .. } => true,
        };
        if within {
            Ok(())
        } else {
            Err(GovernanceConfigError::InvalidParameterValue)
        }
    }

    /// Takes one update if the store accepts it, and leaves the store as it
    /// was if not. This is the only place where a tunable changes.
    pub fn apply_update(&mut self, update: ParameterUpdateType, now: i64) -> (r: Result<
        (),
        GovernanceConfigError,
    >)
        ensures
            old(self).well_formed() ==> final(self).well_formed(),
            old(self).accepts(update) ==> r == Ok::<(), GovernanceConfigError>(()) && *final(self)
                == old(self).with_update(update, now),
            !old(self).accepts(update) ==> r == Err::<(), GovernanceConfigError>(
                GovernanceConfigError::InvalidParameterValue,
            ) && *final(self) == *old(self),
    {
        match self.validate_parameter_bounds(&update) {
            Ok(()) => {},
            Err(e) => {
                return Err(e);
            },
        }
        match update {
            ParameterUpdateType::QuorumThreshold { percentage } => {
                self.proposal_settings.default_quorum_percentage = percentage;
            },
            ParameterUpdateType::VotingPeriod { hours } => {
                self.proposal_settings.default_voting_period_hours = hours;
            },
            ParameterUpdateType::ProposalStake { amount } => {
                self.proposal_settings.base_proposal_stake = amount;
            },
            ParameterUpdateType::TimeMultiplier { tier, multiplier } => {
                if tier == 1 {
                    self.time_multipliers.tier_1_multiplier = multiplier;
                } else if tier == 2 {
                    self.time_multipliers.tier_2_multiplier = multiplier;
                } else if tier == 3 {
                    self.time_multipliers.tier_3_multiplier = multiplier;
                } else if tier == 4 {
                    self.time_multipliers.tier_4_multiplier = multiplier;
                } else {
                    return Err(GovernanceConfigError::InvalidParameterValue);
                }
            },
            ParameterUpdateType::TreasuryLimit { percentage } => {
                self.parameter_bounds.max_treasury_withdrawal_percentage = percentage;
            },
            ParameterUpdateType::ExecutionDelay { hours } => {
                self.execution_settings.execution_grace_period_hours = hours;
            },
            ParameterUpdateType::EmergencySettings { quorum_reduction, voting_period } => {
                self.emergency_settings.emergency_quorum_reduction = quorum_reduction;
                self.emergency_settings.emergency_voting_period_hours = voting_period;
            },
        }
        self.last_updated = now;
        Ok(())
    }
}

/// Why a caller may not change the store, if so. The administrator may, and
/// so may anyone who attaches a proposal; whatever proposal is attached must
/// be an approved parameter update.
pub open spec fn authorization_failure(
    config: GovernanceConfig,
    caller: Pubkey,
    governance_proposal: Option<&GovernanceProposal>,
) -> Option<GovernanceConfigError> {
    match governance_proposal {
        None => if config.authority == caller {
            None
        } else {
            Some(GovernanceConfigError::Unauthorized)
        },
        Some(proposal) => if proposal.status != ProposalStatus::Approved {
            Some(GovernanceConfigError::ProposalNotApproved)
        } else if proposal.proposal_type != ProposalType::ParameterUpdate {
            Some(GovernanceConfigError::InvalidProposalType)
        } else {
            None
        },
    }
}

/// Why `update_governance_parameter` refuses, if it does.
pub open spec fn update_failure(
    config: GovernanceConfig,
    caller: Pubkey,
    governance_proposal: Option<&GovernanceProposal>,
    update: ParameterUpdateType,
) -> Option<GovernanceConfigError> {
    if authorization_failure(config, caller, governance_proposal) is Some {
        authorization_failure(config, caller, governance_proposal)
    } else if !config.accepts(update) {
        Some(GovernanceConfigError::InvalidParameterValue)
    } else {
        None
    }
}

/// The name under which a change to a bounded tunable is announced.
pub open spec fn parameter_name(update: ParameterUpdateType) -> Seq<char> {
    match update {
        ParameterUpdateType::QuorumThreshold { .. } => "quorum_threshold"@,
        ParameterUpdateType::ProposalStake { .. } => "proposal_stake"@,
        ParameterUpdateType::TimeMultiplier { .. } => "time_multiplier"@,
        ParameterUpdateType::VotingPeriod { .. } => "voting_period"@,
        ParameterUpdateType::TreasuryLimit { .. } => "treasury_limit"@,
        ParameterUpdateType::ExecutionDelay { .. } => "execution_delay"@,
        ParameterUpdateType::EmergencySettings { .. } => "emergency_settings"@,
    }
}

/// The value that `update` stores.
pub open spec fn announced_new_value(update: ParameterUpdateType) -> u64 {
    match update {
        ParameterUpdateType::QuorumThreshold { percentage } => percentage as u64,
        ParameterUpdateType::ProposalStake { amount } => amount,
        ParameterUpdateType::TimeMultiplier { multiplier, .. } => multiplier as u64,
        ParameterUpdateType::VotingPeriod { hours } => hours as u64,
        ParameterUpdateType::TreasuryLimit { percentage } => percentage as u64,
        ParameterUpdateType::ExecutionDelay { hours } => hours as u64,
        ParameterUpdateType::EmergencySettings { quorum_reduction, .. } => quorum_reduction as u64,
    }
}

/// The value that the announcement of `update` gives as the earlier one. For
/// a treasury limit this is the limit as it stands once the update is in.
pub open spec fn announced_old_value(before: GovernanceConfig, update: ParameterUpdateType) -> u64 {
    match update {
        ParameterUpdateType::QuorumThreshold { .. } =>
            before.proposal_settings.default_quorum_percentage as u64,
        ParameterUpdateType::ProposalStake { .. } => before.proposal_settings.base_proposal_stake,
        ParameterUpdateType::TimeMultiplier { tier, .. } => if tier == 1 {
            before.time_multipliers.tier_1_multiplier as u64
        } else if tier == 2 {
            before.time_multipliers.tier_2_multiplier as u64
        } else if tier == 3 {
            before.time_multipliers.tier_3_multiplier as u64
        } else {
            before.time_multipliers.tier_4_multiplier as u64
        },
        ParameterUpdateType::VotingPeriod { .. } =>
            before.proposal_settings.default_voting_period_hours as u64,
        ParameterUpdateType::TreasuryLimit { percentage } => percentage as u64,
        ParameterUpdateType::ExecutionDelay { .. } =>
            before.execution_settings.execution_grace_period_hours as u64,
        ParameterUpdateType::EmergencySettings { .. } =>
            before.emergency_settings.emergency_quorum_reduction as u64,
    }
}

/// Whether `notice` is what an accepted `update` by `caller` at time `now`
/// has to announce.
pub open spec fn announces(
    notice: UpdateNotice,
    before: GovernanceConfig,
    update: ParameterUpdateType,
    caller: Pubkey,
    now: i64,
) -> bool {
    match update {
        ParameterUpdateType::EmergencySettings { quorum_reduction, voting_period } => notice
            == UpdateNotice::Emergency(
            EmergencySettingsUpdated {
                quorum_reduction,
                voting_period,
                updated_by: caller,
                timestamp: now,
            },
        ),
        _ => {
            &&& notice matches UpdateNotice::Parameter(event)
            &&& event.parameter_type@ == parameter_name(update)
            &&& event.old_value == announced_old_value(before, update)
            &&& event.new_value == announced_new_value(update)
            &&& event.updated_by == caller
            &&& event.timestamp == now
        },
    }
}

/// Tells whether the caller may change the store.
pub fn authorize_update(
    config: &GovernanceConfig,
    caller: &Pubkey,
    governance_proposal: Option<&GovernanceProposal>,
) -> (r: Result<(), GovernanceConfigError>)
    ensures
        match r {
            Ok(()) => authorization_failure(*config, *caller, governance_proposal)
                is None,
            Err(e) => authorization_failure(*config, *caller, governance_proposal)
                == Some(e),
        },
{
    match governance_proposal {
        None => {
            if config.authority == *caller {
                Ok(())
            } else {
                Err(GovernanceConfigError::Unauthorized)
            }
        },
        Some(proposal) => {
            if proposal.status != ProposalStatus::Approved {
                Err(GovernanceConfigError::ProposalNotApproved)
            } else if proposal.proposal_type != ProposalType::ParameterUpdate {
                Err(GovernanceConfigError::InvalidProposalType)
            } else {
                Ok(())
            }
        },
    }
}

/// Changes one tunable on behalf of `caller`. The caller must be the
/// administrator or attach an approved parameter-update proposal, and the new
/// value must lie within the bounds stored for its field; otherwise the store
/// stays as it was.
pub fn update_governance_parameter(
    config: &mut GovernanceConfig,
    caller: &Pubkey,
    governance_proposal: Option<&GovernanceProposal>,
    update_type: ParameterUpdateType,
    now: i64,
) -> (r: Result<UpdateNotice, GovernanceConfigError>)
    ensures
        old(config).well_formed() ==> final(config).well_formed(),
        match r {
            Ok(notice) => {
                &&& update_failure(*old(config), *caller, governance_proposal, update_type)
                    is None
                &&& *final(config) == old(config).with_update(update_type, now)
                &&& announces(notice, *old(config), update_type, *caller, now)
            },
            Err(e) => {
                &&& update_failure(*old(config), *caller, governance_proposal, update_type)
                    == Some(e)
                &&& *final(config) == *old(config)
            },
        },
{
    match authorize_update(config, caller, governance_proposal) {
        Ok(()) => {},
        Err(e) => {
            return Err(e);
        },
    }
    let before = *config;
    match config.apply_update(update_type, now) {
        Ok(()) => {},
        Err(e) => {
            return Err(e);
        },
    }
    let notice = match update_type {
        ParameterUpdateType::EmergencySettings { quorum_reduction, voting_period } => {
            UpdateNotice::Emergency(
                EmergencySettingsUpdated {
                    quorum_reduction,
                    voting_period,
                    updated_by: *caller,
                    timestamp: now,
                },
            )
        },
        ParameterUpdateType::QuorumThreshold { percentage } => UpdateNotice::Parameter(
            ParameterUpdated {
                parameter_type: "quorum_threshold".to_owned(),
                old_value: before.proposal_settings.default_quorum_percentage as u64,
                new_value: percentage as u64,
                updated_by: *caller,
                timestamp: now,
            },
        ),
        ParameterUpdateType::ProposalStake { amount } => UpdateNotice::Parameter(
            ParameterUpdated {
                parameter_type: "proposal_stake".to_owned(),
                old_value: before.proposal_settings.base_proposal_stake,
                new_value: amount,
                updated_by: *caller,
                timestamp: now,
            },
        ),
        ParameterUpdateType::TimeMultiplier { tier, multiplier } => {
            let old_value = if tier == 1 {
                before.time_multipliers.tier_1_multiplier
            } else if tier == 2 {
                before.time_multipliers.tier_2_multiplier
            } else if tier == 3 {
                before.time_multipliers.tier_3_multiplier
            } else {
                before.time_multipliers.tier_4_multiplier
            };
            UpdateNotice::Parameter(
                ParameterUpdated {
                    parameter_type: "time_multiplier".to_owned(),
                    old_value: old_value as u64,
                    new_value: multiplier as u64,
                    updated_by: *caller,
                    timestamp: now,
                },
            )
        },
        ParameterUpdateType::VotingPeriod { hours } => UpdateNotice::Parameter(
            ParameterUpdated {
                parameter_type: "voting_period".to_owned(),
                old_value: before.proposal_settings.default_voting_period_hours as u64,
                new_value: hours as u64,
                updated_by: *caller,
                timestamp: now,
            },
        ),
        ParameterUpdateType::TreasuryLimit { percentage } => UpdateNotice::Parameter(
            ParameterUpdated {
                parameter_type: "treasury_limit".to_owned(),
                old_value: config.parameter_bounds.max_treasury_withdrawal_percentage as u64,
                new_value: percentage as u64,
                updated_by: *caller,
                timestamp: now,
            },
        ),
        ParameterUpdateType::ExecutionDelay { hours } => UpdateNotice::Parameter(
            ParameterUpdated {
                parameter_type: "execution_delay".to_owned(),
                old_value: before.execution_settings.execution_grace_period_hours as u64,
                new_value: hours as u64,
                updated_by: *caller,
                timestamp: now,
            },
        ),
    };
    Ok(notice)
}


/// The store after a whole batch took effect at time `now`, one update after
/// the other, or nothing where the store refuses one of them as it then
/// stands.
pub open spec fn batch_outcome(
    config: GovernanceConfig,
    updates: Seq<ParameterUpdateType>,
    now: i64,
) -> Option<GovernanceConfig>
    decreases updates.len(),
{
    if updates.len() == 0 {
        Some(config)
    } else if !config.accepts(updates[0]) {
        None
    } else {
        batch_outcome(config.with_update(updates[0], now), updates.drop_first(), now)
    }
}

/// Why `batch_update_parameters` refuses, if it does.
pub open spec fn batch_failure(
    config: GovernanceConfig,
    caller: Pubkey,
    governance_proposal: Option<&GovernanceProposal>,
    updates: Seq<ParameterUpdateType>,
    now: i64,
) -> Option<GovernanceConfigError> {
    if authorization_failure(config, caller, governance_proposal) is Some {
        authorization_failure(config, caller, governance_proposal)
    } else if updates.len() > MAX_BATCH_UPDATES {
        Some(GovernanceConfigError::TooManyBatchUpdates)
    } else if batch_outcome(config, updates, now) is None {
        Some(GovernanceConfigError::InvalidParameterValue)
    } else {
        None
    }
}

/// Changes several tunables at once on behalf of `caller`, who must be
/// authorized as for a single update. The updates take effect in their
/// order, each checked against the store as the earlier ones left it. If
/// the store refuses any of them, none takes effect.
pub fn batch_update_parameters(
    config: &mut GovernanceConfig,
    caller: &Pubkey,
    governance_proposal: Option<&GovernanceProposal>,
    updates: &Vec<ParameterUpdateType>,
    now: i64,
) -> (r: Result<(), GovernanceConfigError>)
    ensures
        old(config).well_formed() ==> final(config).well_formed(),
        match r {
            Ok(()) => {
                &&& batch_failure(*old(config), *caller, governance_proposal, updates@, now) is None
                &&& Some(*final(config)) == batch_outcome(*old(config), updates@, now)
            },
            Err(e) => {
                &&& batch_failure(*old(config), *caller, governance_proposal, updates@, now)
                    == Some(e)
                &&& *final(config) == *old(config)
            },
        },
{
    match authorize_update(config, caller, governance_proposal) {
        Ok(()) => {},
        Err(e) => {
            return Err(e);
        },
    }
    if updates.len() > MAX_BATCH_UPDATES {
        return Err(GovernanceConfigError::TooManyBatchUpdates);
    }
    let mut working = *config;
    let mut i: usize = 0;
    assert(updates@.skip(0) =~= updates@);
    while i < updates.len()
        invariant
            i <= updates.len(),
            updates.len() <= MAX_BATCH_UPDATES,
            *config == *old(config),
            config.well_formed() ==> working.well_formed(),
            authorization_failure(*config, *caller, governance_proposal) is None,
            batch_outcome(*config, updates@, now) == batch_outcome(
                working,
                updates@.skip(i as int),
                now,
            ),
        decreases updates.len() - i,
    {
        let ghost rest = updates@.skip(i as int);
        assert(rest.len() > 0 && rest[0] == updates@[i as int]);
        assert(rest.drop_first() =~= updates@.skip(i + 1));
        match working.apply_update(updates[i], now) {
            Ok(()) => {},
            Err(e) => {
                assert(batch_outcome(*config, updates@, now) is None);
                return Err(e);
            },
        }
        i = i + 1;
    }
    assert(updates@.skip(i as int).len() == 0);
    *config = working;
    Ok(())
}

/// An update whose value lies outside the bounds stored for its field is
/// refused, whoever asks.
pub proof fn lemma_out_of_bounds_update_is_refused(
    config: GovernanceConfig,
    caller: Pubkey,
    governance_proposal: Option<&GovernanceProposal>,
    update: ParameterUpdateType,
)
    requires
        !config.within_bounds(update),
    ensures
        update_failure(config, caller, governance_proposal, update) is Some,
        authorization_failure(config, caller, governance_proposal) is None ==> update_failure(
            config,
            caller,
            governance_proposal,
            update,
        ) == Some(GovernanceConfigError::InvalidParameterValue),
{
}

/// An accepted update keeps every tunable within its bounds.
pub proof fn lemma_update_keeps_bounds(config: GovernanceConfig, update: ParameterUpdateType, now: i64)
    requires
        config.well_formed(),
        config.accepts(update),
    ensures
        config.with_update(update, now).well_formed(),
{
}

/// An accepted batch keeps every tunable within its bounds.
pub proof fn lemma_batch_keeps_bounds(
    config: GovernanceConfig,
    updates: Seq<ParameterUpdateType>,
    now: i64,
)
    requires
        config.well_formed(),
        batch_outcome(config, updates, now) is Some,
    ensures
        batch_outcome(config, updates, now)->0.well_formed(),
    decreases updates.len(),
{
    if updates.len() > 0 {
        lemma_update_keeps_bounds(config, updates[0], now);
        lemma_batch_keeps_bounds(config.with_update(updates[0], now), updates.drop_first(), now);
    }
}

/// A batch of one update does what the update alone does.
pub proof fn lemma_batch_of_one(config: GovernanceConfig, update: ParameterUpdateType, now: i64)
    ensures
        batch_outcome(config, seq![update], now) == if config.accepts(update) {
            Some(config.with_update(update, now))
        } else {
            None
        },
{
    let updates = seq![update];
    assert(updates.drop_first().len() == 0);
    assert(batch_outcome(config.with_update(update, now), updates.drop_first(), now) == Some(
        config.with_update(update, now),
    ));
}

} // verus!
