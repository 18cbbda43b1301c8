use stake_governance::errors::GovernanceConfigError;
use stake_governance::identity::{Pubkey, STAKING_CONTRACT_ID};
use stake_governance::parameter_store::updates::authorize_update;
use stake_governance::parameter_store::{
    batch_update_parameters, get_voting_power_with_config, initialize_governance_config,
    toggle_emergency_mode, update_governance_parameter, validate_proposal_requirements,
    EmergencyModeToggled, EmergencySettings, EmergencySettingsUpdated, ExecutionSettings,
    GovernanceConfig, GovernanceConfigInitialized, GovernanceProposal, ParameterBounds,
    ParameterUpdateType, ParameterUpdated, ProposalSettings, ProposalStatus, ProposalType,
    ProposalValidationPerformed, ProposalValidationResult, TimeMultipliers, UpdateNotice,
    UserStakingAccount, VotingPowerCalculated, MAX_BATCH_UPDATES,
};

const TOKEN: u64 = 1_000_000;
const DAY: i64 = 86_400;

fn key(byte: u8) -> Pubkey {
    Pubkey::new_from_array([byte; 32])
}

fn staking_program() -> Pubkey {
    Pubkey::new_from_array(STAKING_CONTRACT_ID)
}

fn admin() -> Pubkey {
    key(50)
}

fn store() -> GovernanceConfig {
    initialize_governance_config(admin(), key(60), &staking_program(), 4, 1_000).unwrap().0
}

fn proposal(status: ProposalStatus, proposal_type: ProposalType) -> GovernanceProposal {
    GovernanceProposal {
        id: 5,
        proposer: key(70),
        proposal_type,
        status,
        votes_for: 10,
        votes_against: 2,
        created_at: 100,
        voting_ends_at: 200,
        executed_at: 0,
        bump: 1,
    }
}

fn approved_update() -> GovernanceProposal {
    proposal(ProposalStatus::Approved, ProposalType::ParameterUpdate)
}

fn position(staker: Pubkey, amount: u64, since: i64) -> UserStakingAccount {
    UserStakingAccount { staker, staked_amount: amount, timestamp: since, last_updated: since, bump: 7 }
}

fn announced(name: &str, old_value: u64, new_value: u64, by: Pubkey, at: i64) -> UpdateNotice {
    UpdateNotice::Parameter(ParameterUpdated {
        parameter_type: String::from(name),
        old_value,
        new_value,
        updated_by: by,
        timestamp: at,
    })
}

#[test]
fn a_new_store_holds_the_defaults() {
    let (config, event) =
        initialize_governance_config(admin(), key(60), &staking_program(), 4, 1_000).unwrap();
    assert_eq!(
        event,
        GovernanceConfigInitialized { authority: admin(), staking_pool: key(60), timestamp: 1_000 }
    );
    assert_eq!(
        config,
        GovernanceConfig {
            authority: admin(),
            staking_pool: key(60),
            staking_contract: staking_program(),
            parameter_bounds: ParameterBounds {
                min_quorum_percentage: 1000,
                max_quorum_percentage: 7000,
                min_proposal_stake_base: 1_000 * TOKEN,
                max_proposal_stake_base: 100_000 * TOKEN,
                min_voting_period_hours: 24,
                max_voting_period_hours: 168,
                min_execution_delay_hours: 6,
                max_execution_delay_hours: 72,
                min_stake_duration_days: 1,
                max_treasury_withdrawal_percentage: 1000,
                spam_prevention_cooldown_hours: 24,
            },
            time_multipliers: TimeMultipliers {
                tier_1_days: 30,
                tier_1_multiplier: 100,
                tier_2_days: 90,
                tier_2_multiplier: 120,
                tier_3_days: 365,
                tier_3_multiplier: 150,
                tier_4_multiplier: 200,
            },
            proposal_settings: ProposalSettings {
                base_proposal_stake: 5_000 * TOKEN,
                stake_escalation_factor: 150,
                max_escalation_multiplier: 500,
                default_quorum_percentage: 2000,
                default_voting_period_hours: 72,
                proposal_fee_percentage: 100,
                refund_threshold_percentage: 3000,
                max_concurrent_proposals: 3,
            },
            execution_settings: ExecutionSettings {
                treasury_threshold_for_multisig: 100_000 * TOKEN,
                multisig_required_approvals: 3,
                auto_execution_enabled: true,
                execution_grace_period_hours: 48,
            },
            emergency_settings: EmergencySettings {
                emergency_multisig: Pubkey::default(),
                emergency_override_enabled: false,
                emergency_quorum_reduction: 2000,
                emergency_voting_period_hours: 12,
                emergency_cooldown_hours: 168,
            },
            version: 1,
            created_at: 1_000,
            last_updated: 1_000,
            bump: 4,
        }
    );
    assert_eq!(ParameterBounds::default(), config.parameter_bounds);
    assert_eq!(TimeMultipliers::default(), config.time_multipliers);
    assert_eq!(ProposalSettings::default(), config.proposal_settings);
    assert_eq!(ExecutionSettings::default(), config.execution_settings);
    assert_eq!(EmergencySettings::default(), config.emergency_settings);
}

#[test]
fn a_store_needs_a_pool_of_the_staking_program() {
    assert_eq!(
        initialize_governance_config(admin(), key(60), &key(61), 4, 1_000),
        Err(GovernanceConfigError::InvalidStakingContract)
    );
}

#[test]
fn the_administrator_changes_each_tunable_within_its_bounds() {
    let mut config = store();
    let mut expected = store();

    let notice = update_governance_parameter(
        &mut config,
        &admin(),
        None,
        ParameterUpdateType::QuorumThreshold { percentage: 7000 },
        2_000,
    );
    expected.proposal_settings.default_quorum_percentage = 7000;
    expected.last_updated = 2_000;
    assert_eq!(notice, Ok(announced("quorum_threshold", 2000, 7000, admin(), 2_000)));
    assert_eq!(config, expected);

    let notice = update_governance_parameter(
        &mut config,
        &admin(),
        None,
        ParameterUpdateType::ProposalStake { amount: 1_000 * TOKEN },
        2_001,
    );
    expected.proposal_settings.base_proposal_stake = 1_000 * TOKEN;
    expected.last_updated = 2_001;
    assert_eq!(
        notice,
        Ok(announced("proposal_stake", 5_000 * TOKEN, 1_000 * TOKEN, admin(), 2_001))
    );
    assert_eq!(config, expected);

    let notice = update_governance_parameter(
        &mut config,
        &admin(),
        None,
        ParameterUpdateType::VotingPeriod { hours: 24 },
        2_002,
    );
    expected.proposal_settings.default_voting_period_hours = 24;
    expected.last_updated = 2_002;
    assert_eq!(notice, Ok(announced("voting_period", 72, 24, admin(), 2_002)));
    assert_eq!(config, expected);

    let notice = update_governance_parameter(
        &mut config,
        &admin(),
        None,
        ParameterUpdateType::ExecutionDelay { hours: 72 },
        2_003,
    );
    expected.execution_settings.execution_grace_period_hours = 72;
    expected.last_updated = 2_003;
    assert_eq!(notice, Ok(announced("execution_delay", 48, 72, admin(), 2_003)));
    assert_eq!(config, expected);

    let notice = update_governance_parameter(
        &mut config,
        &admin(),
        None,
        ParameterUpdateType::TreasuryLimit { percentage: 400 },
        2_004,
    );
    expected.parameter_bounds.max_treasury_withdrawal_percentage = 400;
    expected.last_updated = 2_004;
    assert_eq!(notice, Ok(announced("treasury_limit", 400, 400, admin(), 2_004)));
    assert_eq!(config, expected);

    let notice = update_governance_parameter(
        &mut config,
        &admin(),
        None,
        ParameterUpdateType::EmergencySettings { quorum_reduction: 65_535, voting_period: 0 },
        2_005,
    );
    expected.emergency_settings.emergency_quorum_reduction = 65_535;
    expected.emergency_settings.emergency_voting_period_hours = 0;
    expected.last_updated = 2_005;
    assert_eq!(
        notice,
        Ok(UpdateNotice::Emergency(EmergencySettingsUpdated {
            quorum_reduction: 65_535,
            voting_period: 0,
            updated_by: admin(),
            timestamp: 2_005,
        }))
    );
    assert_eq!(config, expected);
}

#[test]
fn each_tier_has_its_own_multiplier() {
    let mut config = store();
    let mut expected = store();
    let notice = update_governance_parameter(
        &mut config,
        &admin(),
        None,
        ParameterUpdateType::TimeMultiplier { tier: 1, multiplier: 110 },
        2_000,
    );
    expected.time_multipliers.tier_1_multiplier = 110;
    expected.last_updated = 2_000;
    assert_eq!(notice, Ok(announced("time_multiplier", 100, 110, admin(), 2_000)));
    assert_eq!(config, expected);
    let notice = update_governance_parameter(
        &mut config,
        &admin(),
        None,
        ParameterUpdateType::TimeMultiplier { tier: 2, multiplier: 500 },
        2_001,
    );
    expected.time_multipliers.tier_2_multiplier = 500;
    expected.last_updated = 2_001;
    assert_eq!(notice, Ok(announced("time_multiplier", 120, 500, admin(), 2_001)));
    assert_eq!(config, expected);
    let notice = update_governance_parameter(
        &mut config,
        &admin(),
        None,
        ParameterUpdateType::TimeMultiplier { tier: 3, multiplier: 300 },
        2_002,
    );
    expected.time_multipliers.tier_3_multiplier = 300;
    expected.last_updated = 2_002;
    assert_eq!(notice, Ok(announced("time_multiplier", 150, 300, admin(), 2_002)));
    assert_eq!(config, expected);
    let notice = update_governance_parameter(
        &mut config,
        &admin(),
        None,
        ParameterUpdateType::TimeMultiplier { tier: 4, multiplier: 100 },
        2_003,
    );
    expected.time_multipliers.tier_4_multiplier = 100;
    expected.last_updated = 2_003;
    assert_eq!(notice, Ok(announced("time_multiplier", 200, 100, admin(), 2_003)));
    assert_eq!(config, expected);
    assert_eq!(expected.time_multipliers.tier_1_days, 30);
    assert_eq!(expected.time_multipliers.tier_2_days, 90);
    assert_eq!(expected.time_multipliers.tier_3_days, 365);
}

#[test]
fn a_value_outside_its_bounds_is_refused_and_the_store_stays() {
    let refused = [
        ParameterUpdateType::QuorumThreshold { percentage: 999 },
        ParameterUpdateType::QuorumThreshold { percentage: 7001 },
        ParameterUpdateType::QuorumThreshold { percentage: 0 },
        ParameterUpdateType::ProposalStake { amount: 1_000 * TOKEN - 1 },
        ParameterUpdateType::ProposalStake { amount: 100_000 * TOKEN + 1 },
        ParameterUpdateType::ProposalStake { amount: u64::MAX },
        ParameterUpdateType::TimeMultiplier { tier: 1, multiplier: 99 },
        ParameterUpdateType::TimeMultiplier { tier: 2, multiplier: 501 },
        ParameterUpdateType::TimeMultiplier { tier: 0, multiplier: 200 },
        ParameterUpdateType::TimeMultiplier { tier: 5, multiplier: 200 },
        ParameterUpdateType::TimeMultiplier { tier: 255, multiplier: 200 },
        ParameterUpdateType::TimeMultiplier { tier: 4, multiplier: 99 },
        ParameterUpdateType::TimeMultiplier { tier: 4, multiplier: 501 },
        ParameterUpdateType::VotingPeriod { hours: 23 },
        ParameterUpdateType::VotingPeriod { hours: 169 },
        ParameterUpdateType::TreasuryLimit { percentage: 1001 },
        ParameterUpdateType::ExecutionDelay { hours: 5 },
        ParameterUpdateType::ExecutionDelay { hours: 73 },
    ];
    for update in refused {
        let mut config = store();
        assert_eq!(
            update_governance_parameter(&mut config, &admin(), None, update, 2_000),
            Err(GovernanceConfigError::InvalidParameterValue)
        );
        assert_eq!(config, store());
        assert_eq!(
            update_governance_parameter(&mut config, &key(1), Some(&approved_update()), update, 2_000),
            Err(GovernanceConfigError::InvalidParameterValue)
        );
        assert_eq!(config, store());
        assert_eq!(
            config.apply_update(update, 2_000),
            Err(GovernanceConfigError::InvalidParameterValue)
        );
        assert_eq!(config, store());
    }
}

#[test]
fn the_bounds_themselves_are_allowed() {
    let accepted = [
        ParameterUpdateType::QuorumThreshold { percentage: 1000 },
        ParameterUpdateType::QuorumThreshold { percentage: 7000 },
        ParameterUpdateType::ProposalStake { amount: 1_000 * TOKEN },
        ParameterUpdateType::ProposalStake { amount: 100_000 * TOKEN },
        ParameterUpdateType::TimeMultiplier { tier: 1, multiplier: 100 },
        ParameterUpdateType::TimeMultiplier { tier: 3, multiplier: 500 },
        ParameterUpdateType::TimeMultiplier { tier: 4, multiplier: 100 },
        ParameterUpdateType::TimeMultiplier { tier: 4, multiplier: 500 },
        ParameterUpdateType::VotingPeriod { hours: 24 },
        ParameterUpdateType::VotingPeriod { hours: 168 },
        ParameterUpdateType::TreasuryLimit { percentage: 1000 },
        ParameterUpdateType::TreasuryLimit { percentage: 0 },
        ParameterUpdateType::ExecutionDelay { hours: 6 },
        ParameterUpdateType::ExecutionDelay { hours: 72 },
    ];
    for update in accepted {
        let mut config = store();
        assert_eq!(config.validate_parameter_bounds(&update), Ok(()));
        assert!(update_governance_parameter(&mut config, &admin(), None, update, 2_000).is_ok());
        assert_eq!(config.last_updated, 2_000);
    }
}

#[test]
fn the_bounds_check_reads_the_stored_bounds() {
    let mut config = store();
    config.parameter_bounds.min_quorum_percentage = 10;
    config.parameter_bounds.max_quorum_percentage = 20;
    assert_eq!(
        config.validate_parameter_bounds(&ParameterUpdateType::QuorumThreshold { percentage: 15 }),
        Ok(())
    );
    assert_eq!(
        config.validate_parameter_bounds(&ParameterUpdateType::QuorumThreshold { percentage: 2000 }),
        Err(GovernanceConfigError::InvalidParameterValue)
    );
    assert_eq!(
        config.validate_parameter_bounds(&ParameterUpdateType::TimeMultiplier {
            tier: 0,
            multiplier: 100
        }),
        Ok(())
    );
    assert_eq!(
        config.validate_parameter_bounds(&ParameterUpdateType::TimeMultiplier {
            tier: 4,
            multiplier: 100
        }),
        Ok(())
    );
    assert_eq!(
        config.validate_parameter_bounds(&ParameterUpdateType::TimeMultiplier {
            tier: 5,
            multiplier: 100
        }),
        Err(GovernanceConfigError::InvalidParameterValue)
    );
    assert_eq!(
        config.validate_parameter_bounds(&ParameterUpdateType::EmergencySettings {
            quorum_reduction: u16::MAX,
            voting_period: u32::MAX
        }),
        Ok(())
    );
}

#[test]
fn the_treasury_limit_only_goes_down() {
    let mut config = store();
    let lower = ParameterUpdateType::TreasuryLimit { percentage: 300 };
    let higher = ParameterUpdateType::TreasuryLimit { percentage: 301 };
    assert!(update_governance_parameter(&mut config, &admin(), None, lower, 2_000).is_ok());
    let after = config;
    assert_eq!(
        update_governance_parameter(&mut config, &admin(), None, higher, 2_001),
        Err(GovernanceConfigError::InvalidParameterValue)
    );
    assert_eq!(config, after);
}

#[test]
fn updates_need_the_administrator_or_an_approved_parameter_proposal() {
    let update = ParameterUpdateType::QuorumThreshold { percentage: 3000 };
    let mut config = store();
    assert_eq!(
        update_governance_parameter(&mut config, &key(1), None, update, 2_000),
        Err(GovernanceConfigError::Unauthorized)
    );
    assert_eq!(config, store());
    assert_eq!(authorize_update(&config, &key(1), None), Err(GovernanceConfigError::Unauthorized));
    assert_eq!(authorize_update(&config, &admin(), None), Ok(()));
    assert_eq!(authorize_update(&config, &key(1), Some(&approved_update())), Ok(()));

    for status in [
        ProposalStatus::Active,
        ProposalStatus::Rejected,
        ProposalStatus::Executed,
        ProposalStatus::Cancelled,
    ] {
        for caller in [key(1), admin()] {
            let attached = proposal(status, ProposalType::ParameterUpdate);
            assert_eq!(
                update_governance_parameter(&mut config, &caller, Some(&attached), update, 2_000),
                Err(GovernanceConfigError::ProposalNotApproved)
            );
        }
    }
    for proposal_type in
        [ProposalType::TreasuryWithdrawal, ProposalType::Emergency, ProposalType::TextProposal]
    {
        let attached = proposal(ProposalStatus::Approved, proposal_type);
        assert_eq!(
            update_governance_parameter(&mut config, &key(1), Some(&attached), update, 2_000),
            Err(GovernanceConfigError::InvalidProposalType)
        );
    }
    let attached = proposal(ProposalStatus::Active, ProposalType::Emergency);
    assert_eq!(
        update_governance_parameter(&mut config, &key(1), Some(&attached), update, 2_000),
        Err(GovernanceConfigError::ProposalNotApproved)
    );
    assert_eq!(config, store());

    let notice =
        update_governance_parameter(&mut config, &key(1), Some(&approved_update()), update, 2_000);
    assert_eq!(notice, Ok(announced("quorum_threshold", 2000, 3000, key(1), 2_000)));
    assert_eq!(config.proposal_settings.default_quorum_percentage, 3000);
}

#[test]
fn a_batch_takes_effect_in_order() {
    let mut config = store();
    let updates = vec![
        ParameterUpdateType::QuorumThreshold { percentage: 3000 },
        ParameterUpdateType::TreasuryLimit { percentage: 800 },
        ParameterUpdateType::TreasuryLimit { percentage: 500 },
        ParameterUpdateType::TimeMultiplier { tier: 2, multiplier: 180 },
        ParameterUpdateType::VotingPeriod { hours: 100 },
        ParameterUpdateType::ExecutionDelay { hours: 10 },
        ParameterUpdateType::ProposalStake { amount: 2_000 * TOKEN },
        ParameterUpdateType::EmergencySettings { quorum_reduction: 9, voting_period: 8 },
        ParameterUpdateType::QuorumThreshold { percentage: 4000 },
    ];
    assert_eq!(batch_update_parameters(&mut config, &admin(), None, &updates, 3_000), Ok(()));
    let mut expected = store();
    expected.proposal_settings.default_quorum_percentage = 4000;
    expected.parameter_bounds.max_treasury_withdrawal_percentage = 500;
    expected.time_multipliers.tier_2_multiplier = 180;
    expected.proposal_settings.default_voting_period_hours = 100;
    expected.execution_settings.execution_grace_period_hours = 10;
    expected.proposal_settings.base_proposal_stake = 2_000 * TOKEN;
    expected.emergency_settings.emergency_quorum_reduction = 9;
    expected.emergency_settings.emergency_voting_period_hours = 8;
    expected.last_updated = 3_000;
    assert_eq!(config, expected);
}

#[test]
fn a_batch_does_what_its_updates_do_one_after_the_other() {
    let updates = vec![
        ParameterUpdateType::TimeMultiplier { tier: 1, multiplier: 110 },
        ParameterUpdateType::ProposalStake { amount: 3_000 * TOKEN },
        ParameterUpdateType::TreasuryLimit { percentage: 10 },
    ];
    let mut batched = store();
    batch_update_parameters(&mut batched, &admin(), None, &updates, 3_000).unwrap();
    let mut single = store();
    for update in &updates {
        update_governance_parameter(&mut single, &admin(), None, *update, 3_000).unwrap();
    }
    assert_eq!(batched, single);
}

#[test]
fn one_refused_update_undoes_the_whole_batch() {
    let mut config = store();
    let updates = vec![
        ParameterUpdateType::QuorumThreshold { percentage: 3000 },
        ParameterUpdateType::ProposalStake { amount: 2_000 * TOKEN },
        ParameterUpdateType::VotingPeriod { hours: 10 },
        ParameterUpdateType::ExecutionDelay { hours: 10 },
    ];
    assert_eq!(
        batch_update_parameters(&mut config, &admin(), None, &updates, 3_000),
        Err(GovernanceConfigError::InvalidParameterValue)
    );
    assert_eq!(config, store());
    let updates = vec![
        ParameterUpdateType::TreasuryLimit { percentage: 500 },
        ParameterUpdateType::TreasuryLimit { percentage: 800 },
    ];
    assert_eq!(
        batch_update_parameters(&mut config, &admin(), None, &updates, 3_000),
        Err(GovernanceConfigError::InvalidParameterValue)
    );
    assert_eq!(config, store());
    let updates = vec![
        ParameterUpdateType::QuorumThreshold { percentage: 3000 },
        ParameterUpdateType::TimeMultiplier { tier: 0, multiplier: 200 },
    ];
    assert_eq!(
        batch_update_parameters(&mut config, &admin(), None, &updates, 3_000),
        Err(GovernanceConfigError::InvalidParameterValue)
    );
    assert_eq!(config, store());
}

#[test]
fn a_batch_holds_at_most_ten_updates() {
    assert_eq!(MAX_BATCH_UPDATES, 10);
    let update = ParameterUpdateType::QuorumThreshold { percentage: 3000 };
    let mut config = store();
    assert_eq!(
        batch_update_parameters(&mut config, &admin(), None, &vec![update; 11], 3_000),
        Err(GovernanceConfigError::TooManyBatchUpdates)
    );
    assert_eq!(config, store());
    assert_eq!(
        batch_update_parameters(&mut config, &admin(), None, &vec![update; 10], 3_000),
        Ok(())
    );
    assert_eq!(config.proposal_settings.default_quorum_percentage, 3000);
    assert_eq!(config.last_updated, 3_000);
}

#[test]
fn an_empty_batch_changes_nothing() {
    let mut config = store();
    assert_eq!(batch_update_parameters(&mut config, &admin(), None, &Vec::new(), 3_000), Ok(()));
    assert_eq!(config, store());
}

#[test]
fn a_batch_needs_the_same_authority_as_one_update() {
    let updates = vec![ParameterUpdateType::QuorumThreshold { percentage: 3000 }];
    let mut config = store();
    assert_eq!(
        batch_update_parameters(&mut config, &key(1), None, &updates, 3_000),
        Err(GovernanceConfigError::Unauthorized)
    );
    let active = proposal(ProposalStatus::Active, ProposalType::ParameterUpdate);
    assert_eq!(
        batch_update_parameters(&mut config, &key(1), Some(&active), &updates, 3_000),
        Err(GovernanceConfigError::ProposalNotApproved)
    );
    assert_eq!(config, store());
    assert_eq!(
        batch_update_parameters(&mut config, &key(1), Some(&approved_update()), &updates, 3_000),
        Ok(())
    );
    assert_eq!(config.proposal_settings.default_quorum_percentage, 3000);
}

#[test]
fn emergency_mode_is_switched_by_the_administrator_or_the_emergency_actor() {
    let mut config = store();
    config.emergency_settings.emergency_multisig = key(80);
    let before = config;
    assert_eq!(
        toggle_emergency_mode(&mut config, &key(1), true, 4_000),
        Err(GovernanceConfigError::EmergencyNotAuthorized)
    );
    assert_eq!(config, before);
    assert!(!config.is_emergency_active());
    assert_eq!(
        toggle_emergency_mode(&mut config, &key(80), true, 4_000),
        Ok(EmergencyModeToggled { enabled: true, triggered_by: key(80), timestamp: 4_000 })
    );
    let mut expected = before;
    expected.emergency_settings.emergency_override_enabled = true;
    expected.last_updated = 4_000;
    assert_eq!(config, expected);
    assert!(config.is_emergency_active());
    assert_eq!(
        toggle_emergency_mode(&mut config, &admin(), false, 4_001),
        Ok(EmergencyModeToggled { enabled: false, triggered_by: admin(), timestamp: 4_001 })
    );
    assert!(!config.is_emergency_active());
    assert_eq!(config.last_updated, 4_001);
}

#[test]
fn emergency_mode_lowers_the_quorum_but_not_below_zero() {
    let mut config = store();
    assert_eq!(config.get_effective_quorum(3000), 3000);
    assert_eq!(config.get_effective_quorum(0), 0);
    toggle_emergency_mode(&mut config, &admin(), true, 4_000).unwrap();
    assert_eq!(config.get_effective_quorum(3000), 1000);
    assert_eq!(config.get_effective_quorum(2000), 0);
    assert_eq!(config.get_effective_quorum(1999), 0);
    assert_eq!(config.get_effective_quorum(0), 0);
    assert_eq!(config.get_effective_quorum(u16::MAX), 63_535);
}

#[test]
fn the_required_stake_grows_with_the_proposers_history() {
    let config = store();
    assert_eq!(config.calculate_proposal_stake_requirement(0), Ok(5_000_000_000));
    assert_eq!(config.calculate_proposal_stake_requirement(1), Ok(5_050_000_000));
    assert_eq!(config.calculate_proposal_stake_requirement(2), Ok(5_150_000_000));
    assert_eq!(config.calculate_proposal_stake_requirement(100), Ok(12_500_000_000));
    assert_eq!(config.calculate_proposal_stake_requirement(266), Ok(24_950_000_000));
    assert_eq!(config.calculate_proposal_stake_requirement(267), Ok(25_000_000_000));
    assert_eq!(config.calculate_proposal_stake_requirement(300), Ok(25_000_000_000));
    assert_eq!(config.calculate_proposal_stake_requirement(437), Ok(25_000_000_000));
    assert_eq!(config.calculate_proposal_stake_requirement(65_535), Ok(25_000_000_000));
}

#[test]
fn only_the_low_sixteen_bits_of_the_history_count() {
    let config = store();
    assert_eq!(config.calculate_proposal_stake_requirement(65_536), Ok(5_000_000_000));
    assert_eq!(config.calculate_proposal_stake_requirement(65_537), Ok(5_050_000_000));
    assert_eq!(config.calculate_proposal_stake_requirement(u32::MAX), Ok(25_000_000_000));
}

#[test]
fn the_escalation_stops_at_its_ceiling() {
    let mut config = store();
    config.proposal_settings.max_escalation_multiplier = u16::MAX;
    config.proposal_settings.stake_escalation_factor = u16::MAX;
    assert_eq!(config.calculate_proposal_stake_requirement(1), Ok(37_750_000_000));
    assert_eq!(config.calculate_proposal_stake_requirement(2), Ok(37_750_000_000));
    assert_eq!(config.calculate_proposal_stake_requirement(0), Ok(5_000_000_000));
    config.proposal_settings.max_escalation_multiplier = 50;
    assert_eq!(config.calculate_proposal_stake_requirement(0), Ok(2_500_000_000));
}

#[test]
fn a_required_stake_outside_the_bounds_is_refused() {
    let mut config = store();
    config.proposal_settings.base_proposal_stake = 90_000 * TOKEN;
    assert_eq!(config.calculate_proposal_stake_requirement(1), Ok(90_900_000_000));
    assert_eq!(
        config.calculate_proposal_stake_requirement(100),
        Err(GovernanceConfigError::InvalidParameterValue)
    );
    config.proposal_settings.base_proposal_stake = 999 * TOKEN;
    assert_eq!(
        config.calculate_proposal_stake_requirement(0),
        Err(GovernanceConfigError::InvalidParameterValue)
    );
    config.proposal_settings.base_proposal_stake = u64::MAX;
    assert_eq!(
        config.calculate_proposal_stake_requirement(0),
        Err(GovernanceConfigError::InvalidParameterValue)
    );
    config.parameter_bounds.max_proposal_stake_base = u64::MAX;
    assert_eq!(config.calculate_proposal_stake_requirement(0), Ok(u64::MAX / 100));
    assert_eq!(config.calculate_proposal_stake_requirement(7), Ok(u64::MAX / 100));
}

#[test]
fn a_participant_is_checked_against_the_requirements() {
    let config = store();
    let user = key(1);
    let rich_and_old = position(user, 5_000 * TOKEN, 0);
    assert_eq!(
        validate_proposal_requirements(&config, &user, &rich_and_old, &staking_program(), 0, DAY),
        Ok((
            ProposalValidationResult {
                required_stake: 5_000 * TOKEN,
                has_sufficient_stake: true,
                meets_duration_requirement: true,
                can_propose: true,
            },
            ProposalValidationPerformed {
                user,
                required_stake: 5_000 * TOKEN,
                has_sufficient_stake: true,
                meets_duration_requirement: true,
                timestamp: DAY,
            }
        ))
    );
    let (young, _) =
        validate_proposal_requirements(&config, &user, &rich_and_old, &staking_program(), 0, DAY - 1)
            .unwrap();
    assert_eq!(
        young,
        ProposalValidationResult {
            required_stake: 5_000 * TOKEN,
            has_sufficient_stake: true,
            meets_duration_requirement: false,
            can_propose: false,
        }
    );
    let (poor, event) =
        validate_proposal_requirements(&config, &user, &rich_and_old, &staking_program(), 1, 9 * DAY)
            .unwrap();
    assert_eq!(
        poor,
        ProposalValidationResult {
            required_stake: 5_050 * TOKEN,
            has_sufficient_stake: false,
            meets_duration_requirement: true,
            can_propose: false,
        }
    );
    assert_eq!(event.required_stake, 5_050 * TOKEN);
    assert!(!event.has_sufficient_stake);
    assert_eq!(event.timestamp, 9 * DAY);
}

#[test]
fn the_check_needs_the_owner_and_a_record_of_the_staking_program() {
    let mut config = store();
    let user = key(1);
    let own = position(user, 5_000 * TOKEN, 0);
    assert_eq!(
        validate_proposal_requirements(&config, &user, &own, &key(9), 0, DAY),
        Err(GovernanceConfigError::InvalidStakingContract)
    );
    assert_eq!(
        validate_proposal_requirements(&config, &key(2), &own, &staking_program(), 0, DAY),
        Err(GovernanceConfigError::UnauthorizedStaker)
    );
    assert_eq!(
        validate_proposal_requirements(&config, &key(2), &own, &key(9), 0, DAY),
        Err(GovernanceConfigError::InvalidStakingContract)
    );
    config.proposal_settings.base_proposal_stake = 999 * TOKEN;
    assert_eq!(
        validate_proposal_requirements(&config, &user, &own, &staking_program(), 0, DAY),
        Err(GovernanceConfigError::InvalidParameterValue)
    );
}

#[test]
fn the_store_computes_power_from_whole_tokens_under_its_tiers() {
    let config = store();
    let user = key(1);
    let stake = position(user, 150_000 * TOKEN + 999_999, 1_000);
    assert_eq!(
        get_voting_power_with_config(&config, &user, &stake, &staking_program(), 1_000 + 40 * DAY),
        Ok((
            120_267,
            VotingPowerCalculated {
                user,
                voting_power: 120_267,
                stake_amount: 150_000 * TOKEN + 999_999,
                stake_duration_days: 40,
                timestamp: 1_000 + 40 * DAY,
            }
        ))
    );
    let (power, event) =
        get_voting_power_with_config(&config, &user, &stake, &staking_program(), 1_000 + 30 * DAY - 1)
            .unwrap();
    assert_eq!((power, event.stake_duration_days), (100_223, 29));
    let (power, event) =
        get_voting_power_with_config(&config, &user, &stake, &staking_program(), i64::MAX).unwrap();
    assert_eq!((power, event.stake_duration_days), (200_446, u32::MAX));
    assert_eq!(
        get_voting_power_with_config(&config, &user, &stake, &key(9), 1_000 + 40 * DAY),
        Err(GovernanceConfigError::InvalidStakingContract)
    );
}

#[test]
fn updated_tiers_change_the_power() {
    let mut config = store();
    let user = key(1);
    let stake = position(user, 1_000 * TOKEN, 0);
    let before =
        get_voting_power_with_config(&config, &user, &stake, &staking_program(), 10 * DAY).unwrap().0;
    assert_eq!(before, 1_000);
    update_governance_parameter(
        &mut config,
        &admin(),
        None,
        ParameterUpdateType::TimeMultiplier { tier: 1, multiplier: 130 },
        2_000,
    )
    .unwrap();
    let after =
        get_voting_power_with_config(&config, &user, &stake, &staking_program(), 10 * DAY).unwrap().0;
    assert_eq!(after, 1_300);
}

#[test]
fn a_new_store_gives_the_worked_voting_powers() {
    let config = store();
    let user = key(1);
    let young = position(user, 50_000 * TOKEN, 0);
    let (power, _) =
        get_voting_power_with_config(&config, &user, &young, &staking_program(), 10 * DAY).unwrap();
    assert_eq!(power, 50_000);
    let older = position(user, 150_000 * TOKEN, 0);
    let (power, _) =
        get_voting_power_with_config(&config, &user, &older, &staking_program(), 40 * DAY).unwrap();
    assert_eq!(power, 120_267);
}
