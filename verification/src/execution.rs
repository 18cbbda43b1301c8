//! Execution of passed proposals: what each kind of proposal does, and how
//! the proposal and its deposit are settled whatever came of it.

use vstd::prelude::*;
use crate::errors::ErrorCode;
use crate::identity::Pubkey;
use crate::ledger::{transfer_deposit_to_proposer, Custody, TransferIntent};
use crate::limits::MAX_TIME_LOCK_DURATION;
use crate::proposal::{
    vote_failure, GovernanceConfig, ProposalAccount, ProposalStatus, ProposalType, VoteChoice,
    VoteRecord,
};
use crate::staking::{GovernanceAccount, StakingPool, UserStakingAccount};

verus! {

/// The bytes a treasury transfer's payload must have: the recipient's
/// identity, then the amount.
pub const TREASURY_PAYLOAD_LENGTH: usize = 40;

/// Where the amount starts in a treasury transfer's payload.
pub const TREASURY_AMOUNT_OFFSET: usize = 32;

/// The bytes a parameter update's payload must have: the parameter's
/// identifier, then the value.
pub const PARAMETER_PAYLOAD_LENGTH: usize = 9;

/// The identifier of the quorum percentage.
pub const PARAMETER_QUORUM: u8 = 0;

/// The identifier of the passing threshold.
pub const PARAMETER_THRESHOLD: u8 = 1;

/// The identifier of the timelock duration.
pub const PARAMETER_TIMELOCK: u8 = 2;

/// The number that eight bytes spell, least significant byte first.
pub open spec fn le_u64(bytes: Seq<u8>) -> int
    recommends
        bytes.len() == 8,
{
    bytes[0] + bytes[1] * 0x100 + bytes[2] * 0x1_0000 + bytes[3] * 0x100_0000 + bytes[4]
        * 0x1_0000_0000 + bytes[5] * 0x100_0000_0000 + bytes[6] * 0x1_0000_0000_0000 + bytes[7]
        * 0x100_0000_0000_0000
}

/// Reads the eight bytes from `offset` on as a number, least significant
/// byte first.
pub fn read_u64_le(data: &[u8], offset: usize) -> (r: u64)
    requires
        offset + 8 <= data@.len(),
    ensures
        r == le_u64(data@.subrange(offset as int, offset + 8)),
{
    let b0 = data[offset] as u64;
    let b1 = data[offset + 1] as u64;
    let b2 = data[offset + 2] as u64;
    let b3 = data[offset + 3] as u64;
    let b4 = data[offset + 4] as u64;
    let b5 = data[offset + 5] as u64;
    let b6 = data[offset + 6] as u64;
    let b7 = data[offset + 7] as u64;
    b0 + b1 * 0x100 + b2 * 0x1_0000 + b3 * 0x100_0000 + b4 * 0x1_0000_0000 + b5
        * 0x100_0000_0000 + b6 * 0x1_0000_0000_0000 + b7 * 0x100_0000_0000_0000
}

/// The amount that a treasury transfer's payload asks for, if the payload is
/// long enough to hold one.
pub open spec fn treasury_amount(execution_data: Seq<u8>) -> Option<u64> {
    if execution_data.len() >= TREASURY_PAYLOAD_LENGTH {
        Some(
            le_u64(
                execution_data.subrange(
                    TREASURY_AMOUNT_OFFSET as int,
                    TREASURY_PAYLOAD_LENGTH as int,
                ),
            ) as u64,
        )
    } else {
        None
    }
}

/// What becomes of a treasury transfer with this payload when the treasury
/// holds `treasury_balance`: the payout to make, or why there is none.
pub open spec fn treasury_transfer_outcome(
    execution_data: Seq<u8>,
    treasury_balance: u64,
) -> Result<TransferIntent, ErrorCode> {
    match treasury_amount(execution_data) {
        None => Err(ErrorCode::InvalidExecutionData),
        Some(amount) => if treasury_balance < amount {
            Err(ErrorCode::InsufficientTreasuryBalance)
        } else {
            Ok(TransferIntent { from: Custody::Treasury, to: Custody::Recipient, amount })
        },
    }
}

/// Decides a treasury transfer: reads the amount from the payload and asks
/// for it to be paid out of the treasury, unless the payload is too short or
/// the treasury holds too little.
pub fn execute_treasury_transfer(execution_data: &[u8], treasury_balance: u64) -> (r: Result<
    TransferIntent,
    ErrorCode,
>)
    ensures
        r == treasury_transfer_outcome(execution_data@, treasury_balance),
{
    if execution_data.len() < TREASURY_PAYLOAD_LENGTH {
        return Err(ErrorCode::InvalidExecutionData);
    }
    let amount = read_u64_le(execution_data, TREASURY_AMOUNT_OFFSET);
    if treasury_balance < amount {
        return Err(ErrorCode::InsufficientTreasuryBalance);
    }
    Ok(TransferIntent { from: Custody::Treasury, to: Custody::Recipient, amount })
}

/// The parameter and the value that a parameter update's payload names, if
/// the payload is long enough to hold them.
pub open spec fn parameter_update(execution_data: Seq<u8>) -> Option<(u8, u64)> {
    if execution_data.len() >= PARAMETER_PAYLOAD_LENGTH {
        Some((execution_data[0], le_u64(execution_data.subrange(1, 9)) as u64))
    } else {
        None
    }
}

/// Why a parameter update with this payload is refused, if it is.
pub open spec fn parameter_update_failure(execution_data: Seq<u8>) -> Option<ErrorCode> {
    match parameter_update(execution_data) {
        None => Some(ErrorCode::InvalidExecutionData),
        Some((parameter_id, new_value)) => if parameter_id == PARAMETER_QUORUM {
            if 1 <= new_value <= 100 {
                None
            } else {
                Some(ErrorCode::InvalidParameterValue)
            }
        } else if parameter_id == PARAMETER_THRESHOLD {
            if 51 <= new_value <= 100 {
                None
            } else {
                Some(ErrorCode::InvalidParameterValue)
            }
        } else if parameter_id == PARAMETER_TIMELOCK {
            if new_value <= MAX_TIME_LOCK_DURATION {
                None
            } else {
                Some(ErrorCode::InvalidParameterValue)
            }
        } else {
            Some(ErrorCode::InvalidParameterId)
        },
    }
}

impl GovernanceConfig {
    /// The configuration after the parameter update that `execution_data`
    /// spells took effect at time `now`.
    pub open spec fn with_parameter(self, execution_data: Seq<u8>, now: i64) -> GovernanceConfig {
        let (parameter_id, new_value) = parameter_update(execution_data)->0;
        if parameter_id == PARAMETER_QUORUM {
            GovernanceConfig { quorum_percentage: new_value, last_updated: now, ..self }
        } else if parameter_id == PARAMETER_THRESHOLD {
            GovernanceConfig { passing_threshold: new_value, last_updated: now, ..self }
        } else {
            GovernanceConfig { timelock_duration: new_value as i64, last_updated: now, ..self }
        }
    }
}

/// Applies the parameter update that a payload spells: one identifying byte,
/// then the new value. The quorum must stay within 1 to 100 percent, the
/// passing threshold within 51 to 100 percent, the timelock within 0 to 30
/// days; a value outside its range, an unknown identifier or a short payload
/// leaves the configuration as it was.
pub fn execute_parameter_update(
    governance_config: &mut GovernanceConfig,
    execution_data: &[u8],
    now: i64,
) -> (r: Result<(), ErrorCode>)
    ensures
        old(governance_config).well_formed() ==> final(governance_config).well_formed(),
        match r {
            Ok(()) => {
                &&& parameter_update_failure(execution_data@) is None
                &&& *final(governance_config) == old(governance_config).with_parameter(
                    execution_data@,
                    now,
                )
            },
            Err(e) => {
                &&& parameter_update_failure(execution_data@) == Some(e)
                &&& *final(governance_config) == *old(governance_config)
            },
        },
{
    if execution_data.len() < PARAMETER_PAYLOAD_LENGTH {
        return Err(ErrorCode::InvalidExecutionData);
    }
    let parameter_id = execution_data[0];
    let new_value = read_u64_le(execution_data, 1);
    if parameter_id == PARAMETER_QUORUM {
        if !(new_value >= 1 && new_value <= 100) {
            return Err(ErrorCode::InvalidParameterValue);
        }
        governance_config.quorum_percentage = new_value;
    } else if parameter_id == PARAMETER_THRESHOLD {
        if !(new_value >= 51 && new_value <= 100) {
            return Err(ErrorCode::InvalidParameterValue);
        }
        governance_config.passing_threshold = new_value;
    } else if parameter_id == PARAMETER_TIMELOCK {
        if new_value > MAX_TIME_LOCK_DURATION {
            return Err(ErrorCode::InvalidParameterValue);
        }
        governance_config.timelock_duration = new_value as i64;
    } else {
        return Err(ErrorCode::InvalidParameterId);
    }
    governance_config.last_updated = now;
    Ok(())
}

/// What the executor attached to the call, as far as execution reads it.
#[derive(Clone, Copy, Debug, PartialEq, Eq)]
pub struct ExecutionAccounts {
    /// The balance of the treasury, where a treasury was attached.
    pub treasury_balance: Option<u64>,
    /// Whether a recipient was attached.
    pub recipient_attached: bool,
    /// Whether the mint of the payout was attached.
    pub token_mint_attached: bool,
    /// Whether the token program of the payout was attached.
    pub token_program_attached: bool,
}

/// What came of a proposal's effect.
#[derive(Clone, Copy, Debug, PartialEq, Eq, Structural)]
pub enum DispatchOutcome {
    /// The effect took place.
    Applied,
    /// The proposal's own payload or the state it met ruled the effect out.
    Rejected(ErrorCode),
    /// The holder of the treasury did not make the payout.
    PayoutRefused,
}

/// The result of an execution: what came of the effect, and the refund of
/// the deposit that is now due.
#[derive(Clone, Copy, Debug, PartialEq, Eq)]
pub struct ExecutionReceipt {
    pub outcome: DispatchOutcome,
    pub refund: TransferIntent,
}

impl ProposalAccount {
    /// Why the proposal cannot be executed at time `now`, if so.
    pub open spec fn execute_failure(
        &self,
        config_attached: bool,
        accounts: ExecutionAccounts,
        now: i64,
    ) -> Option<ErrorCode> {
        if self.status != ProposalStatus::Passed {
            Some(ErrorCode::ProposalNotPassed)
        } else if now < self.timelock_end {
            Some(ErrorCode::TimelockNotExpired)
        } else if self.executed_at != 0 {
            Some(ErrorCode::ProposalAlreadyExecuted)
        } else {
            match self.proposal_type {
                ProposalType::Text => None,
                ProposalType::TreasuryTransfer => if accounts.treasury_balance is None {
                    Some(ErrorCode::MissingTreasuryAccount)
                } else if !accounts.recipient_attached {
                    Some(ErrorCode::MissingRecipientAccount)
                } else if !accounts.token_mint_attached {
                    Some(ErrorCode::MissingTokenMint)
                } else if !accounts.token_program_attached {
                    Some(ErrorCode::MissingTokenProgram)
                } else {
                    None
                },
                ProposalType::ParameterUpdate => if !config_attached {
                    Some(ErrorCode::MissingGovernanceConfig)
                } else {
                    None
                },
            }
        }
    }

    /// The payout that an executable proposal calls for, if any.
    pub open spec fn payout(&self, accounts: ExecutionAccounts) -> Option<TransferIntent> {
        if self.proposal_type == ProposalType::TreasuryTransfer
            && accounts.treasury_balance is Some {
            match treasury_transfer_outcome(self.execution_data@, accounts.treasury_balance->0) {
                Ok(intent) => Some(intent),
                Err(_) => None,
            }
        } else {
            None
        }
    }

    /// What comes of an executable proposal's effect. `payout_completed` says
    /// whether the payout that the proposal calls for was made.
    pub open spec fn dispatch_outcome(
        &self,
        accounts: ExecutionAccounts,
        payout_completed: bool,
    ) -> DispatchOutcome {
        match self.proposal_type {
            ProposalType::Text => DispatchOutcome::Applied,
            ProposalType::TreasuryTransfer => match treasury_transfer_outcome(
                self.execution_data@,
                accounts.treasury_balance->0,
            ) {
                Err(e) => DispatchOutcome::Rejected(e),
                Ok(_) => if payout_completed {
                    DispatchOutcome::Applied
                } else {
                    DispatchOutcome::PayoutRefused
                },
            },
            ProposalType::ParameterUpdate => match parameter_update_failure(self.execution_data@) {
                Some(e) => DispatchOutcome::Rejected(e),
                None => DispatchOutcome::Applied,
            },
        }
    }

    /// The proposal after it was executed at time `now` with this outcome:
    /// executed or failed in execution, and in both cases stamped and with
    /// its deposit returned.
    pub open spec fn executed(self, outcome: DispatchOutcome, now: i64) -> ProposalAccount {
        ProposalAccount {
            status: if outcome == DispatchOutcome::Applied {
                ProposalStatus::Executed
            } else {
                ProposalStatus::ExecutionFailed
            },
            executed_at: now,
            deposit_refunded: true,
            ..self
        }
    }

    /// Tells whether the proposal can be executed at time `now`.
    pub fn check_executable(
        &self,
        config_attached: bool,
        accounts: &ExecutionAccounts,
        now: i64,
    ) -> (r: Result<(), ErrorCode>)
        ensures
            match r {
                Ok(()) => self.execute_failure(config_attached, *accounts, now) is None,
                Err(e) => self.execute_failure(config_attached, *accounts, now) == Some(e),
            },
    {
        if self.status != ProposalStatus::Passed {
            return Err(ErrorCode::ProposalNotPassed);
        }
        if now < self.timelock_end {
            return Err(ErrorCode::TimelockNotExpired);
        }
        if self.executed_at != 0 {
            return Err(ErrorCode::ProposalAlreadyExecuted);
        }
        match self.proposal_type {
            ProposalType::Text => Ok(()),
            ProposalType::TreasuryTransfer => {
                if accounts.treasury_balance.is_none() {
                    Err(ErrorCode::MissingTreasuryAccount)
                } else if !accounts.recipient_attached {
                    Err(ErrorCode::MissingRecipientAccount)
                } else if !accounts.token_mint_attached {
                    Err(ErrorCode::MissingTokenMint)
                } else if !accounts.token_program_attached {
                    Err(ErrorCode::MissingTokenProgram)
                } else {
                    Ok(())
                }
            },
            ProposalType::ParameterUpdate => {
                if !config_attached {
                    Err(ErrorCode::MissingGovernanceConfig)
                } else {
                    Ok(())
                }
            },
        }
    }
}

/// The configuration after an executable proposal was executed: changed
/// where the proposal is a parameter update whose payload is in order, and
/// as before in every other case.
pub open spec fn config_after_execution(
    proposal: ProposalAccount,
    governance_config: Option<GovernanceConfig>,
    now: i64,
) -> Option<GovernanceConfig> {
    if proposal.proposal_type == ProposalType::ParameterUpdate && governance_config is Some
        && parameter_update_failure(proposal.execution_data@) is None {
        Some(governance_config->0.with_parameter(proposal.execution_data@, now))
    } else {
        governance_config
    }
}

/// Tells which payout has to be attempted before the proposal is executed at
/// time `now`: the one a treasury transfer asks for, where its payload is in
/// order and the treasury can cover it, and none otherwise. Changes nothing.
pub fn treasury_payout(
    proposal: &ProposalAccount,
    config_attached: bool,
    accounts: &ExecutionAccounts,
    now: i64,
) -> (r: Result<Option<TransferIntent>, ErrorCode>)
    ensures
        match r {
            Ok(payout) => {
                &&& proposal.execute_failure(config_attached, *accounts, now) is None
                &&& payout == proposal.payout(*accounts)
            },
            Err(e) => proposal.execute_failure(config_attached, *accounts, now) == Some(e),
        },
{
    match proposal.check_executable(config_attached, accounts, now) {
        Ok(()) => {},
        Err(e) => {
            return Err(e);
        },
    }
    match (proposal.proposal_type, accounts.treasury_balance) {
        (ProposalType::TreasuryTransfer, Some(balance)) => {
            match execute_treasury_transfer(proposal.execution_data.as_slice(), balance) {
                Ok(intent) => Ok(Some(intent)),
                Err(_) => Ok(None),
            }
        },
        _ => Ok(None),
    }
}

/// Executes a passed proposal whose timelock has run out. A text proposal
/// has no effect, a parameter update changes the attached configuration, and
/// a treasury transfer counts as made where `payout_completed` says that the
/// payout named by `treasury_payout` went through.
///
/// Whatever comes of the effect, the proposal is settled: it becomes
/// `Executed` or `ExecutionFailed`, is stamped with `now`, and its deposit
/// goes back to the proposer. These changes stand also where the effect
/// failed; the receipt says what came of it. A proposal that cannot be
/// executed yet, or lacks what its kind needs, is refused and nothing
/// changes.
pub fn execute_proposal(
    proposal: &mut ProposalAccount,
    governance_config: &mut Option<GovernanceConfig>,
    accounts: &ExecutionAccounts,
    payout_completed: bool,
    now: i64,
) -> (r: Result<ExecutionReceipt, ErrorCode>)
    ensures
        old(proposal).well_formed() ==> final(proposal).well_formed(),
        *old(governance_config) matches Some(before) ==> (before.well_formed() ==> (*final(
            governance_config
        ) matches Some(after) && after.well_formed())),
        match r {
            Ok(receipt) => {
                &&& old(proposal).execute_failure(*old(governance_config) is Some, *accounts, now)
                    is None
                &&& receipt.outcome == old(proposal).dispatch_outcome(*accounts, payout_completed)
                &&& receipt.refund == TransferIntent::deposit_refund(
                    old(proposal).proposer,
                    old(proposal).deposit_amount,
                )
                &&& *final(proposal) == old(proposal).executed(receipt.outcome, now)
                &&& *final(governance_config) == config_after_execution(
                    *old(proposal),
                    *old(governance_config),
                    now,
                )
            },
            Err(e) => {
                &&& old(proposal).execute_failure(*old(governance_config) is Some, *accounts, now)
                    == Some(e)
                &&& *final(proposal) == *old(proposal)
                &&& *final(governance_config) == *old(governance_config)
            },
        },
{
    match proposal.check_executable(governance_config.is_some(), accounts, now) {
        Ok(()) => {},
        Err(e) => {
            return Err(e);
        },
    }
    let outcome = match proposal.proposal_type {
        ProposalType::Text => DispatchOutcome::Applied,
        ProposalType::TreasuryTransfer => {
            let balance = match accounts.treasury_balance {
                Some(balance) => balance,
                None => 0,
            };
            match execute_treasury_transfer(proposal.execution_data.as_slice(), balance) {
                Err(e) => DispatchOutcome::Rejected(e),
                Ok(_) => {
                    if payout_completed {
                        DispatchOutcome::Applied
                    } else {
                        DispatchOutcome::PayoutRefused
                    }
                },
            }
        },
        ProposalType::ParameterUpdate => {
            let mut config = match *governance_config {
                Some(config) => config,
                None => {
                    return Err(ErrorCode::MissingGovernanceConfig);
                },
            };
            match execute_parameter_update(&mut config, proposal.execution_data.as_slice(), now) {
                Ok(()) => {
                    *governance_config = Some(config);
                    DispatchOutcome::Applied
                },
                Err(e) => DispatchOutcome::Rejected(e),
            }
        },
    };
    proposal.status = match outcome {
        DispatchOutcome::Applied => ProposalStatus::Executed,
        _ => ProposalStatus::ExecutionFailed,
    };
    proposal.executed_at = now;
    proposal.deposit_refunded = true;
    let refund = transfer_deposit_to_proposer(proposal.proposer, proposal.deposit_amount);
    Ok(ExecutionReceipt { outcome, refund })
}

/// Before the timelock has run out a passed proposal cannot be executed.
pub proof fn lemma_timelock_blocks_execution(
    proposal: ProposalAccount,
    config_attached: bool,
    accounts: ExecutionAccounts,
    now: i64,
)
    requires
        proposal.status == ProposalStatus::Passed,
        now < proposal.timelock_end,
    ensures
        proposal.execute_failure(config_attached, accounts, now) == Some(
            ErrorCode::TimelockNotExpired,
        ),
{
}

/// Execution settles a proposal and its deposit exactly once. On a proposal
/// whose deposit is where its status says, an execution that goes through
/// finds the deposit still held and returns it, and leaves the proposal
/// executed or failed in execution, whatever came of its effect. After that
/// every further execution is refused, whatever is attached and whenever it
/// comes.
pub proof fn lemma_execution_settles_deposit_once(
    proposal: ProposalAccount,
    config_attached: bool,
    accounts: ExecutionAccounts,
    outcome: DispatchOutcome,
    now: i64,
    later_config_attached: bool,
    later_accounts: ExecutionAccounts,
    later: i64,
)
    requires
        proposal.well_formed(),
        proposal.execute_failure(config_attached, accounts, now) is None,
    ensures
        !proposal.deposit_refunded,
        proposal.executed(outcome, now).deposit_refunded,
        proposal.executed(outcome, now).well_formed(),
        proposal.executed(outcome, now).status == ProposalStatus::Executed || proposal.executed(
            outcome,
            now,
        ).status == ProposalStatus::ExecutionFailed,
        proposal.executed(outcome, now).status == ProposalStatus::Executed <==> outcome
            == DispatchOutcome::Applied,
        proposal.executed(outcome, now).execute_failure(
            later_config_attached,
            later_accounts,
            later,
        ) == Some(ErrorCode::ProposalNotPassed),
{
}

/// A parameter update through a proposal keeps every parameter in its
/// range.
pub proof fn lemma_parameter_update_keeps_ranges(
    config: GovernanceConfig,
    execution_data: Seq<u8>,
    now: i64,
)
    requires
        config.well_formed(),
        parameter_update_failure(execution_data) is None,
    ensures
        config.with_parameter(execution_data, now).well_formed(),
{
}

/// A settled proposal stays as it is. Once a proposal has failed, was
/// executed, failed in execution or was cancelled, no vote, no finalization
/// and no execution goes through any more, whoever asks and whenever.
pub proof fn lemma_settled_proposal_is_final(
    proposal: ProposalAccount,
    governance_account: GovernanceAccount,
    user_staking_account: UserStakingAccount,
    voter: Pubkey,
    existing_vote: Option<&VoteRecord>,
    vote_choice: VoteChoice,
    staking_pool: StakingPool,
    config: GovernanceConfig,
    config_attached: bool,
    accounts: ExecutionAccounts,
    now: i64,
)
    requires
        proposal.status != ProposalStatus::Active,
        proposal.status != ProposalStatus::Passed,
    ensures
        vote_failure(
            proposal,
            governance_account,
            user_staking_account,
            voter,
            existing_vote,
            vote_choice,
            now,
        ) is Some,
        proposal.finalize_failure(staking_pool, config, now) is Some,
        proposal.execute_failure(config_attached, accounts, now) == Some(
            ErrorCode::ProposalNotPassed,
        ),
{
}

} // verus!
