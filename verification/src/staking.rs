//! The stake ledger's records: the pool, each participant's position, and
//! each participant's standing in governance.

use vstd::prelude::*;
use crate::errors::ErrorCode;
use crate::identity::{
    find_program_address, program_address, Pubkey, PROGRAM_AUTHORITY_SEED, TOKEN_2022_PROGRAM_ID,
};
use crate::ledger::{Custody, TransferIntent};
use crate::limits::SECONDS_PER_DAY;
use crate::voting_power::{calculate_hybrid_voting_power, hybrid_voting_power};

verus! {

/// The pool that all stakes are held in.
#[derive(Clone, Copy, Debug, PartialEq, Eq)]
pub struct StakingPool {
    pub authority: Pubkey,
    pub authority_bump: u8,
    pub initializer: Pubkey,
    pub total_staked_amount: u64,
    pub mint_address: Pubkey,
    pub escrow_account: Pubkey,
    pub bump: u8,
    pub created_at: i64,
    pub is_active: bool,
    pub token_price_usd_micro: u64,
    pub price_last_updated: i64,
}

/// One participant's stake: how much, and since when.
#[derive(Clone, Copy, Debug, PartialEq, Eq)]
pub struct UserStakingAccount {
    pub staker: Pubkey,
    pub staked_amount: u64,
    pub timestamp: i64,
    pub last_updated: i64,
    pub bump: u8,
}

/// One participant's standing in governance. `voting_power_cache` is a
/// snapshot: it changes only when the participant has it computed anew, and
/// is zero until then. Withdrawals are blocked until `stake_lock_end`.
#[derive(Clone, Copy, Debug, PartialEq, Eq)]
pub struct GovernanceAccount {
    pub staker: Pubkey,
    pub participation_count: u32,
    pub last_vote_timestamp: i64,
    pub stake_lock_end: i64,
    pub voting_power_cache: u64,
    pub created_at: i64,
    pub bump: u8,
}

/// The price, in millionths of a dollar, that a new pool starts with.
pub const INITIAL_TOKEN_PRICE_USD_MICRO: u64 = 1000;

/// The pool as it stands right after it was set up at time `now`: active and
/// empty.
pub open spec fn new_pool(
    authority: Pubkey,
    authority_bump: u8,
    admin: Pubkey,
    token_mint: Pubkey,
    escrow_token_account: Pubkey,
    bump: u8,
    now: i64,
) -> StakingPool {
    StakingPool {
        authority,
        authority_bump,
        initializer: admin,
        total_staked_amount: 0,
        mint_address: token_mint,
        escrow_account: escrow_token_account,
        bump,
        created_at: now,
        is_active: true,
        token_price_usd_micro: INITIAL_TOKEN_PRICE_USD_MICRO,
        price_last_updated: now,
    }
}

/// Sets up the staking pool under a signing authority that is known already.
/// The mint must belong to the accepted token program.
pub fn initialize_staking_pool_with_authority(
    authority: Pubkey,
    authority_bump: u8,
    admin: Pubkey,
    token_mint: Pubkey,
    mint_owner: &Pubkey,
    escrow_token_account: Pubkey,
    bump: u8,
    now: i64,
) -> (r: Result<StakingPool, ErrorCode>)
    ensures
        r == if mint_owner.has_bytes(TOKEN_2022_PROGRAM_ID) {
            Ok::<StakingPool, ErrorCode>(
                new_pool(
                    authority,
                    authority_bump,
                    admin,
                    token_mint,
                    escrow_token_account,
                    bump,
                    now,
                ),
            )
        } else {
            Err::<StakingPool, ErrorCode>(ErrorCode::InvalidTokenProgram)
        },
{
    if *mint_owner != Pubkey::new_from_array(TOKEN_2022_PROGRAM_ID) {
        return Err(ErrorCode::InvalidTokenProgram);
    }
    Ok(
        StakingPool {
            authority,
            authority_bump,
            initializer: admin,
            total_staked_amount: 0,
            mint_address: token_mint,
            escrow_account: escrow_token_account,
            bump,
            created_at: now,
            is_active: true,
            token_price_usd_micro: INITIAL_TOKEN_PRICE_USD_MICRO,
            price_last_updated: now,
        },
    )
}

/// Sets up the staking pool of the program `program_id`. The mint must
/// belong to the accepted token program. The pool's signing authority is the
/// address that the program derives from its authority seed; where the
/// program has no such address, no pool comes back.
pub fn initialize_staking_pool(
    program_id: &Pubkey,
    admin: Pubkey,
    token_mint: Pubkey,
    mint_owner: &Pubkey,
    escrow_token_account: Pubkey,
    bump: u8,
    now: i64,
) -> (r: Result<Option<StakingPool>, ErrorCode>)
    ensures
        !mint_owner.has_bytes(TOKEN_2022_PROGRAM_ID) ==> r == Err::<Option<StakingPool>, ErrorCode>(
            ErrorCode::InvalidTokenProgram,
        ),
        mint_owner.has_bytes(TOKEN_2022_PROGRAM_ID) ==> match program_address(
            PROGRAM_AUTHORITY_SEED@,
            program_id@,
        ) {
            Some((address, authority_bump)) => r matches Ok(Some(pool)) && pool.authority@
                == address && pool == new_pool(
                pool.authority,
                authority_bump,
                admin,
                token_mint,
                escrow_token_account,
                bump,
                now,
            ),
            None => r == Ok::<Option<StakingPool>, ErrorCode>(None),
        },
{
    if *mint_owner != Pubkey::new_from_array(TOKEN_2022_PROGRAM_ID) {
        return Err(ErrorCode::InvalidTokenProgram);
    }
    let seed = PROGRAM_AUTHORITY_SEED;
    match find_program_address(seed.as_slice(), program_id) {
        None => Ok(None),
        Some((authority, authority_bump)) => {
            match initialize_staking_pool_with_authority(
                authority,
                authority_bump,
                admin,
                token_mint,
                mint_owner,
                escrow_token_account,
                bump,
                now,
            ) {
                Ok(pool) => Ok(Some(pool)),
                Err(e) => Err(e),
            }
        },
    }
}

/// A participant's standing in governance right after it was set up at time
/// `now`: no votes, no lock, no voting power on record.
pub open spec fn new_governance_account(staker: Pubkey, bump: u8, now: i64) -> GovernanceAccount {
    GovernanceAccount {
        staker,
        participation_count: 0,
        last_vote_timestamp: 0,
        stake_lock_end: 0,
        voting_power_cache: 0,
        created_at: now,
        bump,
    }
}

/// Sets up a participant's standing in governance.
pub fn initialize_governance_account(staker: Pubkey, bump: u8, now: i64) -> (r: GovernanceAccount)
    ensures
        r == new_governance_account(staker, bump, now),
{
    GovernanceAccount {
        staker,
        participation_count: 0,
        last_vote_timestamp: 0,
        stake_lock_end: 0,
        voting_power_cache: 0,
        created_at: now,
        bump,
    }
}

impl UserStakingAccount {
    /// The position that a deposit of `amount` adds to: this one, or, where
    /// nobody owns the record yet, a fresh one of `staker` that starts at
    /// time `now`.
    pub open spec fn opened_for(self, staker: Pubkey, bump: u8, now: i64) -> UserStakingAccount {
        if self.staker.is_unset() {
            UserStakingAccount { staker, staked_amount: 0, timestamp: now, bump, ..self }
        } else {
            self
        }
    }
}

/// Why a deposit is refused, if it is.
pub open spec fn stake_failure(
    staking_pool: StakingPool,
    user_staking_account: UserStakingAccount,
    staker: Pubkey,
    amount: u64,
    bump: u8,
    now: i64,
) -> Option<ErrorCode> {
    let position = user_staking_account.opened_for(staker, bump, now);
    if !staking_pool.is_active {
        Some(ErrorCode::PoolNotActive)
    } else if position.staker != staker {
        Some(ErrorCode::UnauthorizedStaker)
    } else if amount == 0 {
        Some(ErrorCode::InvalidAmount)
    } else if position.staked_amount + amount > u64::MAX {
        Some(ErrorCode::InvalidAmount)
    } else if staking_pool.total_staked_amount + amount > u64::MAX {
        Some(ErrorCode::InvalidAmount)
    } else {
        None
    }
}

/// Deposits `amount` into the pool on behalf of `staker`. A record that
/// nobody owns yet becomes the staker's, with its stake starting now. The
/// staker's position and the pool's total both grow by `amount`, and the
/// transfer from the staker into escrow comes back to be carried out.
pub fn stake(
    staking_pool: &mut StakingPool,
    user_staking_account: &mut UserStakingAccount,
    staker: &Pubkey,
    amount: u64,
    bump: u8,
    now: i64,
) -> (r: Result<TransferIntent, ErrorCode>)
    ensures
        match r {
            Ok(deposit) => {
                let position = old(user_staking_account).opened_for(*staker, bump, now);
                &&& stake_failure(
                    *old(staking_pool),
                    *old(user_staking_account),
                    *staker,
                    amount,
                    bump,
                    now,
                ) is None
                &&& *final(user_staking_account) == (UserStakingAccount {
                    staked_amount: (position.staked_amount + amount) as u64,
                    last_updated: now,
                    ..position
                })
                &&& *final(staking_pool) == (StakingPool {
                    total_staked_amount: (old(staking_pool).total_staked_amount + amount) as u64,
                    ..*old(staking_pool)
                })
                &&& deposit == (TransferIntent {
                    from: Custody::Participant(*staker),
                    to: Custody::StakeEscrow,
                    amount,
                })
            },
            Err(e) => {
                &&& stake_failure(
                    *old(staking_pool),
                    *old(user_staking_account),
                    *staker,
                    amount,
                    bump,
                    now,
                ) == Some(e)
                &&& *final(staking_pool) == *old(staking_pool)
                &&& *final(user_staking_account) == *old(user_staking_account)
            },
        },
{
    if !staking_pool.is_active {
        return Err(ErrorCode::PoolNotActive);
    }
    let mut position = *user_staking_account;
    if position.staker.is_default() {
        position.staker = *staker;
        position.staked_amount = 0;
        position.timestamp = now;
        position.bump = bump;
    }
    if position.staker != *staker {
        return Err(ErrorCode::UnauthorizedStaker);
    }
    if amount == 0 {
        return Err(ErrorCode::InvalidAmount);
    }
    let staked_amount = match position.staked_amount.checked_add(amount) {
        Some(sum) => sum,
        None => {
            return Err(ErrorCode::InvalidAmount);
        },
    };
    let total_staked_amount = match staking_pool.total_staked_amount.checked_add(amount) {
        Some(sum) => sum,
        None => {
            return Err(ErrorCode::InvalidAmount);
        },
    };
    position.staked_amount = staked_amount;
    position.last_updated = now;
    *user_staking_account = position;
    staking_pool.total_staked_amount = total_staked_amount;
    Ok(TransferIntent { from: Custody::Participant(*staker), to: Custody::StakeEscrow, amount })
}

/// Why a withdrawal is refused, if it is. A participant without a standing
/// in governance has no lock.
pub open spec fn unstake_failure(
    staking_pool: StakingPool,
    user_staking_account: UserStakingAccount,
    governance_account: Option<&GovernanceAccount>,
    staker: Pubkey,
    amount: u64,
    now: i64,
) -> Option<ErrorCode> {
    if !staking_pool.is_active {
        Some(ErrorCode::PoolNotActive)
    } else if user_staking_account.staker != staker {
        Some(ErrorCode::UnauthorizedStaker)
    } else if governance_account matches Some(standing) && standing.staker != staker {
        Some(ErrorCode::UnauthorizedStaker)
    } else if amount == 0 {
        Some(ErrorCode::InvalidAmount)
    } else if user_staking_account.staked_amount < amount {
        Some(ErrorCode::InsufficientStakedBalance)
    } else if governance_account matches Some(standing) && now < standing.stake_lock_end {
        Some(ErrorCode::TokensLockedForGovernance)
    } else if staking_pool.total_staked_amount < amount {
        Some(ErrorCode::InsufficientStakedBalance)
    } else {
        None
    }
}

/// Withdraws `amount` from the pool on behalf of `staker`. The withdrawal is
/// refused while the staker's lock has not run out. The staker's position
/// and the pool's total both shrink by exactly `amount`, and the transfer
/// from escrow to the staker comes back to be carried out.
pub fn unstake(
    staking_pool: &mut StakingPool,
    user_staking_account: &mut UserStakingAccount,
    governance_account: Option<&GovernanceAccount>,
    staker: &Pubkey,
    amount: u64,
    now: i64,
) -> (r: Result<TransferIntent, ErrorCode>)
    ensures
        match r {
            Ok(withdrawal) => {
                &&& unstake_failure(
                    *old(staking_pool),
                    *old(user_staking_account),
                    governance_account,
                    *staker,
                    amount,
                    now,
                ) is None
                &&& *final(user_staking_account) == (UserStakingAccount {
                    staked_amount: (old(user_staking_account).staked_amount - amount) as u64,
                    last_updated: now,
                    ..*old(user_staking_account)
                })
                &&& *final(staking_pool) == (StakingPool {
                    total_staked_amount: (old(staking_pool).total_staked_amount - amount) as u64,
                    ..*old(staking_pool)
                })
                &&& withdrawal == (TransferIntent {
                    from: Custody::StakeEscrow,
                    to: Custody::Participant(*staker),
                    amount,
                })
            },
            Err(e) => {
                &&& unstake_failure(
                    *old(staking_pool),
                    *old(user_staking_account),
                    governance_account,
                    *staker,
                    amount,
                    now,
                ) == Some(e)
                &&& *final(staking_pool) == *old(staking_pool)
                &&& *final(user_staking_account) == *old(user_staking_account)
            },
        },
{
    if !staking_pool.is_active {
        return Err(ErrorCode::PoolNotActive);
    }
    if user_staking_account.staker != *staker {
        return Err(ErrorCode::UnauthorizedStaker);
    }
    if let Some(standing) = governance_account {
        if standing.staker != *staker {
            return Err(ErrorCode::UnauthorizedStaker);
        }
    }
    if amount == 0 {
        return Err(ErrorCode::InvalidAmount);
    }
    if user_staking_account.staked_amount < amount {
        return Err(ErrorCode::InsufficientStakedBalance);
    }
    if let Some(standing) = governance_account {
        if now < standing.stake_lock_end {
            return Err(ErrorCode::TokensLockedForGovernance);
        }
    }
    if staking_pool.total_staked_amount < amount {
        return Err(ErrorCode::InsufficientStakedBalance);
    }
    user_staking_account.staked_amount = user_staking_account.staked_amount - amount;
    user_staking_account.last_updated = now;
    staking_pool.total_staked_amount = staking_pool.total_staked_amount - amount;
    Ok(TransferIntent { from: Custody::StakeEscrow, to: Custody::Participant(*staker), amount })
}

/// The whole days that a stake begun at `since` has lasted at time `now`.
pub open spec fn stake_duration_days(since: i64, now: i64) -> nat
    recommends
        since <= now,
{
    ((now - since) / (SECONDS_PER_DAY as int)) as nat
}

/// Computes the whole days that a stake begun at `since` has lasted at time
/// `now`. Durations beyond the range of the result are given as its largest
/// value, which is far beyond the last tier of any multiplier.
pub fn whole_days_staked(since: i64, now: i64) -> (r: u32)
    requires
        since <= now,
    ensures
        r == if stake_duration_days(since, now) <= u32::MAX {
            stake_duration_days(since, now)
        } else {
            u32::MAX as nat
        },
{
    let seconds: i128 = now as i128 - since as i128;
    let days: i128 = seconds / (SECONDS_PER_DAY as i128);
    if days > u32::MAX as i128 {
        u32::MAX
    } else {
        days as u32
    }
}

/// Computes a participant's voting power at time `now` from the size and the
/// age of the stake, and puts it on record. The power on record stays as it
/// is until this is called again, whatever happens to the stake meanwhile.
pub fn calculate_voting_power(
    user_staking_account: &UserStakingAccount,
    governance_account: &mut GovernanceAccount,
    staker: &Pubkey,
    now: i64,
) -> (r: Result<u64, ErrorCode>)
    requires
        user_staking_account.timestamp <= now,
    ensures
        match r {
            Ok(voting_power) => {
                &&& user_staking_account.staker == *staker
                &&& old(governance_account).staker == *staker
                &&& voting_power == hybrid_voting_power(
                    user_staking_account.staked_amount as nat,
                    stake_duration_days(user_staking_account.timestamp, now),
                )
                &&& *final(governance_account) == (GovernanceAccount {
                    voting_power_cache: voting_power,
                    ..*old(governance_account)
                })
            },
            Err(e) => {
                &&& e == ErrorCode::UnauthorizedStaker
                &&& user_staking_account.staker != *staker || old(governance_account).staker
                    != *staker
                &&& *final(governance_account) == *old(governance_account)
            },
        },
{
    if user_staking_account.staker != *staker {
        return Err(ErrorCode::UnauthorizedStaker);
    }
    if governance_account.staker != *staker {
        return Err(ErrorCode::UnauthorizedStaker);
    }
    let days = whole_days_staked(user_staking_account.timestamp, now);
    let voting_power = calculate_hybrid_voting_power(user_staking_account.staked_amount, days);
    governance_account.voting_power_cache = voting_power;
    Ok(voting_power)
}

/// While a participant's lock has not run out, no withdrawal goes through.
pub proof fn lemma_lock_blocks_withdrawal(
    staking_pool: StakingPool,
    user_staking_account: UserStakingAccount,
    standing: GovernanceAccount,
    staker: Pubkey,
    amount: u64,
    now: i64,
)
    requires
        now < standing.stake_lock_end,
    ensures
        unstake_failure(staking_pool, user_staking_account, Some(&standing), staker, amount, now)
            is Some,
        staking_pool.is_active && user_staking_account.staker == staker && standing.staker
            == staker && 0 < amount <= user_staking_account.staked_amount ==> unstake_failure(
            staking_pool,
            user_staking_account,
            Some(&standing),
            staker,
            amount,
            now,
        ) == Some(ErrorCode::TokensLockedForGovernance),
{
}

/// Once the lock has run out, a staker can withdraw any amount that both the
/// position and an active pool cover.
pub proof fn lemma_withdrawal_after_lock(
    staking_pool: StakingPool,
    user_staking_account: UserStakingAccount,
    standing: GovernanceAccount,
    staker: Pubkey,
    amount: u64,
    now: i64,
)
    requires
        staking_pool.is_active,
        user_staking_account.staker == staker,
        standing.staker == staker,
        0 < amount <= user_staking_account.staked_amount,
        amount <= staking_pool.total_staked_amount,
        now >= standing.stake_lock_end,
    ensures
        unstake_failure(staking_pool, user_staking_account, Some(&standing), staker, amount, now)
            is None,
{
}

} // verus!
