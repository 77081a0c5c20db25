//! The staking records and the four operations of a stake's life: deposit,
//! request to withdraw, withdrawal after the maturity delay, and the claim
//! of period rewards.
//!
//! Every operation is all-or-nothing: it either returns `Ok` and updates the
//! records it was given, or returns the first error of its list and leaves
//! them as they were. The transfers that go with an operation are made by
//! the caller from the amounts the operation returns.

use vstd::prelude::*;
use crate::address::Address;
use crate::config::Config;
use crate::errors::CustomError;
use crate::math::{checked_share, permille_of, wide_share};

verus! {

/// Cool-down between a request to unstake and the withdrawal: 48 hours.
pub const MATURITY_DELAY_SECONDS: u64 = 172_800;

/// Length of one lockup day.
pub const SECONDS_PER_DAY: u64 = 86_400;

/// One lockup tier. The three rates are permille: 1000 stands for the whole.
#[derive(Clone, Copy, Debug, PartialEq, Eq)]
pub struct LockupReward {
    /// Length of the lockup, and of one reward period, in days.
    pub lockup_days: u16,
    /// Reward for each full period, as a share of the principal.
    pub reward_bps: u16,
    /// Voting power a stake earns, as a share of the principal.
    pub vote_power: u16,
    /// Fee for withdrawing before the lockup has passed.
    pub penalty: u16,
}

/// The pool of one token mint.
#[derive(Clone, Copy, Debug, PartialEq, Eq)]
pub struct StakingPool {
    pub authority: Address,
    pub token_mint: Address,
    pub pool_token_account: Address,
    pub staking_reward_account: Address,
    /// Sum of the principal of every stake that is not withdrawn.
    pub total_staked: u64,
    /// Sum of the rewards paid out of the reserve.
    pub reward_issued: u64,
    pub bump: u8,
    /// The four tier slots. A lockup is looked up from slot 0 on and the
    /// first slot that matches wins.
    pub stake_lockup_reward_array: [LockupReward; 4],
}

/// Marker record of the authority that owns the reward reserve.
#[derive(Clone, Copy, Debug, PartialEq, Eq)]
pub struct StakingRewards {
}

/// The ledger of one staker in one pool.
#[derive(Clone, Copy, Debug, PartialEq, Eq)]
pub struct UserStakeInfo {
    pub authority: Address,
    pub staking_pool: Address,
    /// When the staker's total first reached the governance minimum; 0
    /// until then, and never changed after.
    pub eligible_at: u64,
    pub voting_power: u64,
    /// Sum of the principal of the staker's stakes that are not withdrawn.
    pub total_amount: u64,
    /// Sum of the rewards the staker has claimed.
    pub reward_issued: u64,
    /// Number of stakes made so far, and the id of the next one.
    pub stake_count: u64,
    pub bump: u8,
    pub last_vote_time: u64,
}

/// One deposit.
#[derive(Clone, Copy, Debug, PartialEq, Eq)]
pub struct UserStakesEntry {
    pub stake_id: u64,
    /// The principal; 0 in a slot that holds no deposit yet.
    pub amount: u64,
    pub staked_at: u64,
    /// Lockup in days, the key of the stake's tier.
    pub lockup: u16,
    /// When the withdrawal was requested; 0 while it was not.
    pub unstake_requested_at: u64,
    /// Number of reward periods already paid.
    pub current_period: u64,
    /// When the stake was withdrawn; 0 while it was not.
    pub unstaked_at: u64,
}

/// Where a stake stands in its life.
#[derive(Clone, Copy, Debug, PartialEq, Eq)]
pub enum StakeState {
    /// The slot holds no deposit.
    Vacant,
    /// Deposited, no withdrawal requested.
    Active,
    /// Withdrawal requested, not yet made.
    RequestedUnstake,
    /// Withdrawn: the end of the stake's life.
    Withdrawn,
}

/// What a withdrawal pays.
#[derive(Clone, Copy, Debug, PartialEq, Eq)]
pub struct Withdrawal {
    /// Paid from the pool to the staker.
    pub amount_to_return: u64,
    /// Paid from the pool to the reward reserve; 0 after the lockup.
    pub fee: u64,
}

/// The ledger of a staker before the first deposit.
pub open spec fn empty_ledger(staker: Address, pool_key: Address) -> UserStakeInfo {
    UserStakeInfo {
        authority: staker,
        staking_pool: pool_key,
        eligible_at: 0,
        voting_power: 0,
        total_amount: 0,
        reward_issued: 0,
        stake_count: 0,
        bump: 0,
        last_vote_time: 0,
    }
}

/// The slot of a stake before the deposit.
pub open spec fn vacant_slot() -> UserStakesEntry {
    UserStakesEntry {
        stake_id: 0,
        amount: 0,
        staked_at: 0,
        lockup: 0,
        unstake_requested_at: 0,
        current_period: 0,
        unstaked_at: 0,
    }
}

impl LockupReward {
    /// Voting power that a principal of `amount` earns at this tier.
    pub open spec fn vote_weight(self, amount: u64) -> nat {
        permille_of(amount as nat, self.vote_power as nat)
    }
}

impl StakingPool {
    /// The tier a lockup is bound to: the first slot with that number of
    /// days, if there is one.
    pub open spec fn tier_of(self, lockup: u16) -> Option<LockupReward> {
        let slots = self.stake_lockup_reward_array;
        if slots[0].lockup_days == lockup {
            Some(slots[0])
        } else if slots[1].lockup_days == lockup {
            Some(slots[1])
        } else if slots[2].lockup_days == lockup {
            Some(slots[2])
        } else if slots[3].lockup_days == lockup {
            Some(slots[3])
        } else {
            None
        }
    }

    /// Looks up the tier of a lockup.
    pub fn find_tier(&self, lockup: u16) -> (r: Option<LockupReward>)
        ensures
            r == self.tier_of(lockup),
    {
        let mut i: usize = 0;
        while i < 4
            invariant
                i <= 4,
                forall|j: int| 0 <= j < i ==> self.stake_lockup_reward_array[j].lockup_days != lockup,
            decreases 4 - i,
        {
            if self.stake_lockup_reward_array[i].lockup_days == lockup {
                return Some(self.stake_lockup_reward_array[i]);
            }
            i = i + 1;
        }
        None
    }
}

impl UserStakesEntry {
    /// The state of the stake, read off its three marks.
    pub open spec fn state_of(self) -> StakeState {
        if self.unstaked_at != 0 {
            StakeState::Withdrawn
        } else if self.amount == 0 {
            StakeState::Vacant
        } else if self.unstake_requested_at != 0 {
            StakeState::RequestedUnstake
        } else {
            StakeState::Active
        }
    }

    /// Principal that counts toward the totals: the amount until the
    /// stake is withdrawn, nothing after.
    pub open spec fn active_amount(self) -> nat {
        if self.unstaked_at == 0 {
            self.amount as nat
        } else {
            0
        }
    }

    /// Seconds over which rewards accrue as of `now`: from the deposit to
    /// `now`, or to the withdrawal once the stake is withdrawn.
    pub open spec fn accrued_seconds(self, now: u64) -> nat {
        let end = if self.unstaked_at == 0 {
            now
        } else {
            self.unstaked_at
        };
        if end >= self.staked_at {
            (end - self.staked_at) as nat
        } else {
            0
        }
    }

    /// Full reward periods earned as of `now`.
    pub open spec fn periods_earned(self, now: u64) -> nat
        recommends
            self.lockup != 0,
    {
        self.accrued_seconds(now) / ((self.lockup * SECONDS_PER_DAY) as nat)
    }

    /// Whether a withdrawal at `now` comes before the lockup has passed.
    pub open spec fn exits_early(self, now: u64) -> bool {
        let held = if now >= self.staked_at {
            now - self.staked_at
        } else {
            0
        };
        held < self.lockup * SECONDS_PER_DAY
    }

    /// An empty slot.
    pub fn vacant() -> (r: UserStakesEntry)
        ensures
            r == vacant_slot(),
    {
        UserStakesEntry {
            stake_id: 0,
            amount: 0,
            staked_at: 0,
            lockup: 0,
            unstake_requested_at: 0,
            current_period: 0,
            unstaked_at: 0,
        }
    }

    /// The state of the stake.
    pub fn state(&self) -> (r: StakeState)
        ensures
            r == self.state_of(),
    {
        if self.unstaked_at != 0 {
            StakeState::Withdrawn
        } else if self.amount == 0 {
            StakeState::Vacant
        } else if self.unstake_requested_at != 0 {
            StakeState::RequestedUnstake
        } else {
            StakeState::Active
        }
    }
}

impl UserStakeInfo {
    /// The ledger of a staker who has not staked yet.
    pub fn empty(authority: Address, staking_pool: Address) -> (r: UserStakeInfo)
        ensures
            r == empty_ledger(authority, staking_pool),
    {
        UserStakeInfo {
            authority,
            staking_pool,
            eligible_at: 0,
            voting_power: 0,
            total_amount: 0,
            reward_issued: 0,
            stake_count: 0,
            bump: 0,
            last_vote_time: 0,
        }
    }
}

// ---------------------------------------------------------------- stake

/// Why a deposit of `amount` at `lockup` days into `entry` is refused, if
/// it is. The checks stand in the order in which they are made.
pub open spec fn stake_refusal(
    pool: StakingPool,
    user: UserStakeInfo,
    entry: UserStakesEntry,
    amount: u64,
    lockup: u16,
) -> Option<CustomError> {
    if amount == 0 {
        Some(CustomError::NoStakedTokens)
    } else if pool.tier_of(lockup) is None {
        Some(CustomError::WrongStakingPackage)
    } else if entry.amount != 0 {
        Some(CustomError::AlreadyStaked)
    } else if entry.unstaked_at != 0 {
        Some(CustomError::AlreadyUnStaked)
    } else if pool.total_staked + amount > u64::MAX || user.total_amount + amount > u64::MAX
        || user.stake_count + 1 > u64::MAX || user.voting_power + pool.tier_of(
        lockup,
    ).unwrap().vote_weight(amount) > u64::MAX {
        Some(CustomError::MathError)
    } else {
        None
    }
}

/// Whether a deposit of `amount` takes the staker's total from below the
/// governance minimum to it or above, for the first time.
pub open spec fn becomes_eligible(config: Config, user: UserStakeInfo, amount: u64) -> bool {
    &&& user.eligible_at == 0
    &&& user.total_amount < config.min_governance_stake
    &&& user.total_amount + amount >= config.min_governance_stake
}

/// The pool after a deposit of `amount`.
pub open spec fn pool_after_stake(pool: StakingPool, amount: u64) -> StakingPool {
    StakingPool { total_staked: (pool.total_staked + amount) as u64, ..pool }
}

/// The staker's ledger after a deposit of `amount` at `lockup` days.
pub open spec fn user_after_stake(
    config: Config,
    pool: StakingPool,
    pool_key: Address,
    user: UserStakeInfo,
    staker: Address,
    amount: u64,
    lockup: u16,
    now: u64,
) -> UserStakeInfo {
    UserStakeInfo {
        authority: staker,
        staking_pool: pool_key,
        eligible_at: if becomes_eligible(config, user, amount) {
            now
        } else {
            user.eligible_at
        },
        voting_power: (user.voting_power + pool.tier_of(lockup).unwrap().vote_weight(
            amount,
        )) as u64,
        total_amount: (user.total_amount + amount) as u64,
        stake_count: (user.stake_count + 1) as u64,
        ..user
    }
}

/// The slot after a deposit of `amount` at `lockup` days: it takes the
/// ledger's next id.
pub open spec fn entry_after_stake(
    user: UserStakeInfo,
    entry: UserStakesEntry,
    amount: u64,
    lockup: u16,
    now: u64,
) -> UserStakesEntry {
    UserStakesEntry { stake_id: user.stake_count, amount, staked_at: now, lockup, ..entry }
}

/// Deposits `amount` for `lockup` days into the slot `user_stake`.
///
/// Refused, in this order: with `NoStakedTokens` for an amount of 0; with
/// `WrongStakingPackage` where no tier has that lockup; with `AlreadyStaked`
/// where the slot holds a deposit; with `AlreadyUnStaked` where it is marked
/// withdrawn; with `MathError` where a total, the stake count or the voting
/// power would leave 64 bits. Otherwise the slot takes the deposit under the
/// ledger's next id, pool and ledger totals grow by `amount`, the voting
/// power by `floor(amount * vote_power / 1000)`, and the ledger becomes
/// eligible for governance at `now` if this deposit first takes its total
/// to the configured minimum.
pub fn stake_tokens(
    config: &Config,
    pool: &mut StakingPool,
    pool_key: Address,
    user: &mut UserStakeInfo,
    staker: Address,
    user_stake: &mut UserStakesEntry,
    amount: u64,
    lockup: u16,
    now: u64,
) -> (r: Result<(), CustomError>)
    ensures
        match stake_refusal(*old(pool), *old(user), *old(user_stake), amount, lockup) {
            Some(e) => {
                &&& r == Err::<(), CustomError>(e)
                &&& *final(pool) == *old(pool)
                &&& *final(user) == *old(user)
                &&& *final(user_stake) == *old(user_stake)
            },
            None => {
                &&& r == Ok::<(), CustomError>(())
                &&& *final(pool) == pool_after_stake(*old(pool), amount)
                &&& *final(user) == user_after_stake(
                    *config,
                    *old(pool),
                    pool_key,
                    *old(user),
                    staker,
                    amount,
                    lockup,
                    now,
                )
                &&& *final(user_stake) == entry_after_stake(
                    *old(user),
                    *old(user_stake),
                    amount,
                    lockup,
                    now,
                )
            },
        },
{
    if amount == 0 {
        return Err(CustomError::NoStakedTokens);
    }
    let tier = match pool.find_tier(lockup) {
        Some(tier) => tier,
        None => {
            return Err(CustomError::WrongStakingPackage);
        },
    };
    if user_stake.amount != 0 {
        return Err(CustomError::AlreadyStaked);
    }
    if user_stake.unstaked_at != 0 {
        return Err(CustomError::AlreadyUnStaked);
    }
    let total_staked = match pool.total_staked.checked_add(amount) {
        Some(v) => v,
        None => {
            return Err(CustomError::MathError);
        },
    };
    let total_amount = match user.total_amount.checked_add(amount) {
        Some(v) => v,
        None => {
            return Err(CustomError::MathError);
        },
    };
    let stake_count = match user.stake_count.checked_add(1) {
        Some(v) => v,
        None => {
            return Err(CustomError::MathError);
        },
    };
    let vote_weight = match wide_share(amount, tier.vote_power) {
        Some(v) => v,
        None => {
            return Err(CustomError::MathError);
        },
    };
    let voting_power = match user.voting_power.checked_add(vote_weight) {
        Some(v) => v,
        None => {
            return Err(CustomError::MathError);
        },
    };
    let crosses = user.eligible_at == 0 && user.total_amount < config.min_governance_stake
        && total_amount >= config.min_governance_stake;

    user_stake.stake_id = user.stake_count;
    user_stake.amount = amount;
    user_stake.staked_at = now;
    user_stake.lockup = lockup;

    pool.total_staked = total_staked;

    user.authority = staker;
    user.staking_pool = pool_key;
    if crosses {
        user.eligible_at = now;
    }
    user.total_amount = total_amount;
    user.stake_count = stake_count;
    user.voting_power = voting_power;
    Ok(())
}

// ------------------------------------------------------ request unstake

/// Voting power that a request to unstake gives up: the stake's vote
/// weight at its tier's present rate, or nothing where the ledger has no
/// voting power left.
pub open spec fn released_vote_weight(
    pool: StakingPool,
    user: UserStakeInfo,
    entry: UserStakesEntry,
) -> nat {
    if user.voting_power == 0 {
        0
    } else {
        pool.tier_of(entry.lockup).unwrap().vote_weight(entry.amount)
    }
}

/// Why a request to unstake `entry` is refused, if it is.
pub open spec fn request_unstake_refusal(
    pool: StakingPool,
    user: UserStakeInfo,
    entry: UserStakesEntry,
) -> Option<CustomError> {
    if entry.amount == 0 {
        Some(CustomError::NoStakedTokens)
    } else if entry.unstake_requested_at != 0 {
        Some(CustomError::UnstakeAlreadyRequested)
    } else if entry.unstaked_at != 0 {
        Some(CustomError::AlreadyUnStaked)
    } else if user.voting_power != 0 && pool.tier_of(entry.lockup) is None {
        Some(CustomError::WrongStakingPackage)
    } else if released_vote_weight(pool, user, entry) > user.voting_power {
        Some(CustomError::MathError)
    } else {
        None
    }
}

/// The staker's ledger after a request to unstake `entry`.
pub open spec fn user_after_request(
    pool: StakingPool,
    user: UserStakeInfo,
    entry: UserStakesEntry,
) -> UserStakeInfo {
    UserStakeInfo {
        voting_power: (user.voting_power - released_vote_weight(pool, user, entry)) as u64,
        ..user
    }
}

/// The stake after a request to unstake it at `now`.
pub open spec fn entry_after_request(entry: UserStakesEntry, now: u64) -> UserStakesEntry {
    UserStakesEntry { unstake_requested_at: now, ..entry }
}

/// Requests the withdrawal of the stake `user_stake`. There is no way back.
///
/// Refused, in this order: with `NoStakedTokens` for an empty slot; with
/// `UnstakeAlreadyRequested` after an earlier request; with `AlreadyUnStaked`
/// after the withdrawal; and, while the ledger has voting power, with
/// `WrongStakingPackage` where the stake's tier is gone and with `MathError`
/// where the stake's vote weight exceeds that power. Otherwise the ledger
/// gives up the stake's vote weight, unless its voting power is 0 already,
/// and the slot records `now` as the time of the request.
pub fn request_unstake_tokens(
    pool: &StakingPool,
    user: &mut UserStakeInfo,
    user_stake: &mut UserStakesEntry,
    now: u64,
) -> (r: Result<(), CustomError>)
    ensures
        match request_unstake_refusal(*pool, *old(user), *old(user_stake)) {
            Some(e) => {
                &&& r == Err::<(), CustomError>(e)
                &&& *final(user) == *old(user)
                &&& *final(user_stake) == *old(user_stake)
            },
            None => {
                &&& r == Ok::<(), CustomError>(())
                &&& *final(user) == user_after_request(*pool, *old(user), *old(user_stake))
                &&& *final(user_stake) == entry_after_request(*old(user_stake), now)
            },
        },
{
    if user_stake.amount == 0 {
        return Err(CustomError::NoStakedTokens);
    }
    if user_stake.unstake_requested_at != 0 {
        return Err(CustomError::UnstakeAlreadyRequested);
    }
    if user_stake.unstaked_at != 0 {
        return Err(CustomError::AlreadyUnStaked);
    }
    if user.voting_power != 0 {
        let tier = match pool.find_tier(user_stake.lockup) {
            Some(tier) => tier,
            None => {
                return Err(CustomError::WrongStakingPackage);
            },
        };
        let vote_weight = match wide_share(user_stake.amount, tier.vote_power) {
            Some(v) => v,
            None => {
                return Err(CustomError::MathError);
            },
        };
        let voting_power = match user.voting_power.checked_sub(vote_weight) {
            Some(v) => v,
            None => {
                return Err(CustomError::MathError);
            },
        };
        user.voting_power = voting_power;
    }
    user_stake.unstake_requested_at = now;
    Ok(())
}

// -------------------------------------------------------------- unstake

/// Fee of a withdrawal at `now`: the tier's penalty share of the principal
/// before the lockup has passed, nothing after.
pub open spec fn exit_fee(pool: StakingPool, entry: UserStakesEntry, now: u64) -> nat {
    if entry.exits_early(now) {
        permille_of(entry.amount as nat, pool.tier_of(entry.lockup).unwrap().penalty as nat)
    } else {
        0
    }
}

/// Why a withdrawal of `entry` at `now` is refused, if it is.
pub open spec fn unstake_refusal(
    pool: StakingPool,
    user: UserStakeInfo,
    entry: UserStakesEntry,
    now: u64,
) -> Option<CustomError> {
    if entry.unstaked_at != 0 {
        Some(CustomError::AlreadyUnStaked)
    } else if entry.unstake_requested_at == 0 {
        Some(CustomError::RequestUnstakeFirst)
    } else if now < entry.unstake_requested_at + MATURITY_DELAY_SECONDS {
        Some(CustomError::WaitPeriodNotOverYet)
    } else if entry.amount == 0 {
        Some(CustomError::NoStakedTokens)
    } else if user.total_amount < entry.amount || pool.total_staked < entry.amount {
        Some(CustomError::MathError)
    } else if entry.exits_early(now) && pool.tier_of(entry.lockup) is None {
        Some(CustomError::WrongStakingPackage)
    } else if entry.exits_early(now) && (entry.amount * pool.tier_of(
        entry.lockup,
    ).unwrap().penalty > u64::MAX || exit_fee(pool, entry, now) > entry.amount) {
        Some(CustomError::MathError)
    } else {
        None
    }
}

/// What a withdrawal of `entry` at `now` pays: the fee to the reward
/// reserve and the rest of the principal to the staker.
pub open spec fn withdrawal_of(pool: StakingPool, entry: UserStakesEntry, now: u64) -> Withdrawal {
    Withdrawal {
        amount_to_return: (entry.amount - exit_fee(pool, entry, now)) as u64,
        fee: exit_fee(pool, entry, now) as u64,
    }
}

/// The pool after the withdrawal of `entry`: it loses the whole principal,
/// fee included.
pub open spec fn pool_after_unstake(pool: StakingPool, entry: UserStakesEntry) -> StakingPool {
    StakingPool { total_staked: (pool.total_staked - entry.amount) as u64, ..pool }
}

/// The staker's ledger after the withdrawal of `entry`.
pub open spec fn user_after_unstake(user: UserStakeInfo, entry: UserStakesEntry) -> UserStakeInfo {
    UserStakeInfo { total_amount: (user.total_amount - entry.amount) as u64, ..user }
}

/// The stake after its withdrawal at `now`.
pub open spec fn entry_after_unstake(entry: UserStakesEntry, now: u64) -> UserStakesEntry {
    UserStakesEntry { unstaked_at: now, ..entry }
}

/// Withdraws the stake `user_stake`.
///
/// Refused, in this order: with `AlreadyUnStaked` after an earlier
/// withdrawal; with `RequestUnstakeFirst` without a request; with
/// `WaitPeriodNotOverYet` until 172,800 seconds have passed since the
/// request; with `NoStakedTokens` for an empty slot; with `MathError` where
/// a total is smaller than the principal; and, before the lockup has
/// passed, with `WrongStakingPackage` where the stake's tier is gone and
/// with `MathError` where `amount * penalty` leaves 64 bits or the fee
/// exceeds the principal. Otherwise pool and ledger totals fall by the whole
/// principal, the slot is marked withdrawn at `now`, and the result says
/// what to pay: the fee, `floor(amount * penalty / 1000)` before the lockup
/// has passed and 0 after, to the reward reserve, and the rest of the
/// principal to the staker.
pub fn unstake_tokens(
    pool: &mut StakingPool,
    user: &mut UserStakeInfo,
    user_stake: &mut UserStakesEntry,
    now: u64,
) -> (r: Result<Withdrawal, CustomError>)
    ensures
        match unstake_refusal(*old(pool), *old(user), *old(user_stake), now) {
            Some(e) => {
                &&& r == Err::<Withdrawal, CustomError>(e)
                &&& *final(pool) == *old(pool)
                &&& *final(user) == *old(user)
                &&& *final(user_stake) == *old(user_stake)
            },
            None => {
                &&& r == Ok::<Withdrawal, CustomError>(
                    withdrawal_of(*old(pool), *old(user_stake), now),
                )
                &&& *final(pool) == pool_after_unstake(*old(pool), *old(user_stake))
                &&& *final(user) == user_after_unstake(*old(user), *old(user_stake))
                &&& *final(user_stake) == entry_after_unstake(*old(user_stake), now)
            },
        },
{
    if user_stake.unstaked_at != 0 {
        return Err(CustomError::AlreadyUnStaked);
    }
    if user_stake.unstake_requested_at == 0 {
        return Err(CustomError::RequestUnstakeFirst);
    }
    if now < MATURITY_DELAY_SECONDS || now - MATURITY_DELAY_SECONDS
        < user_stake.unstake_requested_at {
        return Err(CustomError::WaitPeriodNotOverYet);
    }
    let amount = user_stake.amount;
    if amount == 0 {
        return Err(CustomError::NoStakedTokens);
    }
    let min_staking_duration = user_stake.lockup as u64 * SECONDS_PER_DAY;
    let staking_duration = if now >= user_stake.staked_at {
        now - user_stake.staked_at
    } else {
        0
    };
    let total_amount = match user.total_amount.checked_sub(amount) {
        Some(v) => v,
        None => {
            return Err(CustomError::MathError);
        },
    };
    let total_staked = match pool.total_staked.checked_sub(amount) {
        Some(v) => v,
        None => {
            return Err(CustomError::MathError);
        },
    };
    let mut fee: u64 = 0;
    if staking_duration < min_staking_duration {
        let tier = match pool.find_tier(user_stake.lockup) {
            Some(tier) => tier,
            None => {
                return Err(CustomError::WrongStakingPackage);
            },
        };
        fee =
        match checked_share(amount, tier.penalty as u64) {
            Some(v) => v,
            None => {
                return Err(CustomError::MathError);
            },
        };
    }
    let amount_to_return = match amount.checked_sub(fee) {
        Some(v) => v,
        None => {
            return Err(CustomError::MathError);
        },
    };
    user_stake.unstaked_at = now;
    user.total_amount = total_amount;
    pool.total_staked = total_staked;
    Ok(Withdrawal { amount_to_return, fee })
}

// ---------------------------------------------------------------- claim

/// Reward periods that a claim at `now` pays: those earned and not yet
/// paid.
pub open spec fn claimable_periods(entry: UserStakesEntry, now: u64) -> nat {
    (entry.periods_earned(now) - entry.current_period) as nat
}

/// Reward of a claim at `now`: for each period to pay, the tier's reward
/// share of the principal as deposited. Rewards do not compound.
pub open spec fn reward_due(pool: StakingPool, entry: UserStakesEntry, now: u64) -> nat {
    permille_of(
        claimable_periods(entry, now) * (entry.amount as nat),
        pool.tier_of(entry.lockup).unwrap().reward_bps as nat,
    )
}

/// Why a claim at `now` on `entry`, against a reserve of `reserve_balance`,
/// is refused, if it is.
pub open spec fn claim_refusal(
    pool: StakingPool,
    user: UserStakeInfo,
    entry: UserStakesEntry,
    reserve_balance: u64,
    now: u64,
) -> Option<CustomError> {
    if reserve_balance == 0 {
        Some(CustomError::StakingRewardInsufficientBalance)
    } else if entry.amount == 0 || pool.total_staked == 0 {
        Some(CustomError::NoStakedTokens)
    } else if entry.accrued_seconds(now) == 0 {
        Some(CustomError::NothingToClaim)
    } else if entry.lockup == 0 {
        Some(CustomError::MathError)
    } else if entry.periods_earned(now) <= entry.current_period {
        Some(CustomError::StakingPeriodNotMet)
    } else if pool.tier_of(entry.lockup) is None {
        Some(CustomError::WrongStakingPackage)
    } else if claimable_periods(entry, now) * entry.amount > u64::MAX || claimable_periods(
        entry,
        now,
    ) * entry.amount * pool.tier_of(entry.lockup).unwrap().reward_bps > u64::MAX {
        Some(CustomError::MathError)
    } else if reward_due(pool, entry, now) == 0 {
        Some(CustomError::NothingToClaim)
    } else if reward_due(pool, entry, now) > reserve_balance {
        Some(CustomError::StakingRewardInsufficientBalance)
    } else if pool.reward_issued + reward_due(pool, entry, now) > u64::MAX || user.reward_issued
        + reward_due(pool, entry, now) > u64::MAX {
        Some(CustomError::MathError)
    } else {
        None
    }
}

/// The pool after a claim on `entry` at `now`.
pub open spec fn pool_after_claim(pool: StakingPool, entry: UserStakesEntry, now: u64) -> StakingPool {
    StakingPool { reward_issued: (pool.reward_issued + reward_due(pool, entry, now)) as u64, ..pool }
}

/// The staker's ledger after a claim on `entry` at `now`.
pub open spec fn user_after_claim(
    pool: StakingPool,
    user: UserStakeInfo,
    entry: UserStakesEntry,
    now: u64,
) -> UserStakeInfo {
    UserStakeInfo { reward_issued: (user.reward_issued + reward_due(pool, entry, now)) as u64, ..user }
}

/// The stake after a claim at `now`: every period earned counts as paid.
pub open spec fn entry_after_claim(entry: UserStakesEntry, now: u64) -> UserStakesEntry {
    UserStakesEntry { current_period: entry.periods_earned(now) as u64, ..entry }
}

/// Claims the rewards of the stake `user_stake` for every full period
/// earned and not yet paid.
///
/// Rewards accrue from the deposit to `now`, or to the withdrawal once the
/// stake is withdrawn; a period lasts as long as the lockup. Refused, in
/// this order: with `StakingRewardInsufficientBalance` where the reserve is
/// empty; with `NoStakedTokens` where the slot or the pool is empty; with
/// `NothingToClaim` where no time has accrued; with `MathError` for a
/// lockup of 0 days; with `StakingPeriodNotMet` where no period is earned
/// beyond those paid; with `WrongStakingPackage` where the stake's tier is
/// gone; with `MathError` where `periods * amount` or that times
/// `reward_bps` leaves 64 bits; with `NothingToClaim` where the reward is 0; with
/// `StakingRewardInsufficientBalance` where it exceeds the reserve; with
/// `MathError` where an issued total would leave 64 bits. Otherwise the
/// result is the reward to pay from the reserve,
/// `floor(periods * amount * reward_bps / 1000)`, the slot counts every
/// earned period as paid, and pool and ledger add the reward to what they
/// have issued.
pub fn claim_reward(
    pool: &mut StakingPool,
    user: &mut UserStakeInfo,
    user_stake: &mut UserStakesEntry,
    reserve_balance: u64,
    now: u64,
) -> (r: Result<u64, CustomError>)
    ensures
        match claim_refusal(*old(pool), *old(user), *old(user_stake), reserve_balance, now) {
            Some(e) => {
                &&& r == Err::<u64, CustomError>(e)
                &&& *final(pool) == *old(pool)
                &&& *final(user) == *old(user)
                &&& *final(user_stake) == *old(user_stake)
            },
            None => {
                &&& r == Ok::<u64, CustomError>(
                    reward_due(*old(pool), *old(user_stake), now) as u64,
                )
                &&& *final(pool) == pool_after_claim(*old(pool), *old(user_stake), now)
                &&& *final(user) == user_after_claim(*old(pool), *old(user), *old(user_stake), now)
                &&& *final(user_stake) == entry_after_claim(*old(user_stake), now)
            },
        },
{
    if reserve_balance == 0 {
        return Err(CustomError::StakingRewardInsufficientBalance);
    }
    let amount = user_stake.amount;
    if amount == 0 || pool.total_staked == 0 {
        return Err(CustomError::NoStakedTokens);
    }
    let min_staking_duration = user_stake.lockup as u64 * SECONDS_PER_DAY;
    let end = if user_stake.unstaked_at == 0 {
        now
    } else {
        user_stake.unstaked_at
    };
    let staking_duration = if end >= user_stake.staked_at {
        end - user_stake.staked_at
    } else {
        0
    };
    if staking_duration == 0 {
        return Err(CustomError::NothingToClaim);
    }
    if min_staking_duration == 0 {
        return Err(CustomError::MathError);
    }
    let total_periods_earned = staking_duration / min_staking_duration;
    if total_periods_earned <= user_stake.current_period {
        return Err(CustomError::StakingPeriodNotMet);
    }
    let claimable = total_periods_earned - user_stake.current_period;
    let tier = match pool.find_tier(user_stake.lockup) {
        Some(tier) => tier,
        None => {
            return Err(CustomError::WrongStakingPackage);
        },
    };
    let principal = match claimable.checked_mul(amount) {
        Some(v) => v,
        None => {
            return Err(CustomError::MathError);
        },
    };
    let reward_amount = match checked_share(principal, tier.reward_bps as u64) {
        Some(v) => v,
        None => {
            return Err(CustomError::MathError);
        },
    };
    if reward_amount == 0 {
        return Err(CustomError::NothingToClaim);
    }
    if reward_amount > reserve_balance {
        return Err(CustomError::StakingRewardInsufficientBalance);
    }
    let pool_issued = match pool.reward_issued.checked_add(reward_amount) {
        Some(v) => v,
        None => {
            return Err(CustomError::MathError);
        },
    };
    let user_issued = match user.reward_issued.checked_add(reward_amount) {
        Some(v) => v,
        None => {
            return Err(CustomError::MathError);
        },
    };
    user_stake.current_period = total_periods_earned;
    pool.reward_issued = pool_issued;
    user.reward_issued = user_issued;
    Ok(reward_amount)
}

// ----------------------------------------------------------- tier table

/// Replaces the four tier slots at once. Nothing is checked: two slots may
/// carry the same number of days, in which case the lower slot is the one
/// that lookups find, and a slot may carry 0 days, on which no reward can
/// be claimed.
pub fn set_reward_percentage(
    pool: &mut StakingPool,
    reward1: u16,
    lockup1: u16,
    vote_power1: u16,
    penalty1: u16,
    reward2: u16,
    lockup2: u16,
    vote_power2: u16,
    penalty2: u16,
    reward3: u16,
    lockup3: u16,
    vote_power3: u16,
    penalty3: u16,
    reward4: u16,
    lockup4: u16,
    vote_power4: u16,
    penalty4: u16,
)
    ensures
        *final(pool) == (StakingPool {
            stake_lockup_reward_array: final(pool).stake_lockup_reward_array,
            ..*old(pool)
        }),
        final(pool).stake_lockup_reward_array[0] == (LockupReward {
            lockup_days: lockup1,
            reward_bps: reward1,
            vote_power: vote_power1,
            penalty: penalty1,
        }),
        final(pool).stake_lockup_reward_array[1] == (LockupReward {
            lockup_days: lockup2,
            reward_bps: reward2,
            vote_power: vote_power2,
            penalty: penalty2,
        }),
        final(pool).stake_lockup_reward_array[2] == (LockupReward {
            lockup_days: lockup3,
            reward_bps: reward3,
            vote_power: vote_power3,
            penalty: penalty3,
        }),
        final(pool).stake_lockup_reward_array[3] == (LockupReward {
            lockup_days: lockup4,
            reward_bps: reward4,
            vote_power: vote_power4,
            penalty: penalty4,
        }),
{
    pool.stake_lockup_reward_array = [
        LockupReward {
            lockup_days: lockup1,
            reward_bps: reward1,
            vote_power: vote_power1,
            penalty: penalty1,
        },
        LockupReward {
            lockup_days: lockup2,
            reward_bps: reward2,
            vote_power: vote_power2,
            penalty: penalty2,
        },
        LockupReward {
            lockup_days: lockup3,
            reward_bps: reward3,
            vote_power: vote_power3,
            penalty: penalty3,
        },
        LockupReward {
            lockup_days: lockup4,
            reward_bps: reward4,
            vote_power: vote_power4,
            penalty: penalty4,
        },
    ];
}

} // verus!
