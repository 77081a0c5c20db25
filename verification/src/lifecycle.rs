//! What holds of a stake across several operations: the order of its
//! states, the maturity delay, and one claim for each period.

use vstd::prelude::*;
use crate::address::Address;
use crate::config::Config;
use crate::errors::CustomError;
use crate::staking::{
    claim_refusal, entry_after_claim, entry_after_request, entry_after_stake, entry_after_unstake,
    pool_after_claim, pool_after_stake, request_unstake_refusal, stake_refusal, unstake_refusal,
    user_after_claim, user_after_request, user_after_stake, StakeState, StakingPool,
    UserStakeInfo, UserStakesEntry, MATURITY_DELAY_SECONDS,
};

verus! {

/// A slot that holds a deposit takes no second one: whatever its state,
/// and whatever the ledger, a deposit of a positive amount at a configured
/// lockup is refused with `AlreadyStaked`.
pub proof fn lemma_occupied_slot_refuses_stake(
    pool: StakingPool,
    user: UserStakeInfo,
    entry: UserStakesEntry,
    amount: u64,
    lockup: u16,
)
    requires
        entry.amount != 0,
        amount != 0,
        pool.tier_of(lockup) is Some,
    ensures
        stake_refusal(pool, user, entry, amount, lockup) == Some(CustomError::AlreadyStaked),
{
}

/// A deposit into a vacant slot makes the stake active, with the principal
/// counting toward the totals.
pub proof fn lemma_stake_activates(
    pool: StakingPool,
    user: UserStakeInfo,
    entry: UserStakesEntry,
    amount: u64,
    lockup: u16,
    now: u64,
)
    requires
        stake_refusal(pool, user, entry, amount, lockup) is None,
        entry.unstake_requested_at == 0,
    ensures
        entry.state_of() == StakeState::Vacant,
        entry_after_stake(user, entry, amount, lockup, now).state_of() == StakeState::Active,
        entry_after_stake(user, entry, amount, lockup, now).active_amount() == amount,
{
}

/// Only an active stake can be requested for withdrawal, and the request,
/// made at any time but 0, moves it to `RequestedUnstake`.
pub proof fn lemma_request_moves_to_requested(
    pool: StakingPool,
    user: UserStakeInfo,
    entry: UserStakesEntry,
    now: u64,
)
    requires
        request_unstake_refusal(pool, user, entry) is None,
        now != 0,
    ensures
        entry.state_of() == StakeState::Active,
        entry_after_request(entry, now).state_of() == StakeState::RequestedUnstake,
{
}

/// A stake's vote weight is given up once: while the tier table stays as
/// it was at the deposit, the request to unstake takes from the ledger
/// exactly the voting power that the deposit gave it, and no second request
/// is accepted.
pub proof fn lemma_vote_weight_is_given_up_once(
    config: Config,
    pool: StakingPool,
    pool_key: Address,
    user: UserStakeInfo,
    staker: Address,
    entry: UserStakesEntry,
    amount: u64,
    lockup: u16,
    now: u64,
    requested_at: u64,
    later_pool: StakingPool,
    later_user: UserStakeInfo,
)
    requires
        stake_refusal(pool, user, entry, amount, lockup) is None,
        entry.unstake_requested_at == 0,
        requested_at != 0,
    ensures
        ({
            let staked_pool = pool_after_stake(pool, amount);
            let staked_user = user_after_stake(
                config,
                pool,
                pool_key,
                user,
                staker,
                amount,
                lockup,
                now,
            );
            let staked = entry_after_stake(user, entry, amount, lockup, now);
            &&& request_unstake_refusal(staked_pool, staked_user, staked) is None
            &&& user_after_request(staked_pool, staked_user, staked).voting_power
                == user.voting_power
            &&& request_unstake_refusal(
                later_pool,
                later_user,
                entry_after_request(staked, requested_at),
            ) == Some(CustomError::UnstakeAlreadyRequested)
        }),
{
    let staked_pool = pool_after_stake(pool, amount);
    assert(staked_pool.tier_of(lockup) == pool.tier_of(lockup));
}

/// Only a requested stake can be withdrawn, and the withdrawal is final:
/// the stake is `Withdrawn`, and every later deposit, request or withdrawal
/// on it is refused.
pub proof fn lemma_withdrawal_is_terminal(
    pool: StakingPool,
    user: UserStakeInfo,
    entry: UserStakesEntry,
    now: u64,
    later_pool: StakingPool,
    later_user: UserStakeInfo,
    amount: u64,
    lockup: u16,
    later: u64,
)
    requires
        unstake_refusal(pool, user, entry, now) is None,
    ensures
        entry.state_of() == StakeState::RequestedUnstake,
        entry_after_unstake(entry, now).state_of() == StakeState::Withdrawn,
        entry_after_unstake(entry, now).active_amount() == 0,
        stake_refusal(later_pool, later_user, entry_after_unstake(entry, now), amount, lockup)
            is Some,
        request_unstake_refusal(later_pool, later_user, entry_after_unstake(entry, now))
            is Some,
        unstake_refusal(later_pool, later_user, entry_after_unstake(entry, now), later) == Some(
            CustomError::AlreadyUnStaked,
        ),
{
}

/// After a request made at `requested_at`, a withdrawal is refused with
/// `WaitPeriodNotOverYet` at every time before `requested_at + 172800`,
/// whatever has become of pool and ledger in between.
pub proof fn lemma_unstake_waits_for_maturity(
    pool: StakingPool,
    user: UserStakeInfo,
    entry: UserStakesEntry,
    requested_at: u64,
    later_pool: StakingPool,
    later_user: UserStakeInfo,
    now: u64,
)
    requires
        request_unstake_refusal(pool, user, entry) is None,
        requested_at != 0,
        now < requested_at + MATURITY_DELAY_SECONDS,
    ensures
        unstake_refusal(later_pool, later_user, entry_after_request(entry, requested_at), now)
            == Some(CustomError::WaitPeriodNotOverYet),
{
}

/// After a request made at `requested_at`, the maturity delay refuses no
/// withdrawal from `requested_at + 172800` on, that second included; and
/// the withdrawal succeeds where the totals cover the principal and, if the
/// lockup has not passed, the stake's tier exists and its fee can be
/// computed and does not exceed the principal.
pub proof fn lemma_unstake_matures(
    pool: StakingPool,
    user: UserStakeInfo,
    entry: UserStakesEntry,
    requested_at: u64,
    later_pool: StakingPool,
    later_user: UserStakeInfo,
    now: u64,
)
    requires
        request_unstake_refusal(pool, user, entry) is None,
        requested_at != 0,
        now >= requested_at + MATURITY_DELAY_SECONDS,
    ensures
        unstake_refusal(later_pool, later_user, entry_after_request(entry, requested_at), now)
            != Some(CustomError::WaitPeriodNotOverYet),
        unstake_refusal(later_pool, later_user, entry_after_request(entry, requested_at), now)
            != Some(CustomError::RequestUnstakeFirst),
        unstake_refusal(later_pool, later_user, entry_after_request(entry, requested_at), now)
            != Some(CustomError::AlreadyUnStaked),
        ({
            &&& later_user.total_amount >= entry.amount
            &&& later_pool.total_staked >= entry.amount
            &&& entry.exits_early(now) ==> (later_pool.tier_of(entry.lockup) matches Some(tier)
                && tier.penalty <= 1000 && entry.amount * tier.penalty <= u64::MAX)
        }) ==> unstake_refusal(
            later_pool,
            later_user,
            entry_after_request(entry, requested_at),
            now,
        ) is None,
{
    let requested = entry_after_request(entry, requested_at);
    assert(requested.exits_early(now) == entry.exits_early(now));
    if entry.exits_early(now) && later_pool.tier_of(entry.lockup) is Some {
        let tier = later_pool.tier_of(entry.lockup).unwrap();
        if tier.penalty <= 1000 {
            crate::math::lemma_permille_bounded(entry.amount as nat, tier.penalty as nat);
        }
    }
}

/// A period is paid once: after a claim at `now`, a claim at any time at
/// which no further period is earned is refused with `StakingPeriodNotMet`,
/// whatever the reserve then holds, as long as it holds something.
pub proof fn lemma_claim_once_per_period(
    pool: StakingPool,
    user: UserStakeInfo,
    entry: UserStakesEntry,
    reserve_balance: u64,
    now: u64,
    later_reserve_balance: u64,
    later: u64,
)
    requires
        claim_refusal(pool, user, entry, reserve_balance, now) is None,
        later_reserve_balance != 0,
        entry.periods_earned(later) == entry.periods_earned(now),
    ensures
        claim_refusal(
            pool_after_claim(pool, entry, now),
            user_after_claim(pool, user, entry, now),
            entry_after_claim(entry, now),
            later_reserve_balance,
            later,
        ) == Some(CustomError::StakingPeriodNotMet),
{
    let claimed = entry_after_claim(entry, now);
    lemma_periods_fit(entry, now);
    assert(claimed.accrued_seconds(later) == entry.accrued_seconds(later));
    assert(claimed.periods_earned(later) == entry.periods_earned(later));
    assert(entry.periods_earned(now) >= 1);
    assert(entry.accrued_seconds(later) != 0) by {
        if entry.accrued_seconds(later) == 0 {
            assert(0nat / ((entry.lockup * 86400) as nat) == 0);
        }
    }
}

/// A claim moves the count of paid periods strictly forward, to the number
/// of periods earned, and leaves the principal and the stake's marks alone.
pub proof fn lemma_claim_advances_period(
    pool: StakingPool,
    user: UserStakeInfo,
    entry: UserStakesEntry,
    reserve_balance: u64,
    now: u64,
)
    requires
        claim_refusal(pool, user, entry, reserve_balance, now) is None,
    ensures
        entry_after_claim(entry, now).current_period > entry.current_period,
        entry_after_claim(entry, now).current_period == entry.periods_earned(now),
        entry_after_claim(entry, now).state_of() == entry.state_of(),
        entry_after_claim(entry, now).active_amount() == entry.active_amount(),
{
    lemma_periods_fit(entry, now);
}

/// The number of periods earned never decreases as time passes, and the
/// count a claim stores never exceeds it.
pub proof fn lemma_periods_monotonic(entry: UserStakesEntry, now: u64, later: u64)
    requires
        entry.lockup != 0,
        now <= later,
    ensures
        entry.periods_earned(now) <= entry.periods_earned(later),
        entry_after_claim(entry, now).current_period <= entry.periods_earned(later),
{
    let d = (entry.lockup * 86400) as nat;
    let a = entry.accrued_seconds(now);
    let b = entry.accrued_seconds(later);
    assert(a <= b);
    assert(a / d <= b / d) by (nonlinear_arith)
        requires
            a <= b,
            d > 0,
    ;
    lemma_periods_fit(entry, now);
}

/// The number of periods earned fits in 64 bits.
proof fn lemma_periods_fit(entry: UserStakesEntry, now: u64)
    requires
        entry.lockup != 0,
    ensures
        entry.periods_earned(now) <= entry.accrued_seconds(now) <= u64::MAX,
{
    let d = (entry.lockup * 86400) as nat;
    let a = entry.accrued_seconds(now);
    assert(a / d <= a) by (nonlinear_arith)
        requires
            d > 0,
    ;
}

} // verus!
