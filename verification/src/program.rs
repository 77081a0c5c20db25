//! The entry points of the protocol. Each first holds the accounts it was
//! given to their rules, then makes sure the program is not halted, and
//! then does what the operation of its name does. An entry point that
//! returns an error has changed nothing.

use vstd::prelude::*;
use crate::accounts::{
    first, verdict, ClaimReward, DistributeMarketingFunds, ExecuteBuyback, FinalizeCharityVote,
    InitializeEmergencyState, RegisterCharity, ReleaseDonations, ReleaseRewards,
    ReleaseStakingFunds, SetReward, Settings, Stake, StakeInitialize, Unstake, UnstakeRequest,
};
use crate::address::Address;
use crate::burn::{buyback_refusal, execute_buyback, BuybackBurnEvent};
use crate::config::{Config, ConfigAccount};
use crate::donation::{
    cast_vote, cast_vote_refusal, finalize_charity_refusal, finalize_charity_vote,
    register_charity, register_charity_refusal, Charity, CharityStatus, VoteRecord,
};
use crate::errors::CustomError;
use crate::math::product_refusal;
use crate::marketing::{
    distribute_marketing_funds, marketing_split, MarketingFundDistributionEvent,
    MARKETING_WALLET_SHARE,
};
use crate::rewards::{
    donations_of, release_donations, release_rewards, release_staking_char_funds, rewards_of,
    staking_node, DonationsRelease, RewardsRelease, DONATION_ECOSYSTEM_SHARE, STAKING_SHARE,
};
use crate::security::change_emergency_state;
use crate::staking::{
    claim_refusal, claim_reward, entry_after_claim, entry_after_request, entry_after_stake,
    entry_after_unstake, pool_after_claim, pool_after_stake, pool_after_unstake, reward_due,
    request_unstake_refusal, request_unstake_tokens, set_reward_percentage, stake_refusal,
    stake_tokens, unstake_refusal, unstake_tokens, user_after_claim, user_after_request,
    user_after_stake, user_after_unstake, withdrawal_of, LockupReward, StakingPool,
    UserStakeInfo, UserStakesEntry, Withdrawal,
};

verus! {

/// The refusal of a halted program: `ProgramIsHalted` while the
/// configuration is halted.
pub open spec fn halt(config: Config) -> Option<CustomError> {
    if config.halted {
        Some(CustomError::ProgramIsHalted)
    } else {
        None
    }
}

/// The refusal of a guarded entry point: that of the rules on its
/// accounts, else that of the halt, else the operation's own.
pub open spec fn guarded(
    accounts: Option<CustomError>,
    config: Config,
    refusal: Option<CustomError>,
) -> Option<CustomError> {
    first(accounts, first(halt(config), refusal))
}

fn ensure_running(config: &Config) -> (r: Result<(), CustomError>)
    ensures
        r == verdict(halt(*config)),
{
    if config.halted {
        Err(CustomError::ProgramIsHalted)
    } else {
        Ok(())
    }
}

/// Stores the initial configuration.
pub fn initialize(config_account: &mut ConfigAccount, config: Config)
    ensures
        final(config_account).config == config,
{
    config_account.config = config;
}

/// Binds a new pool to its authority, its mint, its token account and the
/// authority of its reward reserve. Totals and tiers are left as they are.
pub fn staking_initialize(
    accounts: &StakeInitialize,
    config: &Config,
    pool: &mut StakingPool,
    bump: u8,
) -> (r: Result<(), CustomError>)
    ensures
        r == verdict(accounts.refusal(*config)),
        r is Err ==> *final(pool) == *old(pool),
        r is Ok ==> *final(pool) == (StakingPool {
            authority: accounts.authority,
            token_mint: accounts.token_mint,
            pool_token_account: accounts.pool_token_account.key,
            staking_reward_account: accounts.staking_reward,
            bump,
            ..*old(pool)
        }),
{
    accounts.validate(config)?;
    pool.authority = accounts.authority;
    pool.token_mint = accounts.token_mint;
    pool.pool_token_account = accounts.pool_token_account.key;
    pool.staking_reward_account = accounts.staking_reward;
    pool.bump = bump;
    Ok(())
}

/// Deposits `amount` for `lockup` days for the staker who signs.
pub fn stake_tokens_handler(
    accounts: &Stake,
    config: &Config,
    pool: &mut StakingPool,
    user: &mut UserStakeInfo,
    user_stake: &mut UserStakesEntry,
    amount: u64,
    lockup: u16,
    now: u64,
) -> (r: Result<(), CustomError>)
    ensures
        match guarded(
            accounts.refusal(*config, *old(pool)),
            *config,
            stake_refusal(*old(pool), *old(user), *old(user_stake), amount, lockup),
        ) {
            Some(e) => {
                &&& r == Err::<(), CustomError>(e)
                &&& *final(pool) == *old(pool)
                &&& *final(user) == *old(user)
                &&& *final(user_stake) == *old(user_stake)
            },
            None => {
                &&& r == Ok::<(), CustomError>(())
                &&& *final(pool) == pool_after_stake(*old(pool), amount)
                &&& *final(user) == user_after_stake(
                    *config,
                    *old(pool),
                    accounts.staking_pool,
                    *old(user),
                    accounts.user_authority,
                    amount,
                    lockup,
                    now,
                )
                &&& *final(user_stake) == entry_after_stake(
                    *old(user),
                    *old(user_stake),
                    amount,
                    lockup,
                    now,
                )
            },
        },
{
    accounts.validate(config, pool)?;
    ensure_running(config)?;
    stake_tokens(
        config,
        pool,
        accounts.staking_pool,
        user,
        accounts.user_authority,
        user_stake,
        amount,
        lockup,
        now,
    )
}

/// Withdraws a stake of the staker who signs, after the maturity delay.
pub fn unstake_tokens_handler(
    accounts: &Unstake,
    config: &Config,
    pool: &mut StakingPool,
    user: &mut UserStakeInfo,
    user_stake: &mut UserStakesEntry,
    now: u64,
) -> (r: Result<Withdrawal, CustomError>)
    ensures
        match guarded(
            accounts.refusal(*config, *old(pool), *old(user)),
            *config,
            unstake_refusal(*old(pool), *old(user), *old(user_stake), now),
        ) {
            Some(e) => {
                &&& r == Err::<Withdrawal, CustomError>(e)
                &&& *final(pool) == *old(pool)
                &&& *final(user) == *old(user)
                &&& *final(user_stake) == *old(user_stake)
            },
            None => {
                &&& r == Ok::<Withdrawal, CustomError>(
                    withdrawal_of(*old(pool), *old(user_stake), now),
                )
                &&& *final(pool) == pool_after_unstake(*old(pool), *old(user_stake))
                &&& *final(user) == user_after_unstake(*old(user), *old(user_stake))
                &&& *final(user_stake) == entry_after_unstake(*old(user_stake), now)
            },
        },
{
    accounts.validate(config, pool, user)?;
    ensure_running(config)?;
    unstake_tokens(pool, user, user_stake, now)
}

/// Requests the withdrawal of a stake of the staker who signs.
pub fn request_unstake_handler(
    accounts: &UnstakeRequest,
    config: &Config,
    pool: &StakingPool,
    user: &mut UserStakeInfo,
    user_stake: &mut UserStakesEntry,
    now: u64,
) -> (r: Result<(), CustomError>)
    ensures
        match guarded(
            accounts.refusal(*old(user)),
            *config,
            request_unstake_refusal(*pool, *old(user), *old(user_stake)),
        ) {
            Some(e) => {
                &&& r == Err::<(), CustomError>(e)
                &&& *final(user) == *old(user)
                &&& *final(user_stake) == *old(user_stake)
            },
            None => {
                &&& r == Ok::<(), CustomError>(())
                &&& *final(user) == user_after_request(*pool, *old(user), *old(user_stake))
                &&& *final(user_stake) == entry_after_request(*old(user_stake), now)
            },
        },
{
    accounts.validate(user)?;
    ensure_running(config)?;
    request_unstake_tokens(pool, user, user_stake, now)
}

/// Claims the rewards of a stake of the staker who signs, against what the
/// reward reserve holds.
pub fn claim_reward_handler(
    accounts: &ClaimReward,
    config: &Config,
    pool: &mut StakingPool,
    user: &mut UserStakeInfo,
    user_stake: &mut UserStakesEntry,
    now: u64,
) -> (r: Result<u64, CustomError>)
    ensures
        match guarded(
            accounts.refusal(*config, *old(pool), *old(user)),
            *config,
            claim_refusal(
                *old(pool),
                *old(user),
                *old(user_stake),
                accounts.staking_reward_ata.amount,
                now,
            ),
        ) {
            Some(e) => {
                &&& r == Err::<u64, CustomError>(e)
                &&& *final(pool) == *old(pool)
                &&& *final(user) == *old(user)
                &&& *final(user_stake) == *old(user_stake)
            },
            None => {
                &&& r == Ok::<u64, CustomError>(
                    reward_due(*old(pool), *old(user_stake), now) as u64,
                )
                &&& *final(pool) == pool_after_claim(*old(pool), *old(user_stake), now)
                &&& *final(user) == user_after_claim(*old(pool), *old(user), *old(user_stake), now)
                &&& *final(user_stake) == entry_after_claim(*old(user_stake), now)
            },
        },
{
    accounts.validate(config, pool, user)?;
    ensure_running(config)?;
    claim_reward(pool, user, user_stake, accounts.staking_reward_ata.amount, now)
}

/// Counts the burn of the whole balance of the death wallet's token
/// account.
pub fn buyback_burn_handler(
    accounts: &ExecuteBuyback,
    config_account: &mut ConfigAccount,
    timestamp: u64,
) -> (r: Result<BuybackBurnEvent, CustomError>)
    ensures
        match guarded(
            accounts.refusal(old(config_account).config),
            old(config_account).config,
            buyback_refusal(old(config_account).config, accounts.burn_wallet_ata.amount),
        ) {
            Some(e) => r == Err::<BuybackBurnEvent, CustomError>(e) && *final(config_account)
                == *old(config_account),
            None => {
                &&& r == Ok::<BuybackBurnEvent, CustomError>(
                    BuybackBurnEvent {
                        tokens_bought: accounts.burn_wallet_ata.amount,
                        new_total_burned: (old(config_account).config.total_burned
                            + accounts.burn_wallet_ata.amount) as u64,
                        timestamp,
                    },
                )
                &&& final(config_account).config == (Config {
                    total_burned: (old(config_account).config.total_burned
                        + accounts.burn_wallet_ata.amount) as u64,
                    ..old(config_account).config
                })
            },
        },
{
    accounts.validate(&config_account.config)?;
    ensure_running(&config_account.config)?;
    execute_buyback(config_account, accounts.burn_wallet_ata.amount, timestamp)
}

/// Sets or clears the emergency state. The halt never refuses this: the
/// admin can always lift it.
pub fn change_emergency_state_handler(
    accounts: &InitializeEmergencyState,
    config_account: &mut ConfigAccount,
    state: bool,
) -> (r: Result<(), CustomError>)
    ensures
        r == verdict(accounts.refusal(old(config_account).config)),
        r is Err ==> *final(config_account) == *old(config_account),
        r is Ok ==> final(config_account).config == (Config {
            halted: state,
            ..old(config_account).config
        }),
{
    accounts.validate(&config_account.config)?;
    change_emergency_state(config_account, state);
    Ok(())
}

/// Registers a charity in the name of the registrar.
pub fn register_charity_handler(
    accounts: &RegisterCharity,
    config_account: &mut ConfigAccount,
    title: String,
    wallet: Address,
    start_time: u64,
    end_time: u64,
) -> (r: Result<Charity, CustomError>)
    ensures
        match guarded(
            accounts.refusal(old(config_account).config),
            old(config_account).config,
            register_charity_refusal(old(config_account).config, wallet, start_time, end_time),
        ) {
            Some(e) => r == Err::<Charity, CustomError>(e) && *final(config_account) == *old(
                config_account,
            ),
            None => {
                &&& r == Ok::<Charity, CustomError>(
                    Charity {
                        id: old(config_account).config.next_charity_id,
                        title,
                        wallet,
                        total_votes: 0,
                        start_time,
                        end_time,
                        status: CharityStatus::Active,
                        admin: accounts.registrar,
                    },
                )
                &&& final(config_account).config == (Config {
                    next_charity_id: (old(config_account).config.next_charity_id + 1) as u64,
                    ..old(config_account).config
                })
            },
        },
{
    accounts.validate(&config_account.config)?;
    ensure_running(&config_account.config)?;
    register_charity(config_account, accounts.registrar, title, wallet, start_time, end_time)
}

/// Casts a vote for a charity. No rule stands on the accounts of a vote.
pub fn cast_vote_handler(
    config: &Config,
    charity: &mut Charity,
    charity_key: Address,
    vote_record: &mut VoteRecord,
    user: &mut UserStakeInfo,
    voter: Address,
    char_points: u64,
    now: u64,
) -> (r: Result<(), CustomError>)
    ensures
        match guarded(
            None,
            *config,
            cast_vote_refusal(
                *config,
                *old(charity),
                *old(vote_record),
                *old(user),
                char_points,
                now,
            ),
        ) {
            Some(e) => {
                &&& r == Err::<(), CustomError>(e)
                &&& *final(charity) == *old(charity)
                &&& *final(vote_record) == *old(vote_record)
                &&& *final(user) == *old(user)
            },
            None => {
                &&& r == Ok::<(), CustomError>(())
                &&& *final(charity) == (Charity {
                    total_votes: (old(charity).total_votes + old(user).voting_power) as u64,
                    ..*old(charity)
                })
                &&& *final(vote_record) == (VoteRecord {
                    charity: charity_key,
                    voter,
                    vote_weight: old(user).voting_power,
                    voted: true,
                })
                &&& *final(user) == (UserStakeInfo {
                    last_vote_time: now,
                    voting_power: (old(user).voting_power - char_points) as u64,
                    ..*old(user)
                })
            },
        },
{
    ensure_running(config)?;
    cast_vote(config, charity, charity_key, vote_record, user, voter, char_points, now)
}

/// Closes the vote for a charity.
pub fn finalize_charity_vote_handler(
    accounts: &FinalizeCharityVote,
    config: &Config,
    charity: &mut Charity,
    now: u64,
) -> (r: Result<(), CustomError>)
    ensures
        match guarded(
            accounts.refusal(*old(charity)),
            *config,
            finalize_charity_refusal(*old(charity), now),
        ) {
            Some(e) => r == Err::<(), CustomError>(e) && *final(charity) == *old(charity),
            None => r == Ok::<(), CustomError>(()) && *final(charity) == (Charity {
                status: CharityStatus::Finalized,
                ..*old(charity)
            }),
        },
{
    accounts.validate(charity)?;
    ensure_running(config)?;
    finalize_charity_vote(charity, now)
}

/// Computes the payouts of the reward branch.
pub fn release_rewards_handler(accounts: &ReleaseRewards, config: &Config, total_amount: u64) -> (r:
    Result<RewardsRelease, CustomError>)
    ensures
        r == (match guarded(
            accounts.refusal(*config),
            *config,
            product_refusal(total_amount, DONATION_ECOSYSTEM_SHARE),
        ) {
            Some(e) => Err::<RewardsRelease, CustomError>(e),
            None => Ok(rewards_of(total_amount as nat)),
        }),
{
    accounts.validate(config)?;
    ensure_running(config)?;
    release_rewards(total_amount)
}

/// Computes the payouts of the donation branch.
pub fn release_donations_handler(
    accounts: &ReleaseDonations,
    config: &Config,
    total_amount: u64,
) -> (r: Result<DonationsRelease, CustomError>)
    ensures
        r == (match guarded(
            accounts.refusal(*config),
            *config,
            product_refusal(total_amount, DONATION_ECOSYSTEM_SHARE),
        ) {
            Some(e) => Err::<DonationsRelease, CustomError>(e),
            None => Ok(donations_of(total_amount as nat)),
        }),
{
    accounts.validate(config)?;
    ensure_running(config)?;
    release_donations(total_amount)
}

/// Computes the payment into the staking reward reserve.
pub fn release_staking_funds_handler(
    accounts: &ReleaseStakingFunds,
    config: &Config,
    pool: &StakingPool,
    total_amount: u64,
) -> (r: Result<u64, CustomError>)
    ensures
        r == (match guarded(
            accounts.refusal(*config, *pool),
            *config,
            product_refusal(total_amount, STAKING_SHARE),
        ) {
            Some(e) => Err::<u64, CustomError>(e),
            None => Ok(staking_node(total_amount as nat) as u64),
        }),
{
    accounts.validate(config, pool)?;
    ensure_running(config)?;
    release_staking_char_funds(total_amount)
}

/// Computes the marketing distribution.
pub fn distribute_marketing_funds_handler(
    accounts: &DistributeMarketingFunds,
    config: &Config,
    total_amount: u64,
    timestamp: u64,
) -> (r: Result<MarketingFundDistributionEvent, CustomError>)
    ensures
        r == (match guarded(
            accounts.refusal(*config),
            *config,
            product_refusal(total_amount, MARKETING_WALLET_SHARE),
        ) {
            Some(e) => Err::<MarketingFundDistributionEvent, CustomError>(e),
            None => Ok(marketing_split(total_amount, timestamp)),
        }),
{
    accounts.validate(config)?;
    ensure_running(config)?;
    distribute_marketing_funds(total_amount, timestamp)
}

/// Replaces the two governance thresholds.
pub fn update_settings(
    accounts: &Settings,
    config_account: &mut ConfigAccount,
    min_governance_stake: u64,
    min_stake_duration_voting: u64,
) -> (r: Result<(), CustomError>)
    ensures
        r == verdict(
            guarded(accounts.refusal(old(config_account).config), old(config_account).config, None),
        ),
        r is Err ==> *final(config_account) == *old(config_account),
        r is Ok ==> final(config_account).config == (Config {
            min_governance_stake,
            min_stake_duration_voting,
            ..old(config_account).config
        }),
{
    accounts.validate(&config_account.config)?;
    ensure_running(&config_account.config)?;
    config_account.config.min_governance_stake = min_governance_stake;
    config_account.config.min_stake_duration_voting = min_stake_duration_voting;
    Ok(())
}

/// Replaces the four tier slots.
pub fn set_reward_percentage_handler(
    accounts: &SetReward,
    config: &Config,
    pool: &mut StakingPool,
    reward1: u16,
    lockup1: u16,
    vote_power1: u16,
    penalty1: u16,
    reward2: u16,
    lockup2: u16,
    vote_power2: u16,
    penalty2: u16,
    reward3: u16,
    lockup3: u16,
    vote_power3: u16,
    penalty3: u16,
    reward4: u16,
    lockup4: u16,
    vote_power4: u16,
    penalty4: u16,
) -> (r: Result<(), CustomError>)
    ensures
        r == verdict(guarded(accounts.refusal(*config), *config, None)),
        r is Err ==> *final(pool) == *old(pool),
        r is Ok ==> {
            &&& *final(pool) == (StakingPool {
                stake_lockup_reward_array: final(pool).stake_lockup_reward_array,
                ..*old(pool)
            })
            &&& final(pool).stake_lockup_reward_array[0] == (LockupReward {
                lockup_days: lockup1,
                reward_bps: reward1,
                vote_power: vote_power1,
                penalty: penalty1,
            })
            &&& final(pool).stake_lockup_reward_array[1] == (LockupReward {
                lockup_days: lockup2,
                reward_bps: reward2,
                vote_power: vote_power2,
                penalty: penalty2,
            })
            &&& final(pool).stake_lockup_reward_array[2] == (LockupReward {
                lockup_days: lockup3,
                reward_bps: reward3,
                vote_power: vote_power3,
                penalty: penalty3,
            })
            &&& final(pool).stake_lockup_reward_array[3] == (LockupReward {
                lockup_days: lockup4,
                reward_bps: reward4,
                vote_power: vote_power4,
                penalty: penalty4,
            })
        },
{
    accounts.validate(config)?;
    ensure_running(config)?;
    set_reward_percentage(
        pool,
        reward1,
        lockup1,
        vote_power1,
        penalty1,
        reward2,
        lockup2,
        vote_power2,
        penalty2,
        reward3,
        lockup3,
        vote_power3,
        penalty3,
        reward4,
        lockup4,
        vote_power4,
        penalty4,
    );
    Ok(())
}

} // verus!
