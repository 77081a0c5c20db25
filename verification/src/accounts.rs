//! The accounts that come with each operation, as plain values, and the
//! rules they must meet before the operation is tried.
//!
//! A rule on who the caller is fails with `Unauthorized`; a rule on which
//! mint or owner a supplied token account has, or on which account was
//! supplied, fails with `InvalidArg`. The rules of one operation are
//! checked in the order in which its accounts are listed, and the first
//! that fails decides the error.

use vstd::prelude::*;
use crate::address::Address;
use crate::config::Config;
use crate::donation::Charity;
use crate::errors::CustomError;
use crate::staking::{StakingPool, UserStakeInfo};

verus! {

/// What the rules read of a token account.
#[derive(Clone, Copy, Debug, PartialEq, Eq)]
pub struct TokenAccountInfo {
    /// Address of the token account itself.
    pub key: Address,
    pub mint: Address,
    pub owner: Address,
    pub amount: u64,
}

impl TokenAccountInfo {
    /// Whether the account holds tokens of `mint` for `owner`.
    pub open spec fn is_of(self, mint: Address, owner: Address) -> bool {
        self.mint == mint && self.owner == owner
    }

    /// Whether the account holds tokens of `mint` for `owner`.
    pub fn holds(&self, mint: &Address, owner: &Address) -> (r: bool)
        ensures
            r == self.is_of(*mint, *owner),
    {
        self.mint.same(mint) && self.owner.same(owner)
    }
}

/// The verdict on a rule about a supplied account.
pub open spec fn supplied(holds: bool) -> Option<CustomError> {
    if holds {
        None
    } else {
        Some(CustomError::InvalidArg)
    }
}

/// The verdict on a rule about the caller.
pub open spec fn allowed(holds: bool) -> Option<CustomError> {
    if holds {
        None
    } else {
        Some(CustomError::Unauthorized)
    }
}

/// The first refusal of two.
pub open spec fn first(a: Option<CustomError>, b: Option<CustomError>) -> Option<CustomError> {
    if a is Some {
        a
    } else {
        b
    }
}

/// The result that tells a refusal.
pub open spec fn verdict(refusal: Option<CustomError>) -> Result<(), CustomError> {
    match refusal {
        Some(e) => Err(e),
        None => Ok(()),
    }
}

fn check_supplied(holds: bool) -> (r: Result<(), CustomError>)
    ensures
        r == verdict(supplied(holds)),
{
    if holds {
        Ok(())
    } else {
        Err(CustomError::InvalidArg)
    }
}

fn check_allowed(holds: bool) -> (r: Result<(), CustomError>)
    ensures
        r == verdict(allowed(holds)),
{
    if holds {
        Ok(())
    } else {
        Err(CustomError::Unauthorized)
    }
}

/// Whether the ledger `user` is the one `caller` holds in the pool at
/// `pool_key`.
pub open spec fn owns_ledger(user: UserStakeInfo, caller: Address, pool_key: Address) -> bool {
    user.authority == caller && user.staking_pool == pool_key
}

/// Accounts of the pool's initialization.
#[derive(Clone, Copy, Debug, PartialEq, Eq)]
pub struct StakeInitialize {
    pub staking_pool: Address,
    /// Authority of the reward reserve.
    pub staking_reward: Address,
    pub authority: Address,
    pub token_mint: Address,
    pub pool_token_account: TokenAccountInfo,
}

impl StakeInitialize {
    /// Only the admin initializes the pool, for the CHAR mint, with a token
    /// account of that mint that the pool owns.
    pub open spec fn refusal(self, config: Config) -> Option<CustomError> {
        first(
            allowed(self.authority == config.admin),
            first(
                supplied(config.char_token_mint == self.token_mint),
                supplied(self.pool_token_account.is_of(self.token_mint, self.staking_pool)),
            ),
        )
    }

    pub fn validate(&self, config: &Config) -> (r: Result<(), CustomError>)
        ensures
            r == verdict(self.refusal(*config)),
    {
        check_allowed(self.authority.same(&config.admin))?;
        check_supplied(config.char_token_mint.same(&self.token_mint))?;
        check_supplied(self.pool_token_account.holds(&self.token_mint, &self.staking_pool))
    }
}

/// Accounts of the replacement of the tier table.
#[derive(Clone, Copy, Debug, PartialEq, Eq)]
pub struct SetReward {
    pub admin: Address,
}

impl SetReward {
    /// Only the admin replaces the tiers.
    pub open spec fn refusal(self, config: Config) -> Option<CustomError> {
        allowed(self.admin == config.admin)
    }

    pub fn validate(&self, config: &Config) -> (r: Result<(), CustomError>)
        ensures
            r == verdict(self.refusal(*config)),
    {
        check_allowed(self.admin.same(&config.admin))
    }
}

/// Accounts of a deposit.
#[derive(Clone, Copy, Debug, PartialEq, Eq)]
pub struct Stake {
    pub staking_pool: Address,
    pub mint: Address,
    pub user_authority: Address,
    pub user_token_account: TokenAccountInfo,
    pub pool_token_account: TokenAccountInfo,
}

impl Stake {
    /// The deposit is in CHAR, from a token account of the pool's mint that
    /// the staker owns, into the pool's token account.
    pub open spec fn refusal(self, config: Config, pool: StakingPool) -> Option<CustomError> {
        first(
            supplied(self.mint == config.char_token_mint),
            first(
                supplied(self.user_token_account.is_of(pool.token_mint, self.user_authority)),
                supplied(self.pool_token_account.key == pool.pool_token_account),
            ),
        )
    }

    pub fn validate(&self, config: &Config, pool: &StakingPool) -> (r: Result<(), CustomError>)
        ensures
            r == verdict(self.refusal(*config, *pool)),
    {
        check_supplied(self.mint.same(&config.char_token_mint))?;
        check_supplied(self.user_token_account.holds(&pool.token_mint, &self.user_authority))?;
        check_supplied(self.pool_token_account.key.same(&pool.pool_token_account))
    }
}

/// Accounts of a withdrawal.
#[derive(Clone, Copy, Debug, PartialEq, Eq)]
pub struct Unstake {
    pub staking_pool: Address,
    pub mint: Address,
    pub user_authority: Address,
    pub staking_reward_ata: TokenAccountInfo,
    pub user_token_account: TokenAccountInfo,
    pub pool_token_account: TokenAccountInfo,
}

impl Unstake {
    /// The withdrawal is in CHAR, by the staker who holds the ledger in this
    /// pool, with the fee going to the reward reserve of the pool, the rest
    /// to a token account of the pool's mint that the staker owns, both out
    /// of the pool's token account.
    pub open spec fn refusal(
        self,
        config: Config,
        pool: StakingPool,
        user: UserStakeInfo,
    ) -> Option<CustomError> {
        first(
            supplied(self.mint == config.char_token_mint),
            first(
                allowed(owns_ledger(user, self.user_authority, self.staking_pool)),
                first(
                    supplied(
                        self.staking_reward_ata.is_of(
                            pool.token_mint,
                            pool.staking_reward_account,
                        ),
                    ),
                    first(
                        supplied(
                            self.user_token_account.is_of(pool.token_mint, self.user_authority),
                        ),
                        supplied(self.pool_token_account.key == pool.pool_token_account),
                    ),
                ),
            ),
        )
    }

    pub fn validate(&self, config: &Config, pool: &StakingPool, user: &UserStakeInfo) -> (r: Result<
        (),
        CustomError,
    >)
        ensures
            r == verdict(self.refusal(*config, *pool, *user)),
    {
        check_supplied(self.mint.same(&config.char_token_mint))?;
        check_allowed(
            user.authority.same(&self.user_authority) && user.staking_pool.same(
                &self.staking_pool,
            ),
        )?;
        check_supplied(
            self.staking_reward_ata.holds(&pool.token_mint, &pool.staking_reward_account),
        )?;
        check_supplied(self.user_token_account.holds(&pool.token_mint, &self.user_authority))?;
        check_supplied(self.pool_token_account.key.same(&pool.pool_token_account))
    }
}

/// Accounts of a request to unstake.
#[derive(Clone, Copy, Debug, PartialEq, Eq)]
pub struct UnstakeRequest {
    pub staking_pool: Address,
    pub user_authority: Address,
}

impl UnstakeRequest {
    /// Only the staker who holds the ledger in this pool requests.
    pub open spec fn refusal(self, user: UserStakeInfo) -> Option<CustomError> {
        allowed(owns_ledger(user, self.user_authority, self.staking_pool))
    }

    pub fn validate(&self, user: &UserStakeInfo) -> (r: Result<(), CustomError>)
        ensures
            r == verdict(self.refusal(*user)),
    {
        check_allowed(
            user.authority.same(&self.user_authority) && user.staking_pool.same(
                &self.staking_pool,
            ),
        )
    }
}

/// Accounts of a claim.
#[derive(Clone, Copy, Debug, PartialEq, Eq)]
pub struct ClaimReward {
    pub staking_pool: Address,
    pub user_authority: Address,
    pub user_token_account: TokenAccountInfo,
    pub staking_reward_ata: TokenAccountInfo,
    pub mint: Address,
}

impl ClaimReward {
    /// The claim is by the staker who holds the ledger in this pool, paid
    /// in CHAR out of the reward reserve of the pool into a token account
    /// of the pool's mint that the staker owns.
    pub open spec fn refusal(
        self,
        config: Config,
        pool: StakingPool,
        user: UserStakeInfo,
    ) -> Option<CustomError> {
        first(
            allowed(owns_ledger(user, self.user_authority, self.staking_pool)),
            first(
                supplied(self.user_token_account.is_of(pool.token_mint, self.user_authority)),
                first(
                    supplied(
                        self.staking_reward_ata.is_of(
                            pool.token_mint,
                            pool.staking_reward_account,
                        ),
                    ),
                    supplied(self.mint == config.char_token_mint),
                ),
            ),
        )
    }

    pub fn validate(&self, config: &Config, pool: &StakingPool, user: &UserStakeInfo) -> (r: Result<
        (),
        CustomError,
    >)
        ensures
            r == verdict(self.refusal(*config, *pool, *user)),
    {
        check_allowed(
            user.authority.same(&self.user_authority) && user.staking_pool.same(
                &self.staking_pool,
            ),
        )?;
        check_supplied(self.user_token_account.holds(&pool.token_mint, &self.user_authority))?;
        check_supplied(
            self.staking_reward_ata.holds(&pool.token_mint, &pool.staking_reward_account),
        )?;
        check_supplied(self.mint.same(&config.char_token_mint))
    }
}

/// Accounts of the release of the reward branch.
#[derive(Clone, Copy, Debug, PartialEq, Eq)]
pub struct ReleaseRewards {
    pub treasury_ata: TokenAccountInfo,
    pub monthly_top_tier_ata: TokenAccountInfo,
    pub monthly_charity_lottery_ata: TokenAccountInfo,
    pub annual_top_tier_ata: TokenAccountInfo,
    pub annual_charity_lottery_ata: TokenAccountInfo,
    pub treasury_authority: Address,
    pub mint: Address,
}

impl ReleaseRewards {
    /// The release is in CHAR, out of the treasury, by the treasury's
    /// authority, into the token accounts of the four configured wallets.
    pub open spec fn refusal(self, config: Config) -> Option<CustomError> {
        let mint = config.char_token_mint;
        first(
            supplied(self.treasury_ata.is_of(mint, config.treasury_authority)),
            first(
                supplied(self.monthly_top_tier_ata.is_of(mint, config.monthly_top_tier_wallet)),
                first(
                    supplied(
                        self.monthly_charity_lottery_ata.is_of(
                            mint,
                            config.monthly_charity_lottery_wallet,
                        ),
                    ),
                    first(
                        supplied(
                            self.annual_top_tier_ata.is_of(mint, config.annual_top_tier_wallet),
                        ),
                        first(
                            supplied(
                                self.annual_charity_lottery_ata.is_of(
                                    mint,
                                    config.annual_charity_lottery_wallet,
                                ),
                            ),
                            first(
                                allowed(config.treasury_authority == self.treasury_authority),
                                supplied(self.mint == mint),
                            ),
                        ),
                    ),
                ),
            ),
        )
    }

    pub fn validate(&self, config: &Config) -> (r: Result<(), CustomError>)
        ensures
            r == verdict(self.refusal(*config)),
    {
        let mint = &config.char_token_mint;
        check_supplied(self.treasury_ata.holds(mint, &config.treasury_authority))?;
        check_supplied(self.monthly_top_tier_ata.holds(mint, &config.monthly_top_tier_wallet))?;
        check_supplied(
            self.monthly_charity_lottery_ata.holds(mint, &config.monthly_charity_lottery_wallet),
        )?;
        check_supplied(self.annual_top_tier_ata.holds(mint, &config.annual_top_tier_wallet))?;
        check_supplied(
            self.annual_charity_lottery_ata.holds(mint, &config.annual_charity_lottery_wallet),
        )?;
        check_allowed(config.treasury_authority.same(&self.treasury_authority))?;
        check_supplied(self.mint.same(mint))
    }
}

/// Accounts of the release of the donation branch.
#[derive(Clone, Copy, Debug, PartialEq, Eq)]
pub struct ReleaseDonations {
    pub treasury_ata: TokenAccountInfo,
    pub monthly_one_time_causes_ata: TokenAccountInfo,
    pub monthly_infinite_impact_causes_ata: TokenAccountInfo,
    pub annual_one_time_causes_ata: TokenAccountInfo,
    pub annual_infinite_impact_causes_ata: TokenAccountInfo,
    pub char_funds_ata: TokenAccountInfo,
    pub treasury_authority: Address,
    pub mint: Address,
}

impl ReleaseDonations {
    /// The release is in CHAR, out of the treasury, by the treasury's
    /// authority, into the token accounts of the five configured wallets.
    pub open spec fn refusal(self, config: Config) -> Option<CustomError> {
        let mint = config.char_token_mint;
        first(
            supplied(self.treasury_ata.is_of(mint, config.treasury_authority)),
            first(
                supplied(
                    self.monthly_one_time_causes_ata.is_of(
                        mint,
                        config.monthly_one_time_causes_wallet,
                    ),
                ),
                first(
                    supplied(
                        self.monthly_infinite_impact_causes_ata.is_of(
                            mint,
                            config.monthly_infinite_impact_causes_wallet,
                        ),
                    ),
                    first(
                        supplied(
                            self.annual_one_time_causes_ata.is_of(
                                mint,
                                config.annual_one_time_causes_wallet,
                            ),
                        ),
                        first(
                            supplied(
                                self.annual_infinite_impact_causes_ata.is_of(
                                    mint,
                                    config.annual_infinite_impact_causes_wallet,
                                ),
                            ),
                            first(
                                supplied(self.char_funds_ata.is_of(mint, config.char_funds)),
                                first(
                                    allowed(
                                        config.treasury_authority == self.treasury_authority,
                                    ),
                                    supplied(self.mint == mint),
                                ),
                            ),
                        ),
                    ),
                ),
            ),
        )
    }

    pub fn validate(&self, config: &Config) -> (r: Result<(), CustomError>)
        ensures
            r == verdict(self.refusal(*config)),
    {
        let mint = &config.char_token_mint;
        check_supplied(self.treasury_ata.holds(mint, &config.treasury_authority))?;
        check_supplied(
            self.monthly_one_time_causes_ata.holds(mint, &config.monthly_one_time_causes_wallet),
        )?;
        check_supplied(
            self.monthly_infinite_impact_causes_ata.holds(
                mint,
                &config.monthly_infinite_impact_causes_wallet,
            ),
        )?;
        check_supplied(
            self.annual_one_time_causes_ata.holds(mint, &config.annual_one_time_causes_wallet),
        )?;
        check_supplied(
            self.annual_infinite_impact_causes_ata.holds(
                mint,
                &config.annual_infinite_impact_causes_wallet,
            ),
        )?;
        check_supplied(self.char_funds_ata.holds(mint, &config.char_funds))?;
        check_allowed(config.treasury_authority.same(&self.treasury_authority))?;
        check_supplied(self.mint.same(mint))
    }
}

/// Accounts of the release into the staking reward reserve.
#[derive(Clone, Copy, Debug, PartialEq, Eq)]
pub struct ReleaseStakingFunds {
    pub treasury_ata: TokenAccountInfo,
    pub staking_reward_ata: TokenAccountInfo,
    pub treasury_authority: Address,
    pub mint: Address,
}

impl ReleaseStakingFunds {
    /// The release is in CHAR, out of the treasury, by the treasury's
    /// authority, into the reward reserve of the pool.
    pub open spec fn refusal(self, config: Config, pool: StakingPool) -> Option<CustomError> {
        let mint = config.char_token_mint;
        first(
            supplied(self.treasury_ata.is_of(mint, config.treasury_authority)),
            first(
                supplied(self.staking_reward_ata.is_of(mint, pool.staking_reward_account)),
                first(
                    allowed(config.treasury_authority == self.treasury_authority),
                    supplied(self.mint == mint),
                ),
            ),
        )
    }

    pub fn validate(&self, config: &Config, pool: &StakingPool) -> (r: Result<(), CustomError>)
        ensures
            r == verdict(self.refusal(*config, *pool)),
    {
        let mint = &config.char_token_mint;
        check_supplied(self.treasury_ata.holds(mint, &config.treasury_authority))?;
        check_supplied(self.staking_reward_ata.holds(mint, &pool.staking_reward_account))?;
        check_allowed(config.treasury_authority.same(&self.treasury_authority))?;
        check_supplied(self.mint.same(mint))
    }
}

/// Accounts of a marketing distribution.
#[derive(Clone, Copy, Debug, PartialEq, Eq)]
pub struct DistributeMarketingFunds {
    pub signer1: Address,
    pub source_ata: TokenAccountInfo,
    pub dest_wallet1_ata: TokenAccountInfo,
    pub dest_wallet2_ata: TokenAccountInfo,
    pub death_wallet_ata: TokenAccountInfo,
    pub mint: Address,
}

impl DistributeMarketingFunds {
    /// The distribution is in CHAR, out of the treasury, by the treasury's
    /// authority, into the token accounts of the two marketing wallets and
    /// of the death wallet.
    pub open spec fn refusal(self, config: Config) -> Option<CustomError> {
        let mint = config.char_token_mint;
        first(
            allowed(config.treasury_authority == self.signer1),
            first(
                supplied(self.source_ata.is_of(mint, config.treasury_authority)),
                first(
                    supplied(self.dest_wallet1_ata.is_of(mint, config.marketing_wallet_1)),
                    first(
                        supplied(self.dest_wallet2_ata.is_of(mint, config.marketing_wallet_2)),
                        first(
                            supplied(self.death_wallet_ata.is_of(mint, config.death_wallet)),
                            supplied(self.mint == mint),
                        ),
                    ),
                ),
            ),
        )
    }

    pub fn validate(&self, config: &Config) -> (r: Result<(), CustomError>)
        ensures
            r == verdict(self.refusal(*config)),
    {
        let mint = &config.char_token_mint;
        check_allowed(config.treasury_authority.same(&self.signer1))?;
        check_supplied(self.source_ata.holds(mint, &config.treasury_authority))?;
        check_supplied(self.dest_wallet1_ata.holds(mint, &config.marketing_wallet_1))?;
        check_supplied(self.dest_wallet2_ata.holds(mint, &config.marketing_wallet_2))?;
        check_supplied(self.death_wallet_ata.holds(mint, &config.death_wallet))?;
        check_supplied(self.mint.same(mint))
    }
}

/// Accounts of a buyback burn.
#[derive(Clone, Copy, Debug, PartialEq, Eq)]
pub struct ExecuteBuyback {
    pub mint: Address,
    pub burn_wallet_ata: TokenAccountInfo,
    pub burn_authority: Address,
}

impl ExecuteBuyback {
    /// The burn is of CHAR, out of the death wallet's token account, by the
    /// death wallet.
    pub open spec fn refusal(self, config: Config) -> Option<CustomError> {
        first(
            supplied(self.mint == config.char_token_mint),
            first(
                supplied(self.burn_wallet_ata.is_of(config.char_token_mint, config.death_wallet)),
                allowed(config.death_wallet == self.burn_authority),
            ),
        )
    }

    pub fn validate(&self, config: &Config) -> (r: Result<(), CustomError>)
        ensures
            r == verdict(self.refusal(*config)),
    {
        check_supplied(self.mint.same(&config.char_token_mint))?;
        check_supplied(self.burn_wallet_ata.holds(&config.char_token_mint, &config.death_wallet))?;
        check_allowed(config.death_wallet.same(&self.burn_authority))
    }
}

/// Accounts of the registration of a charity.
#[derive(Clone, Copy, Debug, PartialEq, Eq)]
pub struct RegisterCharity {
    pub registrar: Address,
    pub admin: Address,
}

impl RegisterCharity {
    /// Only the admin registers charities: the registrar named must be the
    /// configured admin.
    pub open spec fn refusal(self, config: Config) -> Option<CustomError> {
        allowed(self.registrar == config.admin)
    }

    pub fn validate(&self, config: &Config) -> (r: Result<(), CustomError>)
        ensures
            r == verdict(self.refusal(*config)),
    {
        check_allowed(self.registrar.same(&config.admin))
    }
}

/// Accounts of the closing of a charity vote.
#[derive(Clone, Copy, Debug, PartialEq, Eq)]
pub struct FinalizeCharityVote {
    pub admin: Address,
}

impl FinalizeCharityVote {
    /// Only the charity's admin closes its vote.
    pub open spec fn refusal(self, charity: Charity) -> Option<CustomError> {
        allowed(self.admin == charity.admin)
    }

    pub fn validate(&self, charity: &Charity) -> (r: Result<(), CustomError>)
        ensures
            r == verdict(self.refusal(*charity)),
    {
        check_allowed(self.admin.same(&charity.admin))
    }
}

/// Accounts of a change of the governance thresholds.
#[derive(Clone, Copy, Debug, PartialEq, Eq)]
pub struct Settings {
    pub admin: Address,
}

impl Settings {
    /// Only the admin changes the settings.
    pub open spec fn refusal(self, config: Config) -> Option<CustomError> {
        allowed(self.admin == config.admin)
    }

    pub fn validate(&self, config: &Config) -> (r: Result<(), CustomError>)
        ensures
            r == verdict(self.refusal(*config)),
    {
        check_allowed(self.admin.same(&config.admin))
    }
}

/// Accounts of a change of the emergency state.
#[derive(Clone, Copy, Debug, PartialEq, Eq)]
pub struct InitializeEmergencyState {
    pub payer: Address,
}

impl InitializeEmergencyState {
    /// Only the admin sets or clears the emergency state.
    pub open spec fn refusal(self, config: Config) -> Option<CustomError> {
        allowed(config.admin == self.payer)
    }

    pub fn validate(&self, config: &Config) -> (r: Result<(), CustomError>)
        ensures
            r == verdict(self.refusal(*config)),
    {
        check_allowed(config.admin.same(&self.payer))
    }
}

} // verus!
