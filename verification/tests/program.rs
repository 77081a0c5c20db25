use charcoin::accounts::{
    ClaimReward, DistributeMarketingFunds, ExecuteBuyback, FinalizeCharityVote,
    InitializeEmergencyState, RegisterCharity, ReleaseDonations, ReleaseRewards,
    ReleaseStakingFunds, SetReward, Settings, Stake, StakeInitialize, TokenAccountInfo, Unstake,
    UnstakeRequest,
};
use charcoin::address::Address;
use charcoin::burn::BuybackBurnEvent;
use charcoin::config::{Config, ConfigAccount};
use charcoin::donation::{Charity, CharityStatus, VoteRecord};
use charcoin::errors::CustomError;
use charcoin::marketing::MarketingFundDistributionEvent;
use charcoin::program::{
    buyback_burn_handler, cast_vote_handler, change_emergency_state_handler,
    claim_reward_handler, distribute_marketing_funds_handler, finalize_charity_vote_handler,
    initialize, register_charity_handler, release_donations_handler, release_rewards_handler,
    release_staking_funds_handler, request_unstake_handler, set_reward_percentage_handler,
    stake_tokens_handler, staking_initialize, unstake_tokens_handler, update_settings,
};
use charcoin::staking::{
    LockupReward, StakingPool, UserStakeInfo, UserStakesEntry, Withdrawal,
    MATURITY_DELAY_SECONDS, SECONDS_PER_DAY,
};

fn addr(b: u8) -> Address {
    Address::new([b; 32])
}

const ADMIN: u8 = 1;
const MINT: u8 = 2;
const TREASURY: u8 = 15;
const DEATH: u8 = 14;
const POOL: u8 = 30;
const RESERVE: u8 = 21;
const POOL_TOKENS: u8 = 20;
const STAKER: u8 = 40;
const STRANGER: u8 = 99;

fn config() -> Config {
    Config {
        admin: addr(ADMIN),
        char_token_mint: addr(MINT),
        monthly_top_tier_wallet: addr(3),
        monthly_charity_lottery_wallet: addr(4),
        annual_top_tier_wallet: addr(5),
        annual_charity_lottery_wallet: addr(6),
        monthly_one_time_causes_wallet: addr(7),
        monthly_infinite_impact_causes_wallet: addr(8),
        annual_one_time_causes_wallet: addr(9),
        annual_infinite_impact_causes_wallet: addr(10),
        char_funds: addr(11),
        marketing_wallet_1: addr(12),
        marketing_wallet_2: addr(13),
        death_wallet: addr(DEATH),
        treasury_authority: addr(TREASURY),
        halted: false,
        next_proposal_id: 4,
        next_charity_id: 7,
        total_burned: 100,
        min_governance_stake: 1_000,
        min_stake_duration_voting: 15 * SECONDS_PER_DAY,
    }
}

fn halted() -> Config {
    Config { halted: true, ..config() }
}

fn pool() -> StakingPool {
    let t = |lockup_days, reward_bps, vote_power, penalty| LockupReward {
        lockup_days,
        reward_bps,
        vote_power,
        penalty,
    };
    StakingPool {
        authority: addr(ADMIN),
        token_mint: addr(MINT),
        pool_token_account: addr(POOL_TOKENS),
        staking_reward_account: addr(RESERVE),
        total_staked: 0,
        reward_issued: 0,
        bump: 255,
        stake_lockup_reward_array: [
            t(30, 50, 500, 100),
            t(90, 100, 1000, 150),
            t(180, 200, 1500, 200),
            t(365, 400, 2000, 250),
        ],
    }
}

fn tokens(key: u8, owner: u8, amount: u64) -> TokenAccountInfo {
    TokenAccountInfo { key: addr(key), mint: addr(MINT), owner: addr(owner), amount }
}

fn stake_accounts() -> Stake {
    Stake {
        staking_pool: addr(POOL),
        mint: addr(MINT),
        user_authority: addr(STAKER),
        user_token_account: tokens(41, STAKER, 5_000),
        pool_token_account: tokens(POOL_TOKENS, POOL, 0),
    }
}

fn unstake_accounts() -> Unstake {
    Unstake {
        staking_pool: addr(POOL),
        mint: addr(MINT),
        user_authority: addr(STAKER),
        staking_reward_ata: tokens(22, RESERVE, 1_000),
        user_token_account: tokens(41, STAKER, 5_000),
        pool_token_account: tokens(POOL_TOKENS, POOL, 2_000),
    }
}

fn request_accounts() -> UnstakeRequest {
    UnstakeRequest { staking_pool: addr(POOL), user_authority: addr(STAKER) }
}

fn claim_accounts(reserve: u64) -> ClaimReward {
    ClaimReward {
        staking_pool: addr(POOL),
        user_authority: addr(STAKER),
        user_token_account: tokens(41, STAKER, 5_000),
        staking_reward_ata: tokens(22, RESERVE, reserve),
        mint: addr(MINT),
    }
}

fn rewards_accounts() -> ReleaseRewards {
    ReleaseRewards {
        treasury_ata: tokens(50, TREASURY, 1_000_000),
        monthly_top_tier_ata: tokens(51, 3, 0),
        monthly_charity_lottery_ata: tokens(52, 4, 0),
        annual_top_tier_ata: tokens(53, 5, 0),
        annual_charity_lottery_ata: tokens(54, 6, 0),
        treasury_authority: addr(TREASURY),
        mint: addr(MINT),
    }
}

fn donations_accounts() -> ReleaseDonations {
    ReleaseDonations {
        treasury_ata: tokens(50, TREASURY, 1_000_000),
        monthly_one_time_causes_ata: tokens(55, 7, 0),
        monthly_infinite_impact_causes_ata: tokens(56, 8, 0),
        annual_one_time_causes_ata: tokens(57, 9, 0),
        annual_infinite_impact_causes_ata: tokens(58, 10, 0),
        char_funds_ata: tokens(59, 11, 0),
        treasury_authority: addr(TREASURY),
        mint: addr(MINT),
    }
}

fn staking_funds_accounts() -> ReleaseStakingFunds {
    ReleaseStakingFunds {
        treasury_ata: tokens(50, TREASURY, 1_000_000),
        staking_reward_ata: tokens(22, RESERVE, 0),
        treasury_authority: addr(TREASURY),
        mint: addr(MINT),
    }
}

fn marketing_accounts() -> DistributeMarketingFunds {
    DistributeMarketingFunds {
        signer1: addr(TREASURY),
        source_ata: tokens(50, TREASURY, 1_000_000),
        dest_wallet1_ata: tokens(60, 12, 0),
        dest_wallet2_ata: tokens(61, 13, 0),
        death_wallet_ata: tokens(62, DEATH, 0),
        mint: addr(MINT),
    }
}

fn buyback_accounts(balance: u64) -> ExecuteBuyback {
    ExecuteBuyback {
        mint: addr(MINT),
        burn_wallet_ata: tokens(62, DEATH, balance),
        burn_authority: addr(DEATH),
    }
}

const T0: u64 = 1_700_000_000;
const OPEN: u64 = T0 + 20 * SECONDS_PER_DAY;
const CLOSE: u64 = T0 + 30 * SECONDS_PER_DAY;

fn voter() -> UserStakeInfo {
    UserStakeInfo {
        eligible_at: T0,
        voting_power: 2_500,
        total_amount: 5_000,
        stake_count: 1,
        ..UserStakeInfo::empty(addr(STAKER), addr(POOL))
    }
}

fn charity() -> Charity {
    Charity {
        id: 7,
        title: String::from("Wells"),
        wallet: addr(70),
        total_votes: 10,
        start_time: OPEN,
        end_time: CLOSE,
        status: CharityStatus::Active,
        admin: addr(ADMIN),
    }
}

fn blank_record() -> VoteRecord {
    VoteRecord { charity: Address::zero(), voter: Address::zero(), vote_weight: 0, voted: false }
}

/// Pool, ledger and stake after one deposit of 2000 at 30 days through the
/// entry point.
fn staked() -> (StakingPool, UserStakeInfo, UserStakesEntry) {
    let mut p = pool();
    let mut u = UserStakeInfo::empty(Address::zero(), Address::zero());
    let mut e = UserStakesEntry::vacant();
    let r = stake_tokens_handler(&stake_accounts(), &config(), &mut p, &mut u, &mut e, 2_000, 30, T0);
    assert_eq!(r, Ok(()));
    (p, u, e)
}

#[test]
fn initialize_stores_the_configuration() {
    let mut account = ConfigAccount { config: halted() };
    initialize(&mut account, config());
    assert_eq!(account.config, config());
}

#[test]
fn staking_initialize_binds_the_pool() {
    let accounts = StakeInitialize {
        staking_pool: addr(POOL),
        staking_reward: addr(RESERVE),
        authority: addr(ADMIN),
        token_mint: addr(MINT),
        pool_token_account: tokens(POOL_TOKENS, POOL, 0),
    };
    let blank = StakingPool {
        authority: Address::zero(),
        token_mint: Address::zero(),
        pool_token_account: Address::zero(),
        staking_reward_account: Address::zero(),
        bump: 0,
        total_staked: 3,
        ..pool()
    };
    let mut p = blank;
    assert_eq!(staking_initialize(&accounts, &config(), &mut p, 255), Ok(()));
    assert_eq!(p, StakingPool { total_staked: 3, ..pool() });

    let mut p = blank;
    let by_stranger = StakeInitialize { authority: addr(STRANGER), ..accounts };
    assert_eq!(staking_initialize(&by_stranger, &config(), &mut p, 255), Err(CustomError::Unauthorized));
    let other_mint = StakeInitialize { token_mint: addr(STRANGER), ..accounts };
    assert_eq!(staking_initialize(&other_mint, &config(), &mut p, 255), Err(CustomError::InvalidArg));
    let not_owned = StakeInitialize { pool_token_account: tokens(POOL_TOKENS, STRANGER, 0), ..accounts };
    assert_eq!(staking_initialize(&not_owned, &config(), &mut p, 255), Err(CustomError::InvalidArg));
    assert_eq!(p, blank);
    // the halt does not stop the initialization
    assert_eq!(staking_initialize(&accounts, &halted(), &mut p, 255), Ok(()));
}

#[test]
fn update_settings_replaces_the_two_thresholds() {
    let mut account = ConfigAccount { config: config() };
    assert_eq!(update_settings(&Settings { admin: addr(ADMIN) }, &mut account, 5, 6), Ok(()));
    assert_eq!(
        account.config,
        Config { min_governance_stake: 5, min_stake_duration_voting: 6, ..config() }
    );
}

#[test]
fn update_settings_is_for_the_admin_of_a_running_program() {
    let mut account = ConfigAccount { config: halted() };
    assert_eq!(
        update_settings(&Settings { admin: addr(ADMIN) }, &mut account, 5, 6),
        Err(CustomError::ProgramIsHalted)
    );
    assert_eq!(
        update_settings(&Settings { admin: addr(STRANGER) }, &mut account, 5, 6),
        Err(CustomError::Unauthorized)
    );
    assert_eq!(account.config, halted());
}

#[test]
fn only_the_admin_changes_the_emergency_state() {
    let mut account = ConfigAccount { config: config() };
    let admin = InitializeEmergencyState { payer: addr(ADMIN) };
    let stranger = InitializeEmergencyState { payer: addr(STRANGER) };
    assert_eq!(
        change_emergency_state_handler(&stranger, &mut account, true),
        Err(CustomError::Unauthorized)
    );
    assert_eq!(account.config, config());
    assert_eq!(change_emergency_state_handler(&admin, &mut account, true), Ok(()));
    assert_eq!(account.config, halted());
    // the halt does not stop the admin from lifting it
    assert_eq!(change_emergency_state_handler(&admin, &mut account, false), Ok(()));
    assert_eq!(account.config, config());
}

#[test]
fn stake_through_the_entry_point() {
    let (p, u, e) = staked();
    assert_eq!(p.total_staked, 2_000);
    assert_eq!(u.authority, addr(STAKER));
    assert_eq!(u.staking_pool, addr(POOL));
    assert_eq!(u.voting_power, 1_000);
    assert_eq!(u.eligible_at, T0);
    assert_eq!(e.amount, 2_000);
}

#[test]
fn stake_with_wrong_accounts_is_an_invalid_argument() {
    let good = stake_accounts();
    let wrong = [
        Stake { mint: addr(STRANGER), ..good },
        Stake { user_token_account: tokens(41, STRANGER, 5_000), ..good },
        Stake {
            user_token_account: TokenAccountInfo { mint: addr(STRANGER), ..good.user_token_account },
            ..good
        },
        Stake { pool_token_account: tokens(STRANGER, POOL, 0), ..good },
    ];
    for accounts in wrong {
        let mut p = pool();
        let mut u = UserStakeInfo::empty(addr(STAKER), addr(POOL));
        let mut e = UserStakesEntry::vacant();
        let r = stake_tokens_handler(&accounts, &config(), &mut p, &mut u, &mut e, 2_000, 30, T0);
        assert_eq!(r, Err(CustomError::InvalidArg));
        assert_eq!((p, u, e), (pool(), UserStakeInfo::empty(addr(STAKER), addr(POOL)), UserStakesEntry::vacant()));
    }
}

#[test]
fn only_the_staker_requests_withdraws_and_claims() {
    let (mut p, mut u, mut e) = staked();
    let before = (p, u, e);
    let cfg = config();
    let stranger_request = UnstakeRequest { user_authority: addr(STRANGER), ..request_accounts() };
    assert_eq!(
        request_unstake_handler(&stranger_request, &cfg, &p, &mut u, &mut e, T0 + 1),
        Err(CustomError::Unauthorized)
    );
    let other_pool = UnstakeRequest { staking_pool: addr(STRANGER), ..request_accounts() };
    assert_eq!(
        request_unstake_handler(&other_pool, &cfg, &p, &mut u, &mut e, T0 + 1),
        Err(CustomError::Unauthorized)
    );
    let stranger_unstake = Unstake { user_authority: addr(STRANGER), ..unstake_accounts() };
    assert_eq!(
        unstake_tokens_handler(&stranger_unstake, &cfg, &mut p, &mut u, &mut e, T0 + 1),
        Err(CustomError::Unauthorized)
    );
    let stranger_claim = ClaimReward { user_authority: addr(STRANGER), ..claim_accounts(1_000) };
    assert_eq!(
        claim_reward_handler(&stranger_claim, &cfg, &mut p, &mut u, &mut e, T0 + 30 * SECONDS_PER_DAY),
        Err(CustomError::Unauthorized)
    );
    assert_eq!((p, u, e), before);
}

#[test]
fn withdrawal_and_claim_check_the_token_accounts() {
    let (mut p, mut u, mut e) = staked();
    let cfg = config();
    let wrong_unstake = [
        Unstake { mint: addr(STRANGER), ..unstake_accounts() },
        Unstake { staking_reward_ata: tokens(22, STRANGER, 0), ..unstake_accounts() },
        Unstake { user_token_account: tokens(41, STRANGER, 0), ..unstake_accounts() },
        Unstake { pool_token_account: tokens(STRANGER, POOL, 0), ..unstake_accounts() },
    ];
    for accounts in wrong_unstake {
        assert_eq!(
            unstake_tokens_handler(&accounts, &cfg, &mut p, &mut u, &mut e, T0 + 1),
            Err(CustomError::InvalidArg)
        );
    }
    let wrong_claim = [
        ClaimReward { mint: addr(STRANGER), ..claim_accounts(1_000) },
        ClaimReward { staking_reward_ata: tokens(22, STRANGER, 1_000), ..claim_accounts(1_000) },
        ClaimReward { user_token_account: tokens(41, STRANGER, 0), ..claim_accounts(1_000) },
    ];
    for accounts in wrong_claim {
        assert_eq!(
            claim_reward_handler(&accounts, &cfg, &mut p, &mut u, &mut e, T0 + 30 * SECONDS_PER_DAY),
            Err(CustomError::InvalidArg)
        );
    }
    assert_eq!(e.current_period, 0);
}

#[test]
fn the_life_of_a_stake_through_the_entry_points() {
    let (mut p, mut u, mut e) = staked();
    let cfg = config();
    assert_eq!(
        claim_reward_handler(&claim_accounts(1_000), &cfg, &mut p, &mut u, &mut e, T0 + 30 * SECONDS_PER_DAY),
        Ok(100)
    );
    assert_eq!(
        claim_reward_handler(&claim_accounts(900), &cfg, &mut p, &mut u, &mut e, T0 + 30 * SECONDS_PER_DAY),
        Err(CustomError::StakingPeriodNotMet)
    );
    assert_eq!(
        claim_reward_handler(&claim_accounts(0), &cfg, &mut p, &mut u, &mut e, T0 + 60 * SECONDS_PER_DAY),
        Err(CustomError::StakingRewardInsufficientBalance)
    );
    let requested = T0 + 31 * SECONDS_PER_DAY;
    assert_eq!(request_unstake_handler(&request_accounts(), &cfg, &p, &mut u, &mut e, requested), Ok(()));
    assert_eq!(
        unstake_tokens_handler(&unstake_accounts(), &cfg, &mut p, &mut u, &mut e, requested + MATURITY_DELAY_SECONDS - 1),
        Err(CustomError::WaitPeriodNotOverYet)
    );
    assert_eq!(
        unstake_tokens_handler(&unstake_accounts(), &cfg, &mut p, &mut u, &mut e, requested + MATURITY_DELAY_SECONDS),
        Ok(Withdrawal { amount_to_return: 2_000, fee: 0 })
    );
    assert_eq!(p.total_staked, 0);
}

#[test]
fn a_halted_program_refuses_every_guarded_entry_point() {
    let cfg = halted();
    let (mut p, mut u, mut e) = staked();
    let before = (p, u, e);
    let mut fresh = UserStakesEntry::vacant();
    assert_eq!(
        stake_tokens_handler(&stake_accounts(), &cfg, &mut p, &mut u, &mut fresh, 5, 30, T0),
        Err(CustomError::ProgramIsHalted)
    );
    assert_eq!(
        request_unstake_handler(&request_accounts(), &cfg, &p, &mut u, &mut e, T0),
        Err(CustomError::ProgramIsHalted)
    );
    assert_eq!(
        unstake_tokens_handler(&unstake_accounts(), &cfg, &mut p, &mut u, &mut e, T0),
        Err(CustomError::ProgramIsHalted)
    );
    assert_eq!(
        claim_reward_handler(&claim_accounts(5), &cfg, &mut p, &mut u, &mut e, T0),
        Err(CustomError::ProgramIsHalted)
    );
    assert_eq!(
        set_reward_percentage_handler(
            &SetReward { admin: addr(ADMIN) }, &cfg, &mut p,
            1, 2, 3, 4, 5, 6, 7, 8, 9, 10, 11, 12, 13, 14, 15, 16
        ),
        Err(CustomError::ProgramIsHalted)
    );
    assert_eq!((p, u, e, fresh), (before.0, before.1, before.2, UserStakesEntry::vacant()));
    let mut account = ConfigAccount { config: cfg };
    assert_eq!(
        buyback_burn_handler(&buyback_accounts(5), &mut account, T0),
        Err(CustomError::ProgramIsHalted)
    );
    let registrar = RegisterCharity { registrar: addr(ADMIN), admin: addr(ADMIN) };
    assert_eq!(
        register_charity_handler(&registrar, &mut account, String::new(), addr(70), OPEN, CLOSE),
        Err(CustomError::ProgramIsHalted)
    );
    assert_eq!(account.config, cfg);
    let mut c = charity();
    let mut record = blank_record();
    let mut v = voter();
    assert_eq!(
        cast_vote_handler(&cfg, &mut c, addr(71), &mut record, &mut v, addr(STAKER), 1, OPEN),
        Err(CustomError::ProgramIsHalted)
    );
    assert_eq!(
        finalize_charity_vote_handler(&FinalizeCharityVote { admin: addr(ADMIN) }, &cfg, &mut c, CLOSE + 1),
        Err(CustomError::ProgramIsHalted)
    );
    assert_eq!((c, record, v), (charity(), blank_record(), voter()));
    assert_eq!(release_rewards_handler(&rewards_accounts(), &cfg, 1000), Err(CustomError::ProgramIsHalted));
    assert_eq!(release_donations_handler(&donations_accounts(), &cfg, 1000), Err(CustomError::ProgramIsHalted));
    assert_eq!(
        release_staking_funds_handler(&staking_funds_accounts(), &cfg, &pool(), 1000),
        Err(CustomError::ProgramIsHalted)
    );
    assert_eq!(
        distribute_marketing_funds_handler(&marketing_accounts(), &cfg, 1000, T0),
        Err(CustomError::ProgramIsHalted)
    );
}

#[test]
fn the_rules_on_the_accounts_come_before_the_halt() {
    let cfg = halted();
    assert_eq!(
        release_rewards_handler(&ReleaseRewards { treasury_authority: addr(STRANGER), ..rewards_accounts() }, &cfg, 1000),
        Err(CustomError::Unauthorized)
    );
    let mut p = pool();
    assert_eq!(
        set_reward_percentage_handler(
            &SetReward { admin: addr(STRANGER) }, &cfg, &mut p,
            1, 2, 3, 4, 5, 6, 7, 8, 9, 10, 11, 12, 13, 14, 15, 16
        ),
        Err(CustomError::Unauthorized)
    );
    assert_eq!(p, pool());
}

#[test]
fn only_the_admin_replaces_the_tiers() {
    let mut p = pool();
    let cfg = config();
    assert_eq!(
        set_reward_percentage_handler(
            &SetReward { admin: addr(STRANGER) }, &cfg, &mut p,
            1, 2, 3, 4, 5, 6, 7, 8, 9, 10, 11, 12, 13, 14, 15, 16
        ),
        Err(CustomError::Unauthorized)
    );
    assert_eq!(p, pool());
    assert_eq!(
        set_reward_percentage_handler(
            &SetReward { admin: addr(ADMIN) }, &cfg, &mut p,
            1, 2, 3, 4, 5, 6, 7, 8, 9, 10, 11, 12, 13, 14, 15, 16
        ),
        Ok(())
    );
    assert_eq!(
        p.stake_lockup_reward_array[3],
        LockupReward { lockup_days: 14, reward_bps: 13, vote_power: 15, penalty: 16 }
    );
    assert_eq!(p.total_staked, 0);
}

#[test]
fn buyback_through_the_entry_point() {
    let mut account = ConfigAccount { config: config() };
    assert_eq!(
        buyback_burn_handler(&buyback_accounts(250), &mut account, T0),
        Ok(BuybackBurnEvent { tokens_bought: 250, new_total_burned: 350, timestamp: T0 })
    );
    assert_eq!(
        buyback_burn_handler(&buyback_accounts(0), &mut account, T0),
        Err(CustomError::NoTokensToBuyback)
    );
    let by_stranger = ExecuteBuyback { burn_authority: addr(STRANGER), ..buyback_accounts(5) };
    assert_eq!(buyback_burn_handler(&by_stranger, &mut account, T0), Err(CustomError::Unauthorized));
    let other_wallet = ExecuteBuyback { burn_wallet_ata: tokens(62, STRANGER, 5), ..buyback_accounts(5) };
    assert_eq!(buyback_burn_handler(&other_wallet, &mut account, T0), Err(CustomError::InvalidArg));
    let other_mint = ExecuteBuyback { mint: addr(STRANGER), ..buyback_accounts(5) };
    assert_eq!(buyback_burn_handler(&other_mint, &mut account, T0), Err(CustomError::InvalidArg));
    assert_eq!(account.config.total_burned, 350);
}

#[test]
fn charities_through_the_entry_points() {
    let cfg = config();
    let mut account = ConfigAccount { config: cfg };
    let registrar = RegisterCharity { registrar: addr(ADMIN), admin: addr(ADMIN) };
    let c = register_charity_handler(&registrar, &mut account, String::from("Wells"), addr(70), OPEN, CLOSE);
    assert_eq!(c, Ok(Charity { total_votes: 0, ..charity() }));
    assert_eq!(account.config.next_charity_id, 8);
    let stranger = RegisterCharity { registrar: addr(STRANGER), admin: addr(ADMIN) };
    assert_eq!(
        register_charity_handler(&stranger, &mut account, String::from("Wells"), addr(70), OPEN, CLOSE),
        Err(CustomError::Unauthorized)
    );
    assert_eq!(account.config.next_charity_id, 8);

    let mut c = charity();
    let mut record = blank_record();
    let mut v = voter();
    assert_eq!(cast_vote_handler(&cfg, &mut c, addr(71), &mut record, &mut v, addr(STAKER), 1, OPEN), Ok(()));
    assert_eq!(c.total_votes, 2_510);
    assert_eq!(v.voting_power, 2_499);
    assert_eq!(
        finalize_charity_vote_handler(&FinalizeCharityVote { admin: addr(STRANGER) }, &cfg, &mut c, CLOSE + 1),
        Err(CustomError::Unauthorized)
    );
    assert_eq!(
        finalize_charity_vote_handler(&FinalizeCharityVote { admin: addr(ADMIN) }, &cfg, &mut c, CLOSE),
        Err(CustomError::VotingNotEnded)
    );
    assert_eq!(
        finalize_charity_vote_handler(&FinalizeCharityVote { admin: addr(ADMIN) }, &cfg, &mut c, CLOSE + 1),
        Ok(())
    );
    assert_eq!(c.status, CharityStatus::Finalized);
}

#[test]
fn releases_through_the_entry_points() {
    let cfg = config();
    assert_eq!(release_rewards_handler(&rewards_accounts(), &cfg, 1000).unwrap().monthly_top_tier, 37);
    assert_eq!(release_donations_handler(&donations_accounts(), &cfg, 1000).unwrap().char_fund, 60);
    assert_eq!(release_staking_funds_handler(&staking_funds_accounts(), &cfg, &pool(), 1000), Ok(150));
    assert_eq!(
        distribute_marketing_funds_handler(&marketing_accounts(), &cfg, 1000, T0),
        Ok(MarketingFundDistributionEvent {
            marketing_wallet_1_amount: 425,
            marketing_wallet_2_amount: 425,
            death_wallet_amount: 150,
            timestamp: T0,
        })
    );
    assert_eq!(release_rewards_handler(&rewards_accounts(), &cfg, u64::MAX), Err(CustomError::MathError));
    assert_eq!(release_donations_handler(&donations_accounts(), &cfg, u64::MAX), Err(CustomError::MathError));
    assert_eq!(
        release_staking_funds_handler(&staking_funds_accounts(), &cfg, &pool(), u64::MAX),
        Err(CustomError::MathError)
    );
    assert_eq!(
        distribute_marketing_funds_handler(&marketing_accounts(), &cfg, u64::MAX, T0),
        Err(CustomError::MathError)
    );
}

#[test]
fn releases_are_for_the_treasury_authority_and_the_configured_wallets() {
    let cfg = config();
    let r = rewards_accounts();
    assert_eq!(
        release_rewards_handler(&ReleaseRewards { treasury_authority: addr(STRANGER), ..r }, &cfg, 1000),
        Err(CustomError::Unauthorized)
    );
    for wrong in [
        ReleaseRewards { treasury_ata: tokens(50, STRANGER, 0), ..r },
        ReleaseRewards { monthly_top_tier_ata: tokens(51, STRANGER, 0), ..r },
        ReleaseRewards { monthly_charity_lottery_ata: tokens(52, STRANGER, 0), ..r },
        ReleaseRewards { annual_top_tier_ata: tokens(53, STRANGER, 0), ..r },
        ReleaseRewards { annual_charity_lottery_ata: tokens(54, STRANGER, 0), ..r },
        ReleaseRewards { mint: addr(STRANGER), ..r },
    ] {
        assert_eq!(release_rewards_handler(&wrong, &cfg, 1000), Err(CustomError::InvalidArg));
    }
    let d = donations_accounts();
    assert_eq!(
        release_donations_handler(&ReleaseDonations { treasury_authority: addr(STRANGER), ..d }, &cfg, 1000),
        Err(CustomError::Unauthorized)
    );
    for wrong in [
        ReleaseDonations { treasury_ata: tokens(50, STRANGER, 0), ..d },
        ReleaseDonations { monthly_one_time_causes_ata: tokens(55, STRANGER, 0), ..d },
        ReleaseDonations { monthly_infinite_impact_causes_ata: tokens(56, STRANGER, 0), ..d },
        ReleaseDonations { annual_one_time_causes_ata: tokens(57, STRANGER, 0), ..d },
        ReleaseDonations { annual_infinite_impact_causes_ata: tokens(58, STRANGER, 0), ..d },
        ReleaseDonations { char_funds_ata: tokens(59, STRANGER, 0), ..d },
        ReleaseDonations { mint: addr(STRANGER), ..d },
    ] {
        assert_eq!(release_donations_handler(&wrong, &cfg, 1000), Err(CustomError::InvalidArg));
    }
    let s = staking_funds_accounts();
    assert_eq!(
        release_staking_funds_handler(&ReleaseStakingFunds { treasury_authority: addr(STRANGER), ..s }, &cfg, &pool(), 1000),
        Err(CustomError::Unauthorized)
    );
    for wrong in [
        ReleaseStakingFunds { treasury_ata: tokens(50, STRANGER, 0), ..s },
        ReleaseStakingFunds { staking_reward_ata: tokens(22, STRANGER, 0), ..s },
        ReleaseStakingFunds { mint: addr(STRANGER), ..s },
    ] {
        assert_eq!(release_staking_funds_handler(&wrong, &cfg, &pool(), 1000), Err(CustomError::InvalidArg));
    }
    let m = marketing_accounts();
    assert_eq!(
        distribute_marketing_funds_handler(&DistributeMarketingFunds { signer1: addr(STRANGER), ..m }, &cfg, 1000, T0),
        Err(CustomError::Unauthorized)
    );
    for wrong in [
        DistributeMarketingFunds { source_ata: tokens(50, STRANGER, 0), ..m },
        DistributeMarketingFunds { dest_wallet1_ata: tokens(60, STRANGER, 0), ..m },
        DistributeMarketingFunds { dest_wallet2_ata: tokens(61, STRANGER, 0), ..m },
        DistributeMarketingFunds { death_wallet_ata: tokens(62, STRANGER, 0), ..m },
        DistributeMarketingFunds { mint: addr(STRANGER), ..m },
    ] {
        assert_eq!(distribute_marketing_funds_handler(&wrong, &cfg, 1000, T0), Err(CustomError::InvalidArg));
    }
}

#[test]
fn the_first_broken_rule_decides_the_error() {
    let cfg = config();
    // the treasury account is listed before the authority
    let both = ReleaseRewards {
        treasury_ata: tokens(50, STRANGER, 0),
        treasury_authority: addr(STRANGER),
        ..rewards_accounts()
    };
    assert_eq!(both.validate(&cfg), Err(CustomError::InvalidArg));
    // the signer is listed before the source account
    let both = DistributeMarketingFunds {
        signer1: addr(STRANGER),
        source_ata: tokens(50, STRANGER, 0),
        ..marketing_accounts()
    };
    assert_eq!(both.validate(&cfg), Err(CustomError::Unauthorized));
    assert_eq!(rewards_accounts().validate(&cfg), Ok(()));
    assert!(tokens(1, 2, 0).holds(&addr(MINT), &addr(2)));
    assert!(!tokens(1, 2, 0).holds(&addr(MINT), &addr(3)));
    assert!(!tokens(1, 2, 0).holds(&addr(3), &addr(2)));
}
