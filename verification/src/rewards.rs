//! The fund waterfall: a treasury disbursement cascades down a fixed tree
//! of permille splits to the wallets at its leaves.
//!
//! ```text
//! total
//! |- staking                            150
//! `- donation ecosystem                 750
//!    |- reward system                   200
//!    |  |- monthly classification       500
//!    |  |  |- top tier                  500
//!    |  |  `- charity lottery           500
//!    |  `- annual classification        500
//!    |     |- top tier                  500
//!    |     `- charity lottery           500
//!    `- donation system                 800
//!       |- monthly fund                 800
//!       |  |- one-time causes           500
//!       |  `- infinite-impact causes    500
//!       |- annual fund                  100
//!       |  |- one-time causes           500
//!       |  `- infinite-impact causes    500
//!       `- char fund                    100
//! ```
//!
//! Every node is `floor(parent * share / 1000)`, taken level by level, so
//! each level truncates on its own. What truncation leaves over is paid to
//! nobody: it stays in the treasury.

use vstd::prelude::*;
use crate::errors::CustomError;
use crate::math::{checked_share, lemma_permille_bounded, lemma_permille_split, permille_of};

verus! {

pub const STAKING_SHARE: u64 = 150;

pub const DONATION_ECOSYSTEM_SHARE: u64 = 750;

pub const REWARD_SYSTEM_SHARE: u64 = 200;

pub const DONATION_SYSTEM_SHARE: u64 = 800;

pub const MONTHLY_FUND_SHARE: u64 = 800;

pub const ANNUAL_FUND_SHARE: u64 = 100;

pub const CHAR_FUND_SHARE: u64 = 100;

/// Share of each of the two children of a node that splits in halves.
pub const HALF_SHARE: u64 = 500;

/// Payouts of the reward branch, one for each leaf wallet.
#[derive(Clone, Copy, Debug, PartialEq, Eq)]
pub struct RewardsRelease {
    pub monthly_top_tier: u64,
    pub monthly_charity_lottery: u64,
    pub annual_top_tier: u64,
    pub annual_charity_lottery: u64,
}

/// Payouts of the donation branch, one for each leaf wallet.
#[derive(Clone, Copy, Debug, PartialEq, Eq)]
pub struct DonationsRelease {
    pub monthly_one_time_causes: u64,
    pub monthly_infinite_impact_causes: u64,
    pub annual_one_time_causes: u64,
    pub annual_infinite_impact_causes: u64,
    pub char_fund: u64,
}

/// Every amount of the waterfall of one disbursement, inner nodes and
/// leaves, with the time it was computed at.
#[derive(Clone, Copy, Debug, PartialEq, Eq)]
pub struct FundWaterfall {
    pub total_amount: u64,
    pub staking: u64,
    pub donation_ecosystem: u64,
    pub reward_system: u64,
    pub monthly_reward_classification: u64,
    pub annual_reward_classification: u64,
    pub donation_system: u64,
    pub monthly_fund: u64,
    pub annual_fund: u64,
    pub rewards: RewardsRelease,
    pub donations: DonationsRelease,
    pub timestamp: u64,
}

pub open spec fn staking_node(total: nat) -> nat {
    permille_of(total, STAKING_SHARE as nat)
}

pub open spec fn donation_ecosystem_node(total: nat) -> nat {
    permille_of(total, DONATION_ECOSYSTEM_SHARE as nat)
}

pub open spec fn reward_system_node(total: nat) -> nat {
    permille_of(donation_ecosystem_node(total), REWARD_SYSTEM_SHARE as nat)
}

/// The monthly and the annual classification get the same amount.
pub open spec fn reward_classification_node(total: nat) -> nat {
    permille_of(reward_system_node(total), HALF_SHARE as nat)
}

/// Each of the four reward leaves gets the same amount.
pub open spec fn reward_leaf(total: nat) -> nat {
    permille_of(reward_classification_node(total), HALF_SHARE as nat)
}

pub open spec fn donation_system_node(total: nat) -> nat {
    permille_of(donation_ecosystem_node(total), DONATION_SYSTEM_SHARE as nat)
}

pub open spec fn monthly_fund_node(total: nat) -> nat {
    permille_of(donation_system_node(total), MONTHLY_FUND_SHARE as nat)
}

pub open spec fn annual_fund_node(total: nat) -> nat {
    permille_of(donation_system_node(total), ANNUAL_FUND_SHARE as nat)
}

pub open spec fn char_fund_leaf(total: nat) -> nat {
    permille_of(donation_system_node(total), CHAR_FUND_SHARE as nat)
}

/// Each of the two monthly causes gets the same amount.
pub open spec fn monthly_cause_leaf(total: nat) -> nat {
    permille_of(monthly_fund_node(total), HALF_SHARE as nat)
}

/// Each of the two annual causes gets the same amount.
pub open spec fn annual_cause_leaf(total: nat) -> nat {
    permille_of(annual_fund_node(total), HALF_SHARE as nat)
}

/// The payouts of the reward branch for a disbursement of `total`.
pub open spec fn rewards_of(total: nat) -> RewardsRelease {
    RewardsRelease {
        monthly_top_tier: reward_leaf(total) as u64,
        monthly_charity_lottery: reward_leaf(total) as u64,
        annual_top_tier: reward_leaf(total) as u64,
        annual_charity_lottery: reward_leaf(total) as u64,
    }
}

/// The payouts of the donation branch for a disbursement of `total`.
pub open spec fn donations_of(total: nat) -> DonationsRelease {
    DonationsRelease {
        monthly_one_time_causes: monthly_cause_leaf(total) as u64,
        monthly_infinite_impact_causes: monthly_cause_leaf(total) as u64,
        annual_one_time_causes: annual_cause_leaf(total) as u64,
        annual_infinite_impact_causes: annual_cause_leaf(total) as u64,
        char_fund: char_fund_leaf(total) as u64,
    }
}

/// Sum of what the ten leaves of the tree are paid.
pub open spec fn paid_out(total: nat) -> nat {
    staking_node(total) + 4 * reward_leaf(total) + 2 * monthly_cause_leaf(total) + 2
        * annual_cause_leaf(total) + char_fund_leaf(total)
}

/// The waterfall never pays out more than the disbursement: the children
/// of a node never get more than the node, so truncation can only leave
/// dust behind in the treasury, never create a debt.
pub proof fn lemma_waterfall_conserves(total: nat)
    ensures
        paid_out(total) <= total,
{
    let eco = donation_ecosystem_node(total);
    let rs = reward_system_node(total);
    let rc = reward_classification_node(total);
    let ds = donation_system_node(total);
    let mf = monthly_fund_node(total);
    let af = annual_fund_node(total);
    lemma_permille_split(rc, 500, 500);
    lemma_permille_bounded(rc, 1000);
    lemma_permille_split(rs, 500, 500);
    lemma_permille_bounded(rs, 1000);
    lemma_permille_split(mf, 500, 500);
    lemma_permille_bounded(mf, 1000);
    lemma_permille_split(af, 500, 500);
    lemma_permille_bounded(af, 1000);
    lemma_permille_split(ds, 800, 100);
    lemma_permille_split(ds, 900, 100);
    lemma_permille_bounded(ds, 1000);
    lemma_permille_split(eco, 200, 800);
    lemma_permille_bounded(eco, 1000);
    lemma_permille_split(total, 150, 750);
    lemma_permille_bounded(total, 900);
}

/// One split of the tree; `None` when `parent * share` leaves 64 bits.
fn split(parent: u64, share: u64) -> (r: Option<u64>)
    requires
        share <= 1000,
    ensures
        r == (if parent * share <= u64::MAX {
            Some(permille_of(parent as nat, share as nat) as u64)
        } else {
            None
        }),
        r matches Some(child) ==> child <= parent && child * 1000 <= parent * share,
{
    proof {
        lemma_permille_bounded(parent as nat, share as nat);
    }
    checked_share(parent, share)
}

/// Computes what the reward branch pays of a disbursement of
/// `total_amount`: the four leaves under the reward system. Refused with
/// `MathError` exactly when `total_amount * 750` leaves 64 bits.
pub fn release_rewards(total_amount: u64) -> (r: Result<RewardsRelease, CustomError>)
    ensures
        r == (if total_amount * DONATION_ECOSYSTEM_SHARE <= u64::MAX {
            Ok::<RewardsRelease, CustomError>(rewards_of(total_amount as nat))
        } else {
            Err(CustomError::MathError)
        }),
{
    let donation_total = match split(total_amount, DONATION_ECOSYSTEM_SHARE) {
        Some(v) => v,
        None => {
            return Err(CustomError::MathError);
        },
    };
    let reward_system = match split(donation_total, REWARD_SYSTEM_SHARE) {
        Some(v) => v,
        None => {
            return Err(CustomError::MathError);
        },
    };
    let monthly_reward_classification = match split(reward_system, HALF_SHARE) {
        Some(v) => v,
        None => {
            return Err(CustomError::MathError);
        },
    };
    let monthly_top_tier = match split(monthly_reward_classification, HALF_SHARE) {
        Some(v) => v,
        None => {
            return Err(CustomError::MathError);
        },
    };
    let monthly_charity_lottery = match split(monthly_reward_classification, HALF_SHARE) {
        Some(v) => v,
        None => {
            return Err(CustomError::MathError);
        },
    };
    let annual_reward_classification = match split(reward_system, HALF_SHARE) {
        Some(v) => v,
        None => {
            return Err(CustomError::MathError);
        },
    };
    let annual_top_tier = match split(annual_reward_classification, HALF_SHARE) {
        Some(v) => v,
        None => {
            return Err(CustomError::MathError);
        },
    };
    let annual_charity_lottery = match split(annual_reward_classification, HALF_SHARE) {
        Some(v) => v,
        None => {
            return Err(CustomError::MathError);
        },
    };
    Ok(
        RewardsRelease {
            monthly_top_tier,
            monthly_charity_lottery,
            annual_top_tier,
            annual_charity_lottery,
        },
    )
}

/// Computes what the donation branch pays of a disbursement of
/// `total_amount`: the five leaves under the donation system. Refused with
/// `MathError` exactly when `total_amount * 750` leaves 64 bits.
pub fn release_donations(total_amount: u64) -> (r: Result<DonationsRelease, CustomError>)
    ensures
        r == (if total_amount * DONATION_ECOSYSTEM_SHARE <= u64::MAX {
            Ok::<DonationsRelease, CustomError>(donations_of(total_amount as nat))
        } else {
            Err(CustomError::MathError)
        }),
{
    let donation_total = match split(total_amount, DONATION_ECOSYSTEM_SHARE) {
        Some(v) => v,
        None => {
            return Err(CustomError::MathError);
        },
    };
    let donation_system = match split(donation_total, DONATION_SYSTEM_SHARE) {
        Some(v) => v,
        None => {
            return Err(CustomError::MathError);
        },
    };
    let monthly_donation_fund = match split(donation_system, MONTHLY_FUND_SHARE) {
        Some(v) => v,
        None => {
            return Err(CustomError::MathError);
        },
    };
    let annual_donation_fund = match split(donation_system, ANNUAL_FUND_SHARE) {
        Some(v) => v,
        None => {
            return Err(CustomError::MathError);
        },
    };
    let char_fund = match split(donation_system, CHAR_FUND_SHARE) {
        Some(v) => v,
        None => {
            return Err(CustomError::MathError);
        },
    };
    let monthly_one_time_causes = match split(monthly_donation_fund, HALF_SHARE) {
        Some(v) => v,
        None => {
            return Err(CustomError::MathError);
        },
    };
    let monthly_infinite_impact_causes = match split(monthly_donation_fund, HALF_SHARE) {
        Some(v) => v,
        None => {
            return Err(CustomError::MathError);
        },
    };
    let annual_one_time_causes = match split(annual_donation_fund, HALF_SHARE) {
        Some(v) => v,
        None => {
            return Err(CustomError::MathError);
        },
    };
    let annual_infinite_impact_causes = match split(annual_donation_fund, HALF_SHARE) {
        Some(v) => v,
        None => {
            return Err(CustomError::MathError);
        },
    };
    Ok(
        DonationsRelease {
            monthly_one_time_causes,
            monthly_infinite_impact_causes,
            annual_one_time_causes,
            annual_infinite_impact_causes,
            char_fund,
        },
    )
}

/// Computes what a disbursement of `total_amount` pays into the staking
/// reward reserve. Refused with `MathError` exactly when
/// `total_amount * 150` leaves 64 bits.
pub fn release_staking_char_funds(total_amount: u64) -> (r: Result<u64, CustomError>)
    ensures
        r == (if total_amount * STAKING_SHARE <= u64::MAX {
            Ok::<u64, CustomError>(staking_node(total_amount as nat) as u64)
        } else {
            Err(CustomError::MathError)
        }),
{
    match split(total_amount, STAKING_SHARE) {
        Some(v) => Ok(v),
        None => Err(CustomError::MathError),
    }
}

/// Every amount of the waterfall of a disbursement of `total` computed at
/// `timestamp`.
pub open spec fn waterfall_of(total: u64, timestamp: u64) -> FundWaterfall {
    FundWaterfall {
        total_amount: total,
        staking: staking_node(total as nat) as u64,
        donation_ecosystem: donation_ecosystem_node(total as nat) as u64,
        reward_system: reward_system_node(total as nat) as u64,
        monthly_reward_classification: reward_classification_node(total as nat) as u64,
        annual_reward_classification: reward_classification_node(total as nat) as u64,
        donation_system: donation_system_node(total as nat) as u64,
        monthly_fund: monthly_fund_node(total as nat) as u64,
        annual_fund: annual_fund_node(total as nat) as u64,
        rewards: rewards_of(total as nat),
        donations: donations_of(total as nat),
        timestamp,
    }
}

/// Computes the whole waterfall of a disbursement of `total_amount`: the
/// summary of every amount, stamped with `timestamp`. Refused with
/// `MathError` exactly when `total_amount * 750` leaves 64 bits.
pub fn fund_waterfall(total_amount: u64, timestamp: u64) -> (r: Result<
    FundWaterfall,
    CustomError,
>)
    ensures
        r == (if total_amount * DONATION_ECOSYSTEM_SHARE <= u64::MAX {
            Ok::<FundWaterfall, CustomError>(waterfall_of(total_amount, timestamp))
        } else {
            Err(CustomError::MathError)
        }),
{
    let rewards = match release_rewards(total_amount) {
        Ok(v) => v,
        Err(e) => {
            return Err(e);
        },
    };
    let donations = match release_donations(total_amount) {
        Ok(v) => v,
        Err(e) => {
            return Err(e);
        },
    };
    let staking = match release_staking_char_funds(total_amount) {
        Ok(v) => v,
        Err(e) => {
            return Err(e);
        },
    };
    let donation_ecosystem = total_amount * DONATION_ECOSYSTEM_SHARE / 1000;
    let reward_system = donation_ecosystem * REWARD_SYSTEM_SHARE / 1000;
    let classification = reward_system * HALF_SHARE / 1000;
    let donation_system = donation_ecosystem * DONATION_SYSTEM_SHARE / 1000;
    let monthly_fund = donation_system * MONTHLY_FUND_SHARE / 1000;
    let annual_fund = donation_system * ANNUAL_FUND_SHARE / 1000;
    Ok(
        FundWaterfall {
            total_amount,
            staking,
            donation_ecosystem,
            reward_system,
            monthly_reward_classification: classification,
            annual_reward_classification: classification,
            donation_system,
            monthly_fund,
            annual_fund,
            rewards,
            donations,
            timestamp,
        },
    )
}

} // verus!
