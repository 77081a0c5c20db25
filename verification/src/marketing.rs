//! The marketing split: 42.5% to each of the two marketing wallets and 15%
//! to the death wallet.

use vstd::prelude::*;
use crate::errors::CustomError;
use crate::math::{checked_share, lemma_permille_bounded, lemma_permille_split, permille_of};

verus! {

pub const MARKETING_WALLET_SHARE: u64 = 425;

pub const DEATH_WALLET_SHARE: u64 = 150;

/// Record of one marketing distribution.
#[derive(Clone, Copy, Debug, PartialEq, Eq)]
pub struct MarketingFundDistributionEvent {
    pub marketing_wallet_1_amount: u64,
    pub marketing_wallet_2_amount: u64,
    pub death_wallet_amount: u64,
    pub timestamp: u64,
}

/// The distribution of `total` computed at `timestamp`.
pub open spec fn marketing_split(total: u64, timestamp: u64) -> MarketingFundDistributionEvent {
    MarketingFundDistributionEvent {
        marketing_wallet_1_amount: permille_of(total as nat, MARKETING_WALLET_SHARE as nat) as u64,
        marketing_wallet_2_amount: permille_of(total as nat, MARKETING_WALLET_SHARE as nat) as u64,
        death_wallet_amount: permille_of(total as nat, DEATH_WALLET_SHARE as nat) as u64,
        timestamp,
    }
}

/// The three shares never sum to more than the amount distributed.
pub proof fn lemma_marketing_conserves(total: nat)
    ensures
        2 * permille_of(total, MARKETING_WALLET_SHARE as nat) + permille_of(
            total,
            DEATH_WALLET_SHARE as nat,
        ) <= total,
{
    lemma_permille_split(total, 425, 425);
    lemma_permille_split(total, 850, 150);
    lemma_permille_bounded(total, 1000);
}

/// Computes the three payouts of a marketing distribution of
/// `total_amount`, each `floor(total_amount * share / 1000)`. Refused with
/// `MathError` exactly when `total_amount * 425` leaves 64 bits.
pub fn distribute_marketing_funds(total_amount: u64, timestamp: u64) -> (r: Result<
    MarketingFundDistributionEvent,
    CustomError,
>)
    ensures
        r == (if total_amount * MARKETING_WALLET_SHARE <= u64::MAX {
            Ok::<MarketingFundDistributionEvent, CustomError>(
                marketing_split(total_amount, timestamp),
            )
        } else {
            Err(CustomError::MathError)
        }),
{
    let amount_wallet1 = match checked_share(total_amount, MARKETING_WALLET_SHARE) {
        Some(v) => v,
        None => {
            return Err(CustomError::MathError);
        },
    };
    let amount_wallet2 = match checked_share(total_amount, MARKETING_WALLET_SHARE) {
        Some(v) => v,
        None => {
            return Err(CustomError::MathError);
        },
    };
    let amount_death = match checked_share(total_amount, DEATH_WALLET_SHARE) {
        Some(v) => v,
        None => {
            return Err(CustomError::MathError);
        },
    };
    Ok(
        MarketingFundDistributionEvent {
            marketing_wallet_1_amount: amount_wallet1,
            marketing_wallet_2_amount: amount_wallet2,
            death_wallet_amount: amount_death,
            timestamp,
        },
    )
}

} // verus!
