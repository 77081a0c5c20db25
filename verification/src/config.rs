//! The global configuration: the wallets of the fund waterfall, the
//! governance thresholds, the emergency halt and the id counters.

use vstd::prelude::*;
use crate::address::Address;

verus! {

/// Global configuration of the protocol, handed explicitly to every
/// operation that reads it.
#[derive(Clone, Copy, Debug, PartialEq, Eq)]
pub struct Config {
    pub admin: Address,
    /// Mint of the CHAR token.
    pub char_token_mint: Address,
    pub monthly_top_tier_wallet: Address,
    pub monthly_charity_lottery_wallet: Address,
    pub annual_top_tier_wallet: Address,
    pub annual_charity_lottery_wallet: Address,
    pub monthly_one_time_causes_wallet: Address,
    pub monthly_infinite_impact_causes_wallet: Address,
    pub annual_one_time_causes_wallet: Address,
    pub annual_infinite_impact_causes_wallet: Address,
    pub char_funds: Address,
    pub marketing_wallet_1: Address,
    pub marketing_wallet_2: Address,
    pub death_wallet: Address,
    /// Owner of the treasury that the waterfall pays from.
    pub treasury_authority: Address,
    /// Emergency state: while set, every operation but the lifting of the halt is refused.
    pub halted: bool,
    /// Id that the next governance proposal gets.
    pub next_proposal_id: u64,
    /// Id that the next charity gets.
    pub next_charity_id: u64,
    /// Total of CHAR burned through the death wallet.
    pub total_burned: u64,
    /// Least stake that lets a staker take part in governance.
    pub min_governance_stake: u64,
    /// Least time, in seconds, a staker must have been eligible before voting.
    pub min_stake_duration_voting: u64,
}

/// The record that holds the global configuration.
#[derive(Clone, Copy, Debug, PartialEq, Eq)]
pub struct ConfigAccount {
    pub config: Config,
}

} // verus!
