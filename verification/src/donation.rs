//! Charity voting: charities are registered for a voting window, stakers
//! spend voting power on them, and the vote is closed after the window.

use vstd::prelude::*;
use crate::address::Address;
use crate::config::{Config, ConfigAccount};
use crate::errors::CustomError;
use crate::staking::UserStakeInfo;

verus! {

#[derive(Clone, Copy, Debug, PartialEq, Eq)]
pub enum CharityStatus {
    Active,
    Finalized,
}

/// A charity that stakers can vote for.
#[derive(Clone, Debug, PartialEq, Eq)]
pub struct Charity {
    pub id: u64,
    pub title: String,
    /// Wallet of the charity.
    pub wallet: Address,
    /// Sum of the vote weights cast for the charity.
    pub total_votes: u64,
    /// First second of the voting window.
    pub start_time: u64,
    /// Last second of the voting window.
    pub end_time: u64,
    pub status: CharityStatus,
    /// Who may close the vote.
    pub admin: Address,
}

/// The vote of one staker for one charity.
#[derive(Clone, Copy, Debug, PartialEq, Eq)]
pub struct VoteRecord {
    pub charity: Address,
    pub voter: Address,
    pub vote_weight: u64,
    pub voted: bool,
}

/// Why a charity with these data is not registered, if it is not.
pub open spec fn register_charity_refusal(
    config: Config,
    wallet: Address,
    start_time: u64,
    end_time: u64,
) -> Option<CustomError> {
    if start_time == 0 || end_time == 0 || wallet.is_zero() {
        Some(CustomError::InvalidArg)
    } else if config.next_charity_id + 1 > u64::MAX {
        Some(CustomError::MathError)
    } else {
        None
    }
}

/// Registers a charity for the voting window from `start_time` to
/// `end_time`.
///
/// Refused with `InvalidArg` where a time is 0 or the wallet is the
/// all-zero address, and with `MathError` where the charity ids are used
/// up. Otherwise the result is the new charity, active and without votes,
/// under the configuration's next charity id, which is then advanced by 1.
pub fn register_charity(
    config_account: &mut ConfigAccount,
    registrar: Address,
    title: String,
    wallet: Address,
    start_time: u64,
    end_time: u64,
) -> (r: Result<Charity, CustomError>)
    ensures
        match register_charity_refusal(old(config_account).config, wallet, start_time, end_time) {
            Some(e) => r == Err::<Charity, CustomError>(e) && *final(config_account) == *old(
                config_account,
            ),
            None => {
                &&& r == Ok::<Charity, CustomError>(
                    Charity {
                        id: old(config_account).config.next_charity_id,
                        title,
                        wallet,
                        total_votes: 0,
                        start_time,
                        end_time,
                        status: CharityStatus::Active,
                        admin: registrar,
                    },
                )
                &&& final(config_account).config == (Config {
                    next_charity_id: (old(config_account).config.next_charity_id + 1) as u64,
                    ..old(config_account).config
                })
            },
        },
{
    if start_time == 0 {
        return Err(CustomError::InvalidArg);
    }
    if end_time == 0 {
        return Err(CustomError::InvalidArg);
    }
    if wallet.is_default() {
        return Err(CustomError::InvalidArg);
    }
    let id = config_account.config.next_charity_id;
    let next_charity_id = match id.checked_add(1) {
        Some(v) => v,
        None => {
            return Err(CustomError::MathError);
        },
    };
    config_account.config.next_charity_id = next_charity_id;
    Ok(
        Charity {
            id,
            title,
            wallet,
            total_votes: 0,
            start_time,
            end_time,
            status: CharityStatus::Active,
            admin: registrar,
        },
    )
}

/// Why a vote of `char_points` at `now` is refused, if it is. The checks
/// stand in the order in which they are made.
pub open spec fn cast_vote_refusal(
    config: Config,
    charity: Charity,
    vote_record: VoteRecord,
    user: UserStakeInfo,
    char_points: u64,
    now: u64,
) -> Option<CustomError> {
    if char_points == 0 {
        Some(CustomError::InvalidArg)
    } else if char_points > user.voting_power {
        Some(CustomError::YouDontHaveEnoughVotingPower)
    } else if vote_record.voted {
        Some(CustomError::AlreadyVoted)
    } else if user.last_vote_time >= charity.start_time {
        Some(CustomError::VotingNotEligible)
    } else if user.total_amount < config.min_governance_stake || user.eligible_at == 0 {
        Some(CustomError::VotingNotEligible)
    } else if now < user.eligible_at {
        Some(CustomError::MathError)
    } else if now - user.eligible_at < config.min_stake_duration_voting {
        Some(CustomError::VotingNotEligible)
    } else if now < charity.start_time || now > charity.end_time {
        Some(CustomError::VotingNotActive)
    } else if charity.total_votes + user.voting_power > u64::MAX {
        Some(CustomError::MathError)
    } else {
        None
    }
}

/// Casts the vote of `voter` for `charity`, spending `char_points` of the
/// staker's voting power.
///
/// Refused, in this order: with `InvalidArg` for 0 points; with
/// `YouDontHaveEnoughVotingPower` for more points than the ledger has
/// voting power; with `AlreadyVoted` where the record holds a vote; with
/// `VotingNotEligible` where the staker has voted since the window opened,
/// holds less than the governance minimum or was never eligible; with
/// `MathError` where `now` lies before the time of eligibility; with
/// `VotingNotEligible` where the staker has not been eligible for the
/// configured time; with `VotingNotActive` outside the window; with
/// `MathError` where the charity's votes would leave 64 bits. Otherwise
/// the charity gains the whole voting power of the ledger as votes, the
/// record holds that weight, the ledger loses `char_points` of voting power
/// and notes `now` as the time of its last vote.
pub fn cast_vote(
    config: &Config,
    charity: &mut Charity,
    charity_key: Address,
    vote_record: &mut VoteRecord,
    user: &mut UserStakeInfo,
    voter: Address,
    char_points: u64,
    now: u64,
) -> (r: Result<(), CustomError>)
    ensures
        match cast_vote_refusal(
            *config,
            *old(charity),
            *old(vote_record),
            *old(user),
            char_points,
            now,
        ) {
            Some(e) => {
                &&& r == Err::<(), CustomError>(e)
                &&& *final(charity) == *old(charity)
                &&& *final(vote_record) == *old(vote_record)
                &&& *final(user) == *old(user)
            },
            None => {
                &&& r == Ok::<(), CustomError>(())
                &&& *final(charity) == (Charity {
                    total_votes: (old(charity).total_votes + old(user).voting_power) as u64,
                    ..*old(charity)
                })
                &&& *final(vote_record) == (VoteRecord {
                    charity: charity_key,
                    voter,
                    vote_weight: old(user).voting_power,
                    voted: true,
                })
                &&& *final(user) == (UserStakeInfo {
                    last_vote_time: now,
                    voting_power: (old(user).voting_power - char_points) as u64,
                    ..*old(user)
                })
            },
        },
{
    if char_points == 0 {
        return Err(CustomError::InvalidArg);
    }
    if char_points > user.voting_power {
        return Err(CustomError::YouDontHaveEnoughVotingPower);
    }
    if vote_record.voted {
        return Err(CustomError::AlreadyVoted);
    }
    if user.last_vote_time >= charity.start_time {
        return Err(CustomError::VotingNotEligible);
    }
    if user.total_amount < config.min_governance_stake {
        return Err(CustomError::VotingNotEligible);
    }
    if user.eligible_at == 0 {
        return Err(CustomError::VotingNotEligible);
    }
    let eligible_for = match now.checked_sub(user.eligible_at) {
        Some(v) => v,
        None => {
            return Err(CustomError::MathError);
        },
    };
    if eligible_for < config.min_stake_duration_voting {
        return Err(CustomError::VotingNotEligible);
    }
    if now < charity.start_time || now > charity.end_time {
        return Err(CustomError::VotingNotActive);
    }
    let vote_weight = user.voting_power;
    let total_votes = match charity.total_votes.checked_add(vote_weight) {
        Some(v) => v,
        None => {
            return Err(CustomError::MathError);
        },
    };
    user.last_vote_time = now;
    user.voting_power = vote_weight - char_points;
    vote_record.charity = charity_key;
    vote_record.voter = voter;
    vote_record.vote_weight = vote_weight;
    vote_record.voted = true;
    charity.total_votes = total_votes;
    Ok(())
}

/// Why the vote for `charity` is not closed at `now`, if it is not.
pub open spec fn finalize_charity_refusal(charity: Charity, now: u64) -> Option<CustomError> {
    if now <= charity.end_time {
        Some(CustomError::VotingNotEnded)
    } else if charity.status != CharityStatus::Active {
        Some(CustomError::CharityAlreadyFinalized)
    } else {
        None
    }
}

/// Closes the vote for `charity`.
///
/// Refused with `VotingNotEnded` until the window has passed, its last
/// second included, and with `CharityAlreadyFinalized` where the vote is
/// closed already. Otherwise the charity becomes `Finalized`.
pub fn finalize_charity_vote(charity: &mut Charity, now: u64) -> (r: Result<(), CustomError>)
    ensures
        match finalize_charity_refusal(*old(charity), now) {
            Some(e) => r == Err::<(), CustomError>(e) && *final(charity) == *old(charity),
            None => r == Ok::<(), CustomError>(()) && *final(charity) == (Charity {
                status: CharityStatus::Finalized,
                ..*old(charity)
            }),
        },
{
    if now <= charity.end_time {
        return Err(CustomError::VotingNotEnded);
    }
    match charity.status {
        CharityStatus::Active => {},
        CharityStatus::Finalized => {
            return Err(CustomError::CharityAlreadyFinalized);
        },
    }
    charity.status = CharityStatus::Finalized;
    Ok(())
}

} // verus!
