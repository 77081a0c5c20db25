//! Governance proposals: submission, weighted voting and the tally.

use vstd::prelude::*;
use crate::address::Address;
use crate::config::{Config, ConfigAccount};
use crate::staking::UserStakeInfo;

verus! {

#[derive(Clone, Copy, Debug, PartialEq, Eq)]
pub enum ProposalStatus {
    Active,
    Approved,
    Rejected,
}

/// A governance proposal.
#[derive(Clone, Debug, PartialEq, Eq)]
pub struct Proposal {
    pub id: u64,
    pub creator: Address,
    pub title: String,
    pub description: String,
    /// Sum of the voting power cast in favour.
    pub yes_votes: u64,
    /// Sum of the voting power cast against.
    pub no_votes: u64,
    pub status: ProposalStatus,
    /// First second at which no vote is taken any more.
    pub end_time: u64,
}

/// The vote of one staker on one proposal.
#[derive(Clone, Copy, Debug, PartialEq, Eq)]
pub struct Vote {
    pub proposal_id: u64,
    pub voter: Address,
    /// What the voter had staked when voting.
    pub amount_staked: u64,
    /// `true` for yes, `false` for no.
    pub vote_choice: bool,
    pub voted: bool,
}

/// Why an operation of governance was refused.
#[derive(Clone, Copy, Debug, PartialEq, Eq)]
pub enum GovernanceError {
    /// Voting period has ended.
    VotingPeriodEnded,
    /// Voting period is still active.
    VotingStillActive,
    /// Math error occurred.
    MathError,
    /// Unauthorized operation.
    Unauthorized,
    /// Invalid number of multisig owners.
    InvalidOwners,
    /// Invalid approval threshold.
    InvalidThreshold,
    /// Withdrawal proposal already executed.
    AlreadyExecuted,
    /// Insufficient approvals for withdrawal execution.
    InsufficientApprovals,
    /// User must have staked long enough to vote.
    VotingNotEligible,
    /// User has not staked any tokens.
    NoStakedTokens,
    /// User already voted.
    AlreadyVoted,
    /// Duplicate owner.
    DuplicateOwner,
    /// Proposal already finalized.
    ProposalAlreadyFinalized,
    /// Invalid proposal id.
    InvalidProposalId,
}

/// Record of the tally of a proposal.
#[derive(Clone, Copy, Debug, PartialEq, Eq)]
pub struct ProposalFinalizedEvent {
    pub proposal_id: u64,
    pub status: ProposalStatus,
    pub yes_votes: u64,
    pub no_votes: u64,
    pub timestamp: u64,
}

/// Record of the submission of a proposal.
#[derive(Clone, Debug, PartialEq, Eq)]
pub struct ProposalSubmittedEvent {
    pub proposal_creator: Address,
    pub proposal_title: String,
    pub timestamp: u64,
}

/// Record of one vote.
#[derive(Clone, Copy, Debug, PartialEq, Eq)]
pub struct VoteCastEvent {
    pub proposal_id: u64,
    pub vote_choice: bool,
    pub amount_staked: u64,
    pub yes_votes: u64,
    pub no_votes: u64,
    pub timestamp: u64,
}

/// Submits a proposal that is open for votes for `duration` seconds from
/// `now`.
///
/// Refused with `MathError` where `now + duration` leaves 64 bits or the
/// proposal ids are used up. Otherwise the result is the new proposal,
/// active and without votes, under the configuration's next proposal id,
/// which is then advanced by 1, together with the record of the submission.
pub fn submit_proposal(
    config_account: &mut ConfigAccount,
    creator: Address,
    title: String,
    description: String,
    duration: u64,
    now: u64,
) -> (r: Result<(Proposal, ProposalSubmittedEvent), GovernanceError>)
    ensures
        now + duration > u64::MAX || old(config_account).config.next_proposal_id + 1 > u64::MAX
            ==> r == Err::<(Proposal, ProposalSubmittedEvent), GovernanceError>(
            GovernanceError::MathError,
        ) && *final(config_account) == *old(config_account),
        now + duration <= u64::MAX && old(config_account).config.next_proposal_id + 1 <= u64::MAX
            ==> {
            &&& r == Ok::<(Proposal, ProposalSubmittedEvent), GovernanceError>(
                (
                    Proposal {
                        id: old(config_account).config.next_proposal_id,
                        creator,
                        title,
                        description,
                        yes_votes: 0,
                        no_votes: 0,
                        status: ProposalStatus::Active,
                        end_time: (now + duration) as u64,
                    },
                    ProposalSubmittedEvent {
                        proposal_creator: creator,
                        proposal_title: title,
                        timestamp: now,
                    },
                ),
            )
            &&& final(config_account).config == (Config {
                next_proposal_id: (old(config_account).config.next_proposal_id + 1) as u64,
                ..old(config_account).config
            })
        },
{
    let end_time = match now.checked_add(duration) {
        Some(v) => v,
        None => {
            return Err(GovernanceError::MathError);
        },
    };
    let id = config_account.config.next_proposal_id;
    let next_proposal_id = match id.checked_add(1) {
        Some(v) => v,
        None => {
            return Err(GovernanceError::MathError);
        },
    };
    config_account.config.next_proposal_id = next_proposal_id;
    let event = ProposalSubmittedEvent {
        proposal_creator: creator,
        proposal_title: title.clone(),
        timestamp: now,
    };
    let proposal = Proposal {
        id,
        creator,
        title,
        description,
        yes_votes: 0,
        no_votes: 0,
        status: ProposalStatus::Active,
        end_time,
    };
    Ok((proposal, event))
}

/// Why a vote on `proposal` at `now` is refused, if it is. The checks stand
/// in the order in which they are made.
pub open spec fn vote_refusal(
    config: Config,
    proposal: Proposal,
    user: UserStakeInfo,
    user_vote_account: Vote,
    proposal_id: u64,
    vote_choice: bool,
    now: u64,
) -> Option<GovernanceError> {
    if user_vote_account.voted {
        Some(GovernanceError::AlreadyVoted)
    } else if proposal.id != proposal_id {
        Some(GovernanceError::InvalidProposalId)
    } else if user.total_amount < config.min_governance_stake || user.eligible_at == 0 {
        Some(GovernanceError::VotingNotEligible)
    } else if now < user.eligible_at {
        Some(GovernanceError::MathError)
    } else if now - user.eligible_at < config.min_stake_duration_voting {
        Some(GovernanceError::VotingNotEligible)
    } else if now >= proposal.end_time {
        Some(GovernanceError::VotingPeriodEnded)
    } else if vote_choice && proposal.yes_votes + user.voting_power > u64::MAX {
        Some(GovernanceError::MathError)
    } else if !vote_choice && proposal.no_votes + user.voting_power > u64::MAX {
        Some(GovernanceError::MathError)
    } else {
        None
    }
}

/// The proposal after a vote with the voting power of `user`.
pub open spec fn proposal_after_vote(
    proposal: Proposal,
    user: UserStakeInfo,
    vote_choice: bool,
) -> Proposal {
    if vote_choice {
        Proposal { yes_votes: (proposal.yes_votes + user.voting_power) as u64, ..proposal }
    } else {
        Proposal { no_votes: (proposal.no_votes + user.voting_power) as u64, ..proposal }
    }
}

/// Casts the vote of `voter` on `proposal`, weighted by the voting power
/// of the staker's ledger.
///
/// Refused, in this order: with `AlreadyVoted` where the record holds a
/// vote; with `InvalidProposalId` where the proposal is not the one named;
/// with `VotingNotEligible` where the staker holds less than the governance
/// minimum or was never eligible; with `MathError` where `now` lies before
/// the time of eligibility; with `VotingNotEligible` where the staker has
/// not been eligible for the configured time; with `VotingPeriodEnded` from
/// the proposal's end time on; with `MathError` where the tally would
/// leave 64 bits. Otherwise the side chosen gains the ledger's voting
/// power, the record holds the vote, and the result records it with the
/// new tally.
pub fn vote_on_proposal(
    config: &Config,
    proposal: &mut Proposal,
    user: &UserStakeInfo,
    user_vote_account: &mut Vote,
    voter: Address,
    proposal_id: u64,
    vote_choice: bool,
    now: u64,
) -> (r: Result<VoteCastEvent, GovernanceError>)
    ensures
        match vote_refusal(
            *config,
            *old(proposal),
            *user,
            *old(user_vote_account),
            proposal_id,
            vote_choice,
            now,
        ) {
            Some(e) => {
                &&& r == Err::<VoteCastEvent, GovernanceError>(e)
                &&& *final(proposal) == *old(proposal)
                &&& *final(user_vote_account) == *old(user_vote_account)
            },
            None => {
                &&& *final(proposal) == proposal_after_vote(*old(proposal), *user, vote_choice)
                &&& *final(user_vote_account) == (Vote {
                    proposal_id,
                    voter,
                    amount_staked: user.total_amount,
                    vote_choice,
                    voted: true,
                })
                &&& r == Ok::<VoteCastEvent, GovernanceError>(
                    VoteCastEvent {
                        proposal_id,
                        vote_choice,
                        amount_staked: user.total_amount,
                        yes_votes: final(proposal).yes_votes,
                        no_votes: final(proposal).no_votes,
                        timestamp: now,
                    },
                )
            },
        },
{
    if user_vote_account.voted {
        return Err(GovernanceError::AlreadyVoted);
    }
    if proposal.id != proposal_id {
        return Err(GovernanceError::InvalidProposalId);
    }
    let amount_staked = user.total_amount;
    if amount_staked < config.min_governance_stake {
        return Err(GovernanceError::VotingNotEligible);
    }
    if user.eligible_at == 0 {
        return Err(GovernanceError::VotingNotEligible);
    }
    let eligible_for = match now.checked_sub(user.eligible_at) {
        Some(v) => v,
        None => {
            return Err(GovernanceError::MathError);
        },
    };
    if eligible_for < config.min_stake_duration_voting {
        return Err(GovernanceError::VotingNotEligible);
    }
    if now >= proposal.end_time {
        return Err(GovernanceError::VotingPeriodEnded);
    }
    let voting_amount = user.voting_power;
    if vote_choice {
        let yes_votes = match proposal.yes_votes.checked_add(voting_amount) {
            Some(v) => v,
            None => {
                return Err(GovernanceError::MathError);
            },
        };
        proposal.yes_votes = yes_votes;
    } else {
        let no_votes = match proposal.no_votes.checked_add(voting_amount) {
            Some(v) => v,
            None => {
                return Err(GovernanceError::MathError);
            },
        };
        proposal.no_votes = no_votes;
    }
    user_vote_account.voted = true;
    user_vote_account.proposal_id = proposal_id;
    user_vote_account.voter = voter;
    user_vote_account.amount_staked = amount_staked;
    user_vote_account.vote_choice = vote_choice;
    Ok(
        VoteCastEvent {
            proposal_id,
            vote_choice,
            amount_staked,
            yes_votes: proposal.yes_votes,
            no_votes: proposal.no_votes,
            timestamp: now,
        },
    )
}

/// The outcome of a tally: approved by a strict majority of the voting
/// power cast, rejected otherwise, ties included.
pub open spec fn tally(yes_votes: u64, no_votes: u64) -> ProposalStatus {
    if yes_votes > no_votes {
        ProposalStatus::Approved
    } else {
        ProposalStatus::Rejected
    }
}

/// Closes the vote on `proposal` and tallies it.
///
/// Refused with `VotingStillActive` before the proposal's end time and
/// with `ProposalAlreadyFinalized` where it was tallied already. Otherwise
/// the proposal becomes `Approved` if more voting power was cast in favour
/// than against, `Rejected` if not, and the result records the tally.
pub fn finalize_proposal(proposal: &mut Proposal, now: u64) -> (r: Result<
    ProposalFinalizedEvent,
    GovernanceError,
>)
    ensures
        now < old(proposal).end_time ==> r == Err::<ProposalFinalizedEvent, GovernanceError>(
            GovernanceError::VotingStillActive,
        ),
        now >= old(proposal).end_time && old(proposal).status != ProposalStatus::Active ==> r
            == Err::<ProposalFinalizedEvent, GovernanceError>(
            GovernanceError::ProposalAlreadyFinalized,
        ),
        r is Err ==> *final(proposal) == *old(proposal),
        now >= old(proposal).end_time && old(proposal).status == ProposalStatus::Active ==> {
            &&& *final(proposal) == (Proposal {
                status: tally(old(proposal).yes_votes, old(proposal).no_votes),
                ..*old(proposal)
            })
            &&& r == Ok::<ProposalFinalizedEvent, GovernanceError>(
                ProposalFinalizedEvent {
                    proposal_id: old(proposal).id,
                    status: tally(old(proposal).yes_votes, old(proposal).no_votes),
                    yes_votes: old(proposal).yes_votes,
                    no_votes: old(proposal).no_votes,
                    timestamp: now,
                },
            )
        },
{
    if now < proposal.end_time {
        return Err(GovernanceError::VotingStillActive);
    }
    match proposal.status {
        ProposalStatus::Active => {},
        _ => {
            return Err(GovernanceError::ProposalAlreadyFinalized);
        },
    }
    let status = if proposal.yes_votes > proposal.no_votes {
        ProposalStatus::Approved
    } else {
        ProposalStatus::Rejected
    };
    proposal.status = status;
    Ok(
        ProposalFinalizedEvent {
            proposal_id: proposal.id,
            status,
            yes_votes: proposal.yes_votes,
            no_votes: proposal.no_votes,
            timestamp: now,
        },
    )
}

} // verus!
