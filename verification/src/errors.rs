//! The protocol's errors and the classes they fall into.

use vstd::prelude::*;

verus! {

/// Why an operation of the protocol was refused. An operation that returns
/// an error leaves every record it was given untouched.
#[derive(Clone, Copy, Debug, PartialEq, Eq)]
pub enum CustomError {
    /// No tokens available for buyback.
    NoTokensToBuyback,
    /// Voting period is not active.
    VotingNotActive,
    /// Voting period has not ended.
    VotingNotEnded,
    /// User not eligible for voting.
    VotingNotEligible,
    /// User has not staked any tokens.
    NoStakedTokens,
    /// User already voted.
    AlreadyVoted,
    /// Charity already finalized.
    CharityAlreadyFinalized,
    /// Invalid argument provided.
    InvalidArg,
    /// Program is halted.
    ProgramIsHalted,
    /// Staking period has not been met yet.
    StakingPeriodNotMet,
    /// Wrong staking package.
    WrongStakingPackage,
    /// Reward has already been claimed.
    RewardAlreadyClaimed,
    /// Already staked.
    AlreadyStaked,
    /// Already unstaked.
    AlreadyUnStaked,
    /// Wait period not over yet.
    WaitPeriodNotOverYet,
    /// Request unstake first.
    RequestUnstakeFirst,
    /// Unstake already requested.
    UnstakeAlreadyRequested,
    /// Invalid stake id.
    InvalidStakeId,
    /// Nothing to claim.
    NothingToClaim,
    /// Staking reward insufficient balance.
    StakingRewardInsufficientBalance,
    /// Math error occurred.
    MathError,
    /// You don't have enough voting power.
    YouDontHaveEnoughVotingPower,
    /// The caller does not hold the key that the operation asks for.
    Unauthorized,
}

/// The four classes of failure.
#[derive(Clone, Copy, Debug, PartialEq, Eq)]
pub enum ErrorClass {
    /// An argument is unacceptable whatever the state of the records.
    Validation,
    /// The records are not in a state that allows the operation.
    State,
    /// A balance is too small or a quantity does not fit in 64 bits.
    Resource,
    /// The caller may not perform the operation.
    Authorization,
}

impl CustomError {
    /// The class of each error.
    pub open spec fn class_of(self) -> ErrorClass {
        match self {
            CustomError::NoStakedTokens
            | CustomError::InvalidArg
            | CustomError::WrongStakingPackage
            | CustomError::InvalidStakeId => ErrorClass::Validation,
            CustomError::NoTokensToBuyback
            | CustomError::StakingRewardInsufficientBalance
            | CustomError::MathError
            | CustomError::YouDontHaveEnoughVotingPower => ErrorClass::Resource,
            CustomError::Unauthorized => ErrorClass::Authorization,
            CustomError::VotingNotActive
            | CustomError::VotingNotEligible
            | CustomError::VotingNotEnded
            | CustomError::AlreadyVoted
            | CustomError::CharityAlreadyFinalized
            | CustomError::ProgramIsHalted
            | CustomError::StakingPeriodNotMet
            | CustomError::RewardAlreadyClaimed
            | CustomError::AlreadyStaked
            | CustomError::AlreadyUnStaked
            | CustomError::WaitPeriodNotOverYet
            | CustomError::RequestUnstakeFirst
            | CustomError::UnstakeAlreadyRequested
            | CustomError::NothingToClaim => ErrorClass::State,
        }
    }

    /// The class this error falls into.
    pub fn class(&self) -> (r: ErrorClass)
        ensures
            r == self.class_of(),
    {
        match self {
            CustomError::NoStakedTokens
            | CustomError::InvalidArg
            | CustomError::WrongStakingPackage
            | CustomError::InvalidStakeId => ErrorClass::Validation,
            CustomError::NoTokensToBuyback
            | CustomError::StakingRewardInsufficientBalance
            | CustomError::MathError
            | CustomError::YouDontHaveEnoughVotingPower => ErrorClass::Resource,
            CustomError::Unauthorized => ErrorClass::Authorization,
            _ => ErrorClass::State,
        }
    }
}

} // verus!
