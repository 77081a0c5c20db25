use charcoin::address::Address;
use charcoin::burn::{execute_buyback, BuybackBurnEvent};
use charcoin::config::{Config, ConfigAccount};
use charcoin::donation::{
    cast_vote, finalize_charity_vote, register_charity, Charity, CharityStatus, VoteRecord,
};
use charcoin::errors::CustomError;
use charcoin::governance::{
    finalize_proposal, submit_proposal, vote_on_proposal, GovernanceError, Proposal,
    ProposalFinalizedEvent, ProposalStatus, ProposalSubmittedEvent, Vote, VoteCastEvent,
};
use charcoin::security::change_emergency_state;
use charcoin::staking::{UserStakeInfo, SECONDS_PER_DAY};

fn addr(b: u8) -> Address {
    Address::new([b; 32])
}

fn config() -> Config {
    Config {
        admin: addr(1),
        char_token_mint: addr(2),
        monthly_top_tier_wallet: addr(3),
        monthly_charity_lottery_wallet: addr(4),
        annual_top_tier_wallet: addr(5),
        annual_charity_lottery_wallet: addr(6),
        monthly_one_time_causes_wallet: addr(7),
        monthly_infinite_impact_causes_wallet: addr(8),
        annual_one_time_causes_wallet: addr(9),
        annual_infinite_impact_causes_wallet: addr(10),
        char_funds: addr(11),
        marketing_wallet_1: addr(12),
        marketing_wallet_2: addr(13),
        death_wallet: addr(14),
        treasury_authority: addr(15),
        halted: false,
        next_proposal_id: 4,
        next_charity_id: 7,
        total_burned: 100,
        min_governance_stake: 1_000,
        min_stake_duration_voting: 15 * SECONDS_PER_DAY,
    }
}

fn halted() -> Config {
    Config { halted: true, ..config() }
}

const T0: u64 = 1_700_000_000;

/// A staker who is eligible since `T0` with 5000 staked and 2500 voting power.
fn voter() -> UserStakeInfo {
    UserStakeInfo {
        eligible_at: T0,
        voting_power: 2_500,
        total_amount: 5_000,
        stake_count: 1,
        ..UserStakeInfo::empty(addr(40), addr(30))
    }
}

const OPEN: u64 = T0 + 20 * SECONDS_PER_DAY;
const CLOSE: u64 = T0 + 30 * SECONDS_PER_DAY;

fn charity() -> Charity {
    Charity {
        id: 7,
        title: String::from("Wells"),
        wallet: addr(60),
        total_votes: 10,
        start_time: OPEN,
        end_time: CLOSE,
        status: CharityStatus::Active,
        admin: addr(1),
    }
}

fn blank_record() -> VoteRecord {
    VoteRecord { charity: Address::zero(), voter: Address::zero(), vote_weight: 0, voted: false }
}

fn blank_vote() -> Vote {
    Vote {
        proposal_id: 0,
        voter: Address::zero(),
        amount_staked: 0,
        vote_choice: false,
        voted: false,
    }
}

fn proposal() -> Proposal {
    Proposal {
        id: 4,
        creator: addr(50),
        title: String::from("Raise the minimum"),
        description: String::from("From 1000 to 2000"),
        yes_votes: 10,
        no_votes: 20,
        status: ProposalStatus::Active,
        end_time: CLOSE,
    }
}

#[test]
fn the_emergency_state_can_be_set_and_cleared() {
    let mut account = ConfigAccount { config: config() };
    change_emergency_state(&mut account, true);
    assert_eq!(account.config, halted());
    change_emergency_state(&mut account, true);
    assert_eq!(account.config, halted());
    change_emergency_state(&mut account, false);
    assert_eq!(account.config, config());
}

#[test]
fn buyback_counts_the_burn() {
    let mut account = ConfigAccount { config: config() };
    assert_eq!(
        execute_buyback(&mut account, 250, T0),
        Ok(BuybackBurnEvent { tokens_bought: 250, new_total_burned: 350, timestamp: T0 })
    );
    assert_eq!(account.config, Config { total_burned: 350, ..config() });
}

#[test]
fn buyback_of_an_empty_wallet_is_refused() {
    let mut account = ConfigAccount { config: config() };
    assert_eq!(execute_buyback(&mut account, 0, T0), Err(CustomError::NoTokensToBuyback));
    assert_eq!(account.config, config());
}

#[test]
fn buyback_overflowing_the_burned_total_is_a_math_error() {
    let mut account = ConfigAccount { config: config() };
    assert_eq!(execute_buyback(&mut account, u64::MAX - 99, T0), Err(CustomError::MathError));
    assert_eq!(account.config, config());
    assert!(execute_buyback(&mut account, u64::MAX - 100, T0).is_ok());
    assert_eq!(account.config.total_burned, u64::MAX);
}

#[test]
fn register_charity_takes_the_next_id() {
    let mut account = ConfigAccount { config: config() };
    let r = register_charity(&mut account, addr(1), String::from("Wells"), addr(60), OPEN, CLOSE);
    assert_eq!(r, Ok(Charity { total_votes: 0, ..charity() }));
    assert_eq!(account.config, Config { next_charity_id: 8, ..config() });
}

#[test]
fn register_charity_refuses_zero_times_and_the_zero_wallet() {
    let mut account = ConfigAccount { config: config() };
    let title = || String::from("Wells");
    assert_eq!(
        register_charity(&mut account, addr(1), title(), addr(60), 0, CLOSE),
        Err(CustomError::InvalidArg)
    );
    assert_eq!(
        register_charity(&mut account, addr(1), title(), addr(60), OPEN, 0),
        Err(CustomError::InvalidArg)
    );
    assert_eq!(
        register_charity(&mut account, addr(1), title(), Address::zero(), OPEN, CLOSE),
        Err(CustomError::InvalidArg)
    );
    assert_eq!(account.config, config());
}

#[test]
fn register_charity_with_the_ids_used_up_is_a_math_error() {
    let mut account = ConfigAccount { config: Config { next_charity_id: u64::MAX, ..config() } };
    assert_eq!(
        register_charity(&mut account, addr(1), String::new(), addr(60), OPEN, CLOSE),
        Err(CustomError::MathError)
    );
    assert_eq!(account.config.next_charity_id, u64::MAX);
}

#[test]
fn cast_vote_gives_the_whole_power_and_spends_the_points() {
    let mut c = charity();
    let mut record = blank_record();
    let mut u = voter();
    let r = cast_vote(&config(), &mut c, addr(70), &mut record, &mut u, addr(40), 1_000, OPEN);
    assert_eq!(r, Ok(()));
    assert_eq!(c, Charity { total_votes: 2_510, ..charity() });
    assert_eq!(
        record,
        VoteRecord { charity: addr(70), voter: addr(40), vote_weight: 2_500, voted: true }
    );
    assert_eq!(u, UserStakeInfo { voting_power: 1_500, last_vote_time: OPEN, ..voter() });
}

fn refused_vote(
    cfg: Config,
    c: Charity,
    record: VoteRecord,
    u: UserStakeInfo,
    points: u64,
    now: u64,
) -> CustomError {
    let (mut c2, mut record2, mut u2) = (c.clone(), record, u);
    let r = cast_vote(&cfg, &mut c2, addr(70), &mut record2, &mut u2, addr(40), points, now);
    assert_eq!((c2, record2, u2), (c, record, u));
    r.unwrap_err()
}

#[test]
fn cast_vote_refusals() {
    let cfg = config();
    assert_eq!(refused_vote(cfg, charity(), blank_record(), voter(), 0, OPEN), CustomError::InvalidArg);
    assert_eq!(
        refused_vote(cfg, charity(), blank_record(), voter(), 2_501, OPEN),
        CustomError::YouDontHaveEnoughVotingPower
    );
    let voted = VoteRecord { voted: true, ..blank_record() };
    assert_eq!(refused_vote(cfg, charity(), voted, voter(), 1, OPEN), CustomError::AlreadyVoted);
    let recent = UserStakeInfo { last_vote_time: OPEN, ..voter() };
    assert_eq!(
        refused_vote(cfg, charity(), blank_record(), recent, 1, OPEN + 1),
        CustomError::VotingNotEligible
    );
    let small = UserStakeInfo { total_amount: 999, ..voter() };
    assert_eq!(
        refused_vote(cfg, charity(), blank_record(), small, 1, OPEN),
        CustomError::VotingNotEligible
    );
    let never = UserStakeInfo { eligible_at: 0, ..voter() };
    assert_eq!(
        refused_vote(cfg, charity(), blank_record(), never, 1, OPEN),
        CustomError::VotingNotEligible
    );
    let future = UserStakeInfo { eligible_at: OPEN + 1, ..voter() };
    assert_eq!(refused_vote(cfg, charity(), blank_record(), future, 1, OPEN), CustomError::MathError);
    let fresh = UserStakeInfo { eligible_at: OPEN - 15 * SECONDS_PER_DAY + 1, ..voter() };
    assert_eq!(
        refused_vote(cfg, charity(), blank_record(), fresh, 1, OPEN),
        CustomError::VotingNotEligible
    );
    assert_eq!(
        refused_vote(cfg, charity(), blank_record(), voter(), 1, OPEN - 1),
        CustomError::VotingNotActive
    );
    assert_eq!(
        refused_vote(cfg, charity(), blank_record(), voter(), 1, CLOSE + 1),
        CustomError::VotingNotActive
    );
    let full = Charity { total_votes: u64::MAX - 2_499, ..charity() };
    assert_eq!(refused_vote(cfg, full, blank_record(), voter(), 1, OPEN), CustomError::MathError);
}

#[test]
fn cast_vote_is_taken_on_the_last_second_of_the_window() {
    let mut c = charity();
    let mut record = blank_record();
    let mut u = UserStakeInfo { eligible_at: CLOSE - 15 * SECONDS_PER_DAY, ..voter() };
    let r = cast_vote(&config(), &mut c, addr(70), &mut record, &mut u, addr(40), 2_500, CLOSE);
    assert_eq!(r, Ok(()));
    assert_eq!(u.voting_power, 0);
}

#[test]
fn finalize_charity_vote_closes_after_the_window() {
    let mut c = charity();
    assert_eq!(finalize_charity_vote(&mut c, CLOSE), Err(CustomError::VotingNotEnded));
    assert_eq!(c, charity());
    assert_eq!(finalize_charity_vote(&mut c, CLOSE + 1), Ok(()));
    assert_eq!(c, Charity { status: CharityStatus::Finalized, ..charity() });
    assert_eq!(finalize_charity_vote(&mut c, CLOSE + 2), Err(CustomError::CharityAlreadyFinalized));
    assert_eq!(c.status, CharityStatus::Finalized);
}

#[test]
fn submit_proposal_takes_the_next_id() {
    let mut account = ConfigAccount { config: config() };
    let r = submit_proposal(
        &mut account,
        addr(50),
        String::from("Raise the minimum"),
        String::from("From 1000 to 2000"),
        CLOSE - T0,
        T0,
    );
    assert_eq!(
        r,
        Ok((
            Proposal { yes_votes: 0, no_votes: 0, ..proposal() },
            ProposalSubmittedEvent {
                proposal_creator: addr(50),
                proposal_title: String::from("Raise the minimum"),
                timestamp: T0,
            }
        ))
    );
    assert_eq!(account.config, Config { next_proposal_id: 5, ..config() });
}

#[test]
fn submit_proposal_overflows_are_math_errors() {
    let mut account = ConfigAccount { config: config() };
    let r = submit_proposal(&mut account, addr(50), String::new(), String::new(), u64::MAX, 1);
    assert_eq!(r, Err(GovernanceError::MathError));
    assert_eq!(account.config, config());
    let mut account = ConfigAccount { config: Config { next_proposal_id: u64::MAX, ..config() } };
    let r = submit_proposal(&mut account, addr(50), String::new(), String::new(), 1, 1);
    assert_eq!(r, Err(GovernanceError::MathError));
    assert_eq!(account.config.next_proposal_id, u64::MAX);
}

#[test]
fn vote_on_proposal_adds_the_voting_power_to_the_side_chosen() {
    let mut p = proposal();
    let mut v = blank_vote();
    let r = vote_on_proposal(&config(), &mut p, &voter(), &mut v, addr(40), 4, true, OPEN);
    assert_eq!(
        r,
        Ok(VoteCastEvent {
            proposal_id: 4,
            vote_choice: true,
            amount_staked: 5_000,
            yes_votes: 2_510,
            no_votes: 20,
            timestamp: OPEN,
        })
    );
    assert_eq!(p, Proposal { yes_votes: 2_510, ..proposal() });
    assert_eq!(
        v,
        Vote { proposal_id: 4, voter: addr(40), amount_staked: 5_000, vote_choice: true, voted: true }
    );
    let mut p = proposal();
    let mut v = blank_vote();
    let r = vote_on_proposal(&config(), &mut p, &voter(), &mut v, addr(40), 4, false, OPEN);
    assert_eq!(r.unwrap().no_votes, 2_520);
    assert_eq!(p, Proposal { no_votes: 2_520, ..proposal() });
    assert!(!v.vote_choice);
}

fn refused_ballot(p: Proposal, u: UserStakeInfo, v: Vote, id: u64, choice: bool, now: u64) -> GovernanceError {
    let (mut p2, mut v2) = (p.clone(), v);
    let r = vote_on_proposal(&config(), &mut p2, &u, &mut v2, addr(40), id, choice, now);
    assert_eq!((p2, v2), (p, v));
    r.unwrap_err()
}

#[test]
fn vote_on_proposal_refusals() {
    let voted = Vote { voted: true, ..blank_vote() };
    assert_eq!(refused_ballot(proposal(), voter(), voted, 4, true, OPEN), GovernanceError::AlreadyVoted);
    assert_eq!(
        refused_ballot(proposal(), voter(), blank_vote(), 5, true, OPEN),
        GovernanceError::InvalidProposalId
    );
    let small = UserStakeInfo { total_amount: 999, ..voter() };
    assert_eq!(
        refused_ballot(proposal(), small, blank_vote(), 4, true, OPEN),
        GovernanceError::VotingNotEligible
    );
    let never = UserStakeInfo { eligible_at: 0, ..voter() };
    assert_eq!(
        refused_ballot(proposal(), never, blank_vote(), 4, true, OPEN),
        GovernanceError::VotingNotEligible
    );
    let future = UserStakeInfo { eligible_at: OPEN + 1, ..voter() };
    assert_eq!(
        refused_ballot(proposal(), future, blank_vote(), 4, true, OPEN),
        GovernanceError::MathError
    );
    assert_eq!(
        refused_ballot(proposal(), voter(), blank_vote(), 4, true, T0 + 15 * SECONDS_PER_DAY - 1),
        GovernanceError::VotingNotEligible
    );
    assert_eq!(
        refused_ballot(proposal(), voter(), blank_vote(), 4, true, CLOSE),
        GovernanceError::VotingPeriodEnded
    );
    let full = Proposal { yes_votes: u64::MAX - 2_499, no_votes: u64::MAX - 2_499, ..proposal() };
    assert_eq!(
        refused_ballot(full.clone(), voter(), blank_vote(), 4, true, OPEN),
        GovernanceError::MathError
    );
    assert_eq!(
        refused_ballot(full, voter(), blank_vote(), 4, false, OPEN),
        GovernanceError::MathError
    );
}

#[test]
fn finalize_proposal_tallies_after_the_end() {
    let mut p = proposal();
    assert_eq!(finalize_proposal(&mut p, CLOSE - 1), Err(GovernanceError::VotingStillActive));
    assert_eq!(p, proposal());
    assert_eq!(
        finalize_proposal(&mut p, CLOSE),
        Ok(ProposalFinalizedEvent {
            proposal_id: 4,
            status: ProposalStatus::Rejected,
            yes_votes: 10,
            no_votes: 20,
            timestamp: CLOSE,
        })
    );
    assert_eq!(p, Proposal { status: ProposalStatus::Rejected, ..proposal() });
    assert_eq!(finalize_proposal(&mut p, CLOSE + 1), Err(GovernanceError::ProposalAlreadyFinalized));
}

#[test]
fn finalize_proposal_approves_on_a_strict_majority_only() {
    let mut p = Proposal { yes_votes: 21, ..proposal() };
    assert_eq!(finalize_proposal(&mut p, CLOSE).unwrap().status, ProposalStatus::Approved);
    assert_eq!(p.status, ProposalStatus::Approved);
    let mut p = Proposal { yes_votes: 20, ..proposal() };
    assert_eq!(finalize_proposal(&mut p, CLOSE).unwrap().status, ProposalStatus::Rejected);
    let mut p = Proposal { status: ProposalStatus::Approved, ..proposal() };
    assert_eq!(finalize_proposal(&mut p, CLOSE), Err(GovernanceError::ProposalAlreadyFinalized));
}
