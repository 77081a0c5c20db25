//! A keyed store of the staking records of one pool, with the operations
//! of the stake's life on it.
//!
//! The pool is the one record of the store; a staker's ledger is keyed by
//! the staker's address; a stake is keyed by the staker's address and the
//! stake's id. The same key always finds the same record. On a well-formed
//! store the pool's total is the sum of the principal of every stake that
//! is not withdrawn, and every operation keeps the store well-formed.

use vstd::prelude::*;
use crate::address::Address;
use crate::config::Config;
use crate::errors::CustomError;
use crate::staking::{
    claim_refusal, claim_reward, empty_ledger, entry_after_claim, entry_after_request,
    entry_after_stake,
    entry_after_unstake, pool_after_claim, pool_after_stake, pool_after_unstake, reward_due,
    request_unstake_refusal, request_unstake_tokens, stake_refusal, stake_tokens, unstake_refusal,
    unstake_tokens, user_after_claim, user_after_request, user_after_stake, user_after_unstake,
    vacant_slot, withdrawal_of, StakeState, StakingPool, UserStakeInfo, UserStakesEntry,
    Withdrawal, MATURITY_DELAY_SECONDS,
};

verus! {

/// A staker's ledger with the staker's stakes. The stake with id `n` stands
/// at index `n`.
pub struct StakerAccount {
    pub info: UserStakeInfo,
    pub entries: Vec<UserStakesEntry>,
}

/// The records of one pool.
pub struct StakingLedger {
    pub pool: StakingPool,
    /// The address under which the pool is known to its stakers.
    pub pool_key: Address,
    pub accounts: Vec<StakerAccount>,
}

/// The store as three keyed tables.
pub struct LedgerView {
    pub pool: StakingPool,
    /// The ledgers, by staker.
    pub users: Map<Address, UserStakeInfo>,
    /// The stakes, by staker and stake id.
    pub entries: Map<(Address, u64), UserStakesEntry>,
}

/// Sum of a sequence of amounts.
pub open spec fn sum(amounts: Seq<nat>) -> nat
    decreases amounts.len(),
{
    if amounts.len() == 0 {
        0
    } else {
        sum(amounts.drop_last()) + amounts.last()
    }
}

/// Sum of the principal of the stakes of `entries` that are not withdrawn.
pub open spec fn active_principal(entries: Seq<UserStakesEntry>) -> nat {
    sum(entries.map_values(|e: UserStakesEntry| e.active_amount()))
}

/// Sum, over every staker, of the principal of the staker's stakes that are
/// not withdrawn.
pub open spec fn total_active_principal(accounts: Seq<StakerAccount>) -> nat {
    sum(accounts.map_values(|a: StakerAccount| active_principal(a.entries@)))
}

/// Sum of the totals that the stakers' ledgers carry.
pub open spec fn total_of_ledgers(accounts: Seq<StakerAccount>) -> nat {
    sum(accounts.map_values(|a: StakerAccount| a.info.total_amount as nat))
}

/// Where the account of `staker` stands, if there is one.
pub open spec fn position(accounts: Seq<StakerAccount>, staker: Address) -> Option<int> {
    if exists|i: int| 0 <= i < accounts.len() && accounts[i].info.authority == staker {
        Some(choose|i: int| 0 <= i < accounts.len() && accounts[i].info.authority == staker)
    } else {
        None
    }
}

/// No two accounts belong to the same staker.
pub open spec fn distinct_stakers(accounts: Seq<StakerAccount>) -> bool {
    forall|i: int, j: int|
        0 <= i < j < accounts.len() ==> (#[trigger] accounts[i]).info.authority != (
        #[trigger] accounts[j]).info.authority
}

impl StakerAccount {
    /// The account's own invariant: ids are indices, every slot holds a
    /// deposit, and the ledger's total is the principal not withdrawn.
    pub open spec fn wf(&self) -> bool {
        &&& self.entries.len() == self.info.stake_count
        &&& forall|j: int|
            0 <= j < self.entries.len() ==> (#[trigger] self.entries[j]).stake_id == j
                && self.entries[j].amount != 0
        &&& active_principal(self.entries@) == self.info.total_amount
    }
}

impl View for StakingLedger {
    type V = LedgerView;

    open spec fn view(&self) -> LedgerView {
        LedgerView {
            pool: self.pool,
            users: Map::new(
                |staker: Address| position(self.accounts@, staker) is Some,
                |staker: Address| self.accounts[position(self.accounts@, staker).unwrap()].info,
            ),
            entries: Map::new(
                |key: (Address, u64)|
                    position(self.accounts@, key.0) is Some && key.1 < self.accounts[position(
                        self.accounts@,
                        key.0,
                    ).unwrap()].entries.len(),
                |key: (Address, u64)|
                    self.accounts[position(self.accounts@, key.0).unwrap()].entries[key.1 as int],
            ),
        }
    }
}

impl LedgerView {
    /// The ledger of `staker`, or the empty one of a staker who has not
    /// staked yet.
    pub open spec fn ledger_of(self, staker: Address, pool_key: Address) -> UserStakeInfo {
        if self.users.contains_key(staker) {
            self.users[staker]
        } else {
            empty_ledger(staker, pool_key)
        }
    }
}

impl StakingLedger {
    /// Well-formedness of the store: no staker has two accounts, every
    /// account is well-formed, and the pool's total is the sum of the
    /// ledgers' totals.
    pub open spec fn wf(&self) -> bool {
        &&& distinct_stakers(self.accounts@)
        &&& forall|i: int| 0 <= i < self.accounts.len() ==> (#[trigger] self.accounts[i]).wf()
        &&& total_of_ledgers(self.accounts@) == self.pool.total_staked
    }

    /// Opens the store of a pool: no staker yet, nothing staked.
    pub fn open(pool_key: Address, pool: StakingPool) -> (r: StakingLedger)
        ensures
            r.wf(),
            total_active_principal(r.accounts@) == r.pool.total_staked,
            r.pool_key == pool_key,
            r@ == (LedgerView {
                pool: StakingPool { total_staked: 0, ..pool },
                users: Map::empty(),
                entries: Map::empty(),
            }),
    {
        let mut pool = pool;
        pool.total_staked = 0;
        let r = StakingLedger { pool, pool_key, accounts: Vec::new() };
        assert(r.accounts@.map_values(|a: StakerAccount| a.info.total_amount as nat).len() == 0);
        assert(r@.users =~= Map::empty());
        assert(r@.entries =~= Map::empty());
        proof {
            lemma_pool_total_is_active_principal(r);
        }
        r
    }

    /// Finds the account of `staker`.
    pub fn find_account(&self, staker: &Address) -> (r: Option<usize>)
        ensures
            match r {
                Some(i) => {
                    &&& i < self.accounts.len()
                    &&& self.accounts[i as int].info.authority == *staker
                    &&& forall|k: int| 0 <= k < i ==> self.accounts[k].info.authority != *staker
                },
                None => position(self.accounts@, *staker) is None,
            },
    {
        let mut i: usize = 0;
        while i < self.accounts.len()
            invariant
                i <= self.accounts.len(),
                forall|k: int| 0 <= k < i ==> self.accounts[k].info.authority != *staker,
            decreases self.accounts.len() - i,
        {
            if self.accounts[i].info.authority.same(staker) {
                return Some(i);
            }
            i = i + 1;
        }
        None
    }

    /// The ledger of `staker`, if the staker has one.
    pub fn user(&self, staker: &Address) -> (r: Option<UserStakeInfo>)
        requires
            self.wf(),
        ensures
            r == (if self@.users.contains_key(*staker) {
                Some(self@.users[*staker])
            } else {
                None
            }),
    {
        match self.find_account(staker) {
            Some(i) => {
                proof {
                    lemma_position_found(self.accounts@, i as int);
                }
                Some(self.accounts[i].info)
            },
            None => None,
        }
    }

    /// The stake `stake_id` of `staker`, if there is one.
    pub fn entry(&self, staker: &Address, stake_id: u64) -> (r: Option<UserStakesEntry>)
        requires
            self.wf(),
        ensures
            r == (if self@.entries.contains_key((*staker, stake_id)) {
                Some(self@.entries[(*staker, stake_id)])
            } else {
                None
            }),
    {
        match self.find_account(staker) {
            Some(i) => {
                proof {
                    lemma_position_found(self.accounts@, i as int);
                }
                if stake_id < self.accounts[i].entries.len() as u64 {
                    Some(self.accounts[i].entries[stake_id as usize])
                } else {
                    None
                }
            },
            None => None,
        }
    }
}

/// On accounts with distinct stakers, an account is found under its
/// staker's address at the place where it stands.
pub proof fn lemma_position_found(accounts: Seq<StakerAccount>, i: int)
    requires
        0 <= i < accounts.len(),
        distinct_stakers(accounts),
    ensures
        position(accounts, accounts[i].info.authority) == Some(i),
{
    let staker = accounts[i].info.authority;
    let found = choose|k: int| 0 <= k < accounts.len() && accounts[k].info.authority == staker;
    assert(0 <= found < accounts.len() && accounts[found].info.authority == staker);
    if found < i {
        assert(accounts[found].info.authority != accounts[i].info.authority);
    } else if i < found {
        assert(accounts[i].info.authority != accounts[found].info.authority);
    }
}

/// Appending an amount adds it to the sum.
pub proof fn lemma_sum_push(amounts: Seq<nat>, x: nat)
    ensures
        sum(amounts.push(x)) == sum(amounts) + x,
{
    assert(amounts.push(x).drop_last() =~= amounts);
}

/// Replacing one amount changes the sum by the difference.
pub proof fn lemma_sum_update(amounts: Seq<nat>, i: int, x: nat)
    requires
        0 <= i < amounts.len(),
    ensures
        sum(amounts.update(i, x)) == sum(amounts) - amounts[i] + x,
        amounts[i] <= sum(amounts),
    decreases amounts.len(),
{
    if i == amounts.len() - 1 {
        assert(amounts.update(i, x).drop_last() =~= amounts.drop_last());
    } else {
        lemma_sum_update(amounts.drop_last(), i, x);
        assert(amounts.update(i, x).drop_last() =~= amounts.drop_last().update(i, x));
    }
}

/// Replacing one stake changes the principal that is not withdrawn by the
/// difference, and no stake holds more than the whole.
pub proof fn lemma_active_principal_update(
    entries: Seq<UserStakesEntry>,
    j: int,
    entry: UserStakesEntry,
)
    requires
        0 <= j < entries.len(),
    ensures
        active_principal(entries.update(j, entry)) == active_principal(entries)
            - entries[j].active_amount() + entry.active_amount(),
        entries[j].active_amount() <= active_principal(entries),
{
    let f = |e: UserStakesEntry| e.active_amount();
    lemma_sum_update(entries.map_values(f), j, entry.active_amount());
    assert(entries.update(j, entry).map_values(f) =~= entries.map_values(f).update(
        j,
        entry.active_amount(),
    ));
}

/// A further stake adds its principal, if it is not withdrawn.
pub proof fn lemma_active_principal_push(entries: Seq<UserStakesEntry>, entry: UserStakesEntry)
    ensures
        active_principal(entries.push(entry)) == active_principal(entries)
            + entry.active_amount(),
{
    let f = |e: UserStakesEntry| e.active_amount();
    lemma_sum_push(entries.map_values(f), entry.active_amount());
    assert(entries.push(entry).map_values(f) =~= entries.map_values(f).push(
        entry.active_amount(),
    ));
}

/// Replacing one account changes the sum of the ledgers' totals by the
/// difference, and no ledger carries more than the whole.
pub proof fn lemma_total_of_ledgers_update(
    accounts: Seq<StakerAccount>,
    i: int,
    account: StakerAccount,
)
    requires
        0 <= i < accounts.len(),
    ensures
        total_of_ledgers(accounts.update(i, account)) == total_of_ledgers(accounts)
            - accounts[i].info.total_amount + account.info.total_amount,
        accounts[i].info.total_amount <= total_of_ledgers(accounts),
{
    let f = |a: StakerAccount| a.info.total_amount as nat;
    lemma_sum_update(accounts.map_values(f), i, account.info.total_amount as nat);
    assert(accounts.update(i, account).map_values(f) =~= accounts.map_values(f).update(
        i,
        account.info.total_amount as nat,
    ));
}

/// A further account adds its ledger's total.
pub proof fn lemma_total_of_ledgers_push(accounts: Seq<StakerAccount>, account: StakerAccount)
    ensures
        total_of_ledgers(accounts.push(account)) == total_of_ledgers(accounts)
            + account.info.total_amount,
{
    let f = |a: StakerAccount| a.info.total_amount as nat;
    lemma_sum_push(accounts.map_values(f), account.info.total_amount as nat);
    assert(accounts.push(account).map_values(f) =~= accounts.map_values(f).push(
        account.info.total_amount as nat,
    ));
}

/// On a well-formed store the pool's total is the sum of the principal of
/// every stake, of every staker, that is not withdrawn.
pub proof fn lemma_pool_total_is_active_principal(ledger: StakingLedger)
    requires
        ledger.wf(),
    ensures
        total_active_principal(ledger.accounts@) == ledger.pool.total_staked,
{
    assert(ledger.accounts@.map_values(|a: StakerAccount| active_principal(a.entries@))
        =~= ledger.accounts@.map_values(|a: StakerAccount| a.info.total_amount as nat)) by {
        assert forall|i: int| 0 <= i < ledger.accounts.len() implies active_principal(
            ledger.accounts[i].entries@,
        ) == ledger.accounts[i].info.total_amount as nat by {
            assert(ledger.accounts[i].wf());
        }
    }
}

/// On a well-formed store a stake's principal is covered by its staker's
/// total, and that by the pool's: a withdrawal never fails for want of
/// either.
pub proof fn lemma_totals_cover_principal(ledger: StakingLedger, staker: Address, stake_id: u64)
    requires
        ledger.wf(),
        ledger@.entries.contains_key((staker, stake_id)),
    ensures
        ledger@.users.contains_key(staker),
        ledger@.entries[(staker, stake_id)].active_amount() <= ledger@.users[staker].total_amount
            <= ledger.pool.total_staked,
{
    let i = position(ledger.accounts@, staker).unwrap();
    assert(ledger.accounts[i].wf());
    lemma_active_principal_update(
        ledger.accounts[i].entries@,
        stake_id as int,
        ledger.accounts[i].entries[stake_id as int],
    );
    lemma_total_of_ledgers_update(ledger.accounts@, i, ledger.accounts[i]);
}

/// On a well-formed store a requested stake can be withdrawn from the
/// second at which the maturity delay has passed: the withdrawal succeeds
/// if the lockup has passed too, or else if the stake's tier exists and its
/// penalty is at most the whole and can be computed in 64 bits.
pub proof fn lemma_matured_unstake_succeeds(
    ledger: StakingLedger,
    staker: Address,
    stake_id: u64,
    now: u64,
)
    requires
        ledger.wf(),
        ledger@.entries.contains_key((staker, stake_id)),
        ledger@.entries[(staker, stake_id)].state_of() == StakeState::RequestedUnstake,
        now >= ledger@.entries[(staker, stake_id)].unstake_requested_at + MATURITY_DELAY_SECONDS,
        ledger@.entries[(staker, stake_id)].exits_early(now) ==> (ledger.pool.tier_of(
            ledger@.entries[(staker, stake_id)].lockup,
        ) matches Some(tier) && tier.penalty <= 1000 && ledger@.entries[(
            staker,
            stake_id,
        )].amount * tier.penalty <= u64::MAX),
    ensures
        ledger@.users.contains_key(staker),
        unstake_refusal(
            ledger@.pool,
            ledger@.users[staker],
            ledger@.entries[(staker, stake_id)],
            now,
        ) is None,
{
    let entry = ledger@.entries[(staker, stake_id)];
    lemma_totals_cover_principal(ledger, staker, stake_id);
    if entry.exits_early(now) {
        let tier = ledger.pool.tier_of(entry.lockup).unwrap();
        crate::math::lemma_permille_bounded(entry.amount as nat, tier.penalty as nat);
    }
}

/// Accounts that keep their stakers keep their places.
proof fn lemma_positions_kept(before: Seq<StakerAccount>, after: Seq<StakerAccount>)
    requires
        distinct_stakers(before),
        after.len() == before.len(),
        forall|k: int|
            0 <= k < before.len() ==> (#[trigger] after[k]).info.authority
                == before[k].info.authority,
    ensures
        distinct_stakers(after),
        forall|staker: Address| #[trigger] position(after, staker) == position(before, staker),
{
    assert(distinct_stakers(after)) by {
        assert forall|i: int, j: int| 0 <= i < j < after.len() implies (#[trigger] after[i]).info.authority
            != (#[trigger] after[j]).info.authority by {
            assert(before[i].info.authority != before[j].info.authority);
        }
    }
    assert forall|staker: Address| #[trigger] position(after, staker) == position(before, staker) by {
        if exists|i: int| 0 <= i < before.len() && before[i].info.authority == staker {
            let p = choose|i: int| 0 <= i < before.len() && before[i].info.authority == staker;
            assert(after[p].info.authority == staker);
            lemma_position_found(after, p);
            lemma_position_found(before, p);
        } else {
            if exists|i: int| 0 <= i < after.len() && after[i].info.authority == staker {
                let q = choose|i: int| 0 <= i < after.len() && after[i].info.authority == staker;
                assert(before[q].info.authority == staker);
            }
        }
    }
}

/// The account of a new staker stands last and moves no other.
proof fn lemma_positions_pushed(before: Seq<StakerAccount>, account: StakerAccount)
    requires
        distinct_stakers(before),
        position(before, account.info.authority) is None,
    ensures
        distinct_stakers(before.push(account)),
        position(before.push(account), account.info.authority) == Some(before.len() as int),
        forall|staker: Address|
            staker != account.info.authority ==> #[trigger] position(
                before.push(account),
                staker,
            ) == position(before, staker),
{
    let after = before.push(account);
    assert(distinct_stakers(after)) by {
        assert forall|i: int, j: int| 0 <= i < j < after.len() implies (#[trigger] after[i]).info.authority
            != (#[trigger] after[j]).info.authority by {
            if j < before.len() {
                assert(before[i].info.authority != before[j].info.authority);
            } else {
                assert(before[i].info.authority != account.info.authority);
            }
        }
    }
    lemma_position_found(after, before.len() as int);
    assert forall|staker: Address| staker != account.info.authority implies #[trigger] position(
        after,
        staker,
    ) == position(before, staker) by {
        if exists|i: int| 0 <= i < before.len() && before[i].info.authority == staker {
            let p = choose|i: int| 0 <= i < before.len() && before[i].info.authority == staker;
            assert(after[p].info.authority == staker);
            lemma_position_found(after, p);
            lemma_position_found(before, p);
        } else {
            if exists|i: int| 0 <= i < after.len() && after[i].info.authority == staker {
                let q = choose|i: int| 0 <= i < after.len() && after[i].info.authority == staker;
                assert(before[q].info.authority == staker);
            }
        }
    }
}

/// What follows when one account of a well-formed store gets a new ledger
/// and one of its stakes a new value, everything else staying as it was.
proof fn lemma_stake_replaced(before: StakingLedger, after: StakingLedger, i: int, j: int)
    requires
        before.wf(),
        0 <= i < before.accounts.len(),
        0 <= j < before.accounts[i].entries.len(),
        after.accounts.len() == before.accounts.len(),
        forall|k: int|
            0 <= k < before.accounts.len() && k != i ==> after.accounts[k] == before.accounts[k],
        after.accounts[i].info.authority == before.accounts[i].info.authority,
        after.accounts[i].entries@ == before.accounts[i].entries@.update(
            j,
            after.accounts[i].entries[j],
        ),
    ensures
        distinct_stakers(after.accounts@),
        forall|k: int|
            0 <= k < after.accounts.len() && k != i ==> (#[trigger] after.accounts[k]).wf(),
        before@.users.contains_key(before.accounts[i].info.authority),
        before@.users[before.accounts[i].info.authority] == before.accounts[i].info,
        before@.entries.contains_key((before.accounts[i].info.authority, j as u64)),
        before@.entries[(before.accounts[i].info.authority, j as u64)]
            == before.accounts[i].entries[j],
        after@.users == before@.users.insert(
            before.accounts[i].info.authority,
            after.accounts[i].info,
        ),
        after@.entries == before@.entries.insert(
            (before.accounts[i].info.authority, j as u64),
            after.accounts[i].entries[j],
        ),
        total_of_ledgers(after.accounts@) == total_of_ledgers(before.accounts@)
            - before.accounts[i].info.total_amount + after.accounts[i].info.total_amount,
        active_principal(after.accounts[i].entries@) == active_principal(
            before.accounts[i].entries@,
        ) - before.accounts[i].entries[j].active_amount()
            + after.accounts[i].entries[j].active_amount(),
{
    let staker = before.accounts[i].info.authority;
    assert(before.accounts[i].wf());
    assert(j as u64 == j);
    lemma_positions_kept(before.accounts@, after.accounts@);
    lemma_position_found(before.accounts@, i);
    assert forall|k: int| 0 <= k < after.accounts.len() && k != i implies (
    #[trigger] after.accounts[k]).wf() by {
        assert(before.accounts[k].wf());
    }
    assert(after@.users =~= before@.users.insert(staker, after.accounts[i].info)) by {
        assert forall|s: Address| #[trigger] after@.users.contains_key(s) implies after@.users[s]
            == before@.users.insert(staker, after.accounts[i].info)[s] by {
            let p = position(before.accounts@, s).unwrap();
            assert(position(after.accounts@, s) == Some(p));
            if p != i {
                assert(before.accounts[p].info.authority == s);
            }
        }
    }
    assert(after@.entries =~= before@.entries.insert(
        (staker, j as u64),
        after.accounts[i].entries[j],
    )) by {
        assert forall|key: (Address, u64)| #[trigger]
            after@.entries.contains_key(key) == before@.entries.insert(
                (staker, j as u64),
                after.accounts[i].entries[j],
            ).contains_key(key) by {
            assert(position(after.accounts@, key.0) == position(before.accounts@, key.0));
        }
        assert forall|key: (Address, u64)| #[trigger]
            after@.entries.contains_key(key) implies after@.entries[key] == before@.entries.insert(
            (staker, j as u64),
            after.accounts[i].entries[j],
        )[key] by {
            assert(position(after.accounts@, key.0) == position(before.accounts@, key.0));
            let p = position(before.accounts@, key.0).unwrap();
            if p != i {
                assert(before.accounts[p].info.authority == key.0);
            }
        }
    }
    assert(after.accounts@ =~= before.accounts@.update(i, after.accounts[i]));
    lemma_total_of_ledgers_update(before.accounts@, i, after.accounts[i]);
    lemma_active_principal_update(before.accounts[i].entries@, j, after.accounts[i].entries[j]);
}

impl StakingLedger {
    /// Requests the withdrawal of the stake `stake_id` of `staker`.
    ///
    /// Refused with `InvalidStakeId` where the staker has no such stake,
    /// and otherwise as the request on the three records is. On success
    /// the staker's ledger and the stake are replaced by what the request
    /// makes of them; nothing else changes.
    pub fn request_unstake(&mut self, staker: Address, stake_id: u64, now: u64) -> (r: Result<
        (),
        CustomError,
    >)
        requires
            old(self).wf(),
        ensures
            final(self).wf(),
            total_active_principal(final(self).accounts@) == final(self).pool.total_staked,
            final(self).pool_key == old(self).pool_key,
            !old(self)@.entries.contains_key((staker, stake_id)) ==> r == Err::<(), CustomError>(
                CustomError::InvalidStakeId,
            ) && final(self)@ == old(self)@,
            old(self)@.entries.contains_key((staker, stake_id)) ==> match request_unstake_refusal(
                old(self)@.pool,
                old(self)@.users[staker],
                old(self)@.entries[(staker, stake_id)],
            ) {
                Some(e) => r == Err::<(), CustomError>(e) && final(self)@ == old(self)@,
                None => {
                    &&& r == Ok::<(), CustomError>(())
                    &&& final(self)@ == (LedgerView {
                        pool: old(self)@.pool,
                        users: old(self)@.users.insert(
                            staker,
                            user_after_request(
                                old(self)@.pool,
                                old(self)@.users[staker],
                                old(self)@.entries[(staker, stake_id)],
                            ),
                        ),
                        entries: old(self)@.entries.insert(
                            (staker, stake_id),
                            entry_after_request(old(self)@.entries[(staker, stake_id)], now),
                        ),
                    })
                },
            },
    {
        let ghost before = *self;
        proof {
            lemma_pool_total_is_active_principal(before);
        }
        let i = match self.find_account(&staker) {
            Some(i) => i,
            None => {
                return Err(CustomError::InvalidStakeId);
            },
        };
        proof {
            lemma_position_found(self.accounts@, i as int);
        }
        if stake_id >= self.accounts[i].entries.len() as u64 {
            return Err(CustomError::InvalidStakeId);
        }
        let j = stake_id as usize;
        let account = &mut self.accounts[i];
        let entry = &mut account.entries[j];
        let r = request_unstake_tokens(&self.pool, &mut account.info, entry, now);
        proof {
            lemma_stake_replaced(before, *self, i as int, j as int);
            assert(before.accounts[i as int].wf());
            if r is Err {
                assert(self@.users =~= before@.users);
                assert(self@.entries =~= before@.entries);
            }
            lemma_pool_total_is_active_principal(*self);
        }
        r
    }

    /// Withdraws the stake `stake_id` of `staker`.
    ///
    /// Refused with `InvalidStakeId` where the staker has no such stake,
    /// and otherwise as the withdrawal on the three records is. On success
    /// the result says what to pay, and the pool, the staker's ledger and
    /// the stake are replaced by what the withdrawal makes of them; nothing
    /// else changes.
    pub fn unstake(&mut self, staker: Address, stake_id: u64, now: u64) -> (r: Result<
        Withdrawal,
        CustomError,
    >)
        requires
            old(self).wf(),
        ensures
            final(self).wf(),
            total_active_principal(final(self).accounts@) == final(self).pool.total_staked,
            final(self).pool_key == old(self).pool_key,
            !old(self)@.entries.contains_key((staker, stake_id)) ==> r == Err::<
                Withdrawal,
                CustomError,
            >(CustomError::InvalidStakeId) && final(self)@ == old(self)@,
            old(self)@.entries.contains_key((staker, stake_id)) ==> match unstake_refusal(
                old(self)@.pool,
                old(self)@.users[staker],
                old(self)@.entries[(staker, stake_id)],
                now,
            ) {
                Some(e) => r == Err::<Withdrawal, CustomError>(e) && final(self)@ == old(self)@,
                None => {
                    &&& r == Ok::<Withdrawal, CustomError>(
                        withdrawal_of(
                            old(self)@.pool,
                            old(self)@.entries[(staker, stake_id)],
                            now,
                        ),
                    )
                    &&& final(self)@ == (LedgerView {
                        pool: pool_after_unstake(
                            old(self)@.pool,
                            old(self)@.entries[(staker, stake_id)],
                        ),
                        users: old(self)@.users.insert(
                            staker,
                            user_after_unstake(
                                old(self)@.users[staker],
                                old(self)@.entries[(staker, stake_id)],
                            ),
                        ),
                        entries: old(self)@.entries.insert(
                            (staker, stake_id),
                            entry_after_unstake(old(self)@.entries[(staker, stake_id)], now),
                        ),
                    })
                },
            },
    {
        let ghost before = *self;
        proof {
            lemma_pool_total_is_active_principal(before);
        }
        let i = match self.find_account(&staker) {
            Some(i) => i,
            None => {
                return Err(CustomError::InvalidStakeId);
            },
        };
        proof {
            lemma_position_found(self.accounts@, i as int);
        }
        if stake_id >= self.accounts[i].entries.len() as u64 {
            return Err(CustomError::InvalidStakeId);
        }
        let j = stake_id as usize;
        let account = &mut self.accounts[i];
        let entry = &mut account.entries[j];
        let r = unstake_tokens(&mut self.pool, &mut account.info, entry, now);
        proof {
            lemma_stake_replaced(before, *self, i as int, j as int);
            assert(before.accounts[i as int].wf());
            if r is Err {
                assert(self@.users =~= before@.users);
                assert(self@.entries =~= before@.entries);
            }
            lemma_pool_total_is_active_principal(*self);
        }
        r
    }

    /// Claims the rewards of the stake `stake_id` of `staker` against a
    /// reserve that holds `reserve_balance`.
    ///
    /// Refused with `InvalidStakeId` where the staker has no such stake,
    /// and otherwise as the claim on the three records is. On success the
    /// result is the reward to pay, and the pool, the staker's ledger and
    /// the stake are replaced by what the claim makes of them; nothing else
    /// changes.
    pub fn claim_reward(
        &mut self,
        staker: Address,
        stake_id: u64,
        reserve_balance: u64,
        now: u64,
    ) -> (r: Result<u64, CustomError>)
        requires
            old(self).wf(),
        ensures
            final(self).wf(),
            total_active_principal(final(self).accounts@) == final(self).pool.total_staked,
            final(self).pool_key == old(self).pool_key,
            !old(self)@.entries.contains_key((staker, stake_id)) ==> r == Err::<u64, CustomError>(
                CustomError::InvalidStakeId,
            ) && final(self)@ == old(self)@,
            old(self)@.entries.contains_key((staker, stake_id)) ==> match claim_refusal(
                old(self)@.pool,
                old(self)@.users[staker],
                old(self)@.entries[(staker, stake_id)],
                reserve_balance,
                now,
            ) {
                Some(e) => r == Err::<u64, CustomError>(e) && final(self)@ == old(self)@,
                None => {
                    &&& r == Ok::<u64, CustomError>(
                        reward_due(
                            old(self)@.pool,
                            old(self)@.entries[(staker, stake_id)],
                            now,
                        ) as u64,
                    )
                    &&& final(self)@ == (LedgerView {
                        pool: pool_after_claim(
                            old(self)@.pool,
                            old(self)@.entries[(staker, stake_id)],
                            now,
                        ),
                        users: old(self)@.users.insert(
                            staker,
                            user_after_claim(
                                old(self)@.pool,
                                old(self)@.users[staker],
                                old(self)@.entries[(staker, stake_id)],
                                now,
                            ),
                        ),
                        entries: old(self)@.entries.insert(
                            (staker, stake_id),
                            entry_after_claim(old(self)@.entries[(staker, stake_id)], now),
                        ),
                    })
                },
            },
    {
        let ghost before = *self;
        proof {
            lemma_pool_total_is_active_principal(before);
        }
        let i = match self.find_account(&staker) {
            Some(i) => i,
            None => {
                return Err(CustomError::InvalidStakeId);
            },
        };
        proof {
            lemma_position_found(self.accounts@, i as int);
        }
        if stake_id >= self.accounts[i].entries.len() as u64 {
            return Err(CustomError::InvalidStakeId);
        }
        let j = stake_id as usize;
        let account = &mut self.accounts[i];
        let entry = &mut account.entries[j];
        let r = claim_reward(&mut self.pool, &mut account.info, entry, reserve_balance, now);
        proof {
            lemma_stake_replaced(before, *self, i as int, j as int);
            assert(before.accounts[i as int].wf());
            if r is Err {
                assert(self@.users =~= before@.users);
                assert(self@.entries =~= before@.entries);
            }
            lemma_pool_total_is_active_principal(*self);
        }
        r
    }
}

/// What follows when one account of a well-formed store gets a new ledger
/// and a further stake, everything else staying as it was.
proof fn lemma_stake_added(before: StakingLedger, after: StakingLedger, i: int)
    requires
        before.wf(),
        0 <= i < before.accounts.len(),
        before.accounts[i].entries.len() < u64::MAX,
        after.accounts.len() == before.accounts.len(),
        forall|k: int|
            0 <= k < before.accounts.len() && k != i ==> after.accounts[k] == before.accounts[k],
        after.accounts[i].info.authority == before.accounts[i].info.authority,
        after.accounts[i].entries.len() == before.accounts[i].entries.len() + 1,
        after.accounts[i].entries@ == before.accounts[i].entries@.push(
            after.accounts[i].entries@.last(),
        ),
    ensures
        distinct_stakers(after.accounts@),
        forall|k: int|
            0 <= k < after.accounts.len() && k != i ==> (#[trigger] after.accounts[k]).wf(),
        after@.users == before@.users.insert(
            before.accounts[i].info.authority,
            after.accounts[i].info,
        ),
        after@.entries == before@.entries.insert(
            (before.accounts[i].info.authority, before.accounts[i].entries.len() as u64),
            after.accounts[i].entries@.last(),
        ),
        total_of_ledgers(after.accounts@) == total_of_ledgers(before.accounts@)
            - before.accounts[i].info.total_amount + after.accounts[i].info.total_amount,
        active_principal(after.accounts[i].entries@) == active_principal(
            before.accounts[i].entries@,
        ) + after.accounts[i].entries@.last().active_amount(),
{
    let staker = before.accounts[i].info.authority;
    let n = before.accounts[i].entries.len();
    let added = after.accounts[i].entries@.last();
    lemma_positions_kept(before.accounts@, after.accounts@);
    lemma_position_found(before.accounts@, i);
    assert forall|k: int| 0 <= k < after.accounts.len() && k != i implies (
    #[trigger] after.accounts[k]).wf() by {
        assert(before.accounts[k].wf());
    }
    assert(after@.users =~= before@.users.insert(staker, after.accounts[i].info)) by {
        assert forall|s: Address| #[trigger] after@.users.contains_key(s) implies after@.users[s]
            == before@.users.insert(staker, after.accounts[i].info)[s] by {
            let p = position(before.accounts@, s).unwrap();
            assert(position(after.accounts@, s) == Some(p));
            if p != i {
                assert(before.accounts[p].info.authority == s);
            }
        }
    }
    assert(after@.entries =~= before@.entries.insert((staker, n as u64), added)) by {
        assert forall|key: (Address, u64)| #[trigger]
            after@.entries.contains_key(key) == before@.entries.insert(
                (staker, n as u64),
                added,
            ).contains_key(key) by {
            assert(position(after.accounts@, key.0) == position(before.accounts@, key.0));
            if position(before.accounts@, key.0) is Some {
                let p = position(before.accounts@, key.0).unwrap();
                if p != i {
                    assert(before.accounts[p].info.authority == key.0);
                }
            }
        }
        assert forall|key: (Address, u64)| #[trigger]
            after@.entries.contains_key(key) implies after@.entries[key] == before@.entries.insert(
            (staker, n as u64),
            added,
        )[key] by {
            assert(position(after.accounts@, key.0) == position(before.accounts@, key.0));
            let p = position(before.accounts@, key.0).unwrap();
            if p != i {
                assert(before.accounts[p].info.authority == key.0);
            }
        }
    }
    assert(after.accounts@ =~= before.accounts@.update(i, after.accounts[i]));
    lemma_total_of_ledgers_update(before.accounts@, i, after.accounts[i]);
    lemma_active_principal_push(before.accounts[i].entries@, added);
}

/// What follows when a well-formed store gets the account of a new staker
/// with one stake.
proof fn lemma_account_added(before: StakingLedger, after: StakingLedger, account: StakerAccount)
    requires
        before.wf(),
        position(before.accounts@, account.info.authority) is None,
        after.accounts@ == before.accounts@.push(account),
        account.entries.len() == 1,
    ensures
        distinct_stakers(after.accounts@),
        forall|k: int|
            0 <= k < before.accounts.len() ==> (#[trigger] after.accounts[k]).wf(),
        !before@.users.contains_key(account.info.authority),
        after@.users == before@.users.insert(account.info.authority, account.info),
        after@.entries == before@.entries.insert(
            (account.info.authority, 0u64),
            account.entries[0],
        ),
        total_of_ledgers(after.accounts@) == total_of_ledgers(before.accounts@)
            + account.info.total_amount,
        active_principal(account.entries@) == account.entries[0].active_amount(),
{
    let staker = account.info.authority;
    let n = before.accounts.len() as int;
    lemma_positions_pushed(before.accounts@, account);
    assert forall|k: int| 0 <= k < before.accounts.len() implies (#[trigger] after.accounts[k]).wf() by {
        assert(before.accounts[k].wf());
    }
    assert(after@.users =~= before@.users.insert(staker, account.info)) by {
        assert forall|s: Address| #[trigger]
            after@.users.contains_key(s) == before@.users.insert(
                staker,
                account.info,
            ).contains_key(s) by {
            if s != staker {
                assert(position(after.accounts@, s) == position(before.accounts@, s));
            }
        }
        assert forall|s: Address| #[trigger] after@.users.contains_key(s) implies after@.users[s]
            == before@.users.insert(staker, account.info)[s] by {
            if s != staker {
                assert(position(after.accounts@, s) == position(before.accounts@, s));
            }
        }
    }
    assert(after@.entries =~= before@.entries.insert((staker, 0u64), account.entries[0])) by {
        assert forall|key: (Address, u64)| #[trigger]
            after@.entries.contains_key(key) == before@.entries.insert(
                (staker, 0u64),
                account.entries[0],
            ).contains_key(key) by {
            if key.0 != staker {
                assert(position(after.accounts@, key.0) == position(before.accounts@, key.0));
            }
        }
        assert forall|key: (Address, u64)| #[trigger]
            after@.entries.contains_key(key) implies after@.entries[key] == before@.entries.insert(
            (staker, 0u64),
            account.entries[0],
        )[key] by {
            if key.0 != staker {
                assert(position(after.accounts@, key.0) == position(before.accounts@, key.0));
            }
        }
    }
    lemma_total_of_ledgers_push(before.accounts@, account);
    lemma_active_principal_push(Seq::<UserStakesEntry>::empty(), account.entries[0]);
    assert(account.entries@ =~= Seq::<UserStakesEntry>::empty().push(account.entries[0]));
    assert(Seq::<UserStakesEntry>::empty().map_values(|e: UserStakesEntry| e.active_amount()).len()
        == 0);
}

impl StakingLedger {
    /// Deposits `amount` for `lockup` days as the next stake of `staker`,
    /// whose account is opened with the first deposit.
    ///
    /// Refused as the deposit into a vacant slot is on the pool and the
    /// staker's ledger, which is the empty one before the first deposit.
    /// On success the result is the id of the new stake, the number of
    /// stakes the staker had made before; the pool and the staker's ledger
    /// are replaced by what the deposit makes of them and the stake is
    /// added under that id; nothing else changes.
    pub fn stake(
        &mut self,
        config: &Config,
        staker: Address,
        amount: u64,
        lockup: u16,
        now: u64,
    ) -> (r: Result<u64, CustomError>)
        requires
            old(self).wf(),
        ensures
            final(self).wf(),
            total_active_principal(final(self).accounts@) == final(self).pool.total_staked,
            final(self).pool_key == old(self).pool_key,
            match stake_refusal(
                old(self)@.pool,
                old(self)@.ledger_of(staker, old(self).pool_key),
                vacant_slot(),
                amount,
                lockup,
            ) {
                Some(e) => r == Err::<u64, CustomError>(e) && final(self)@ == old(self)@,
                None => {
                    &&& r == Ok::<u64, CustomError>(
                        old(self)@.ledger_of(staker, old(self).pool_key).stake_count,
                    )
                    &&& final(self)@ == (LedgerView {
                        pool: pool_after_stake(old(self)@.pool, amount),
                        users: old(self)@.users.insert(
                            staker,
                            user_after_stake(
                                *config,
                                old(self)@.pool,
                                old(self).pool_key,
                                old(self)@.ledger_of(staker, old(self).pool_key),
                                staker,
                                amount,
                                lockup,
                                now,
                            ),
                        ),
                        entries: old(self)@.entries.insert(
                            (staker, old(self)@.ledger_of(staker, old(self).pool_key).stake_count),
                            entry_after_stake(
                                old(self)@.ledger_of(staker, old(self).pool_key),
                                vacant_slot(),
                                amount,
                                lockup,
                                now,
                            ),
                        ),
                    })
                },
            },
    {
        let ghost before = *self;
        proof {
            lemma_pool_total_is_active_principal(before);
        }
        let mut pool = self.pool;
        let mut slot = UserStakesEntry::vacant();
        match self.find_account(&staker) {
            Some(i) => {
                proof {
                    lemma_position_found(self.accounts@, i as int);
                    assert(self.accounts[i as int].wf());
                }
                let mut info = self.accounts[i].info;
                match stake_tokens(
                    config,
                    &mut pool,
                    self.pool_key,
                    &mut info,
                    staker,
                    &mut slot,
                    amount,
                    lockup,
                    now,
                ) {
                    Err(e) => Err(e),
                    Ok(()) => {
                        self.pool = pool;
                        let account = &mut self.accounts[i];
                        account.info = info;
                        account.entries.push(slot);
                        proof {
                            lemma_stake_added(before, *self, i as int);
                            lemma_pool_total_is_active_principal(*self);
                        }
                        Ok(slot.stake_id)
                    },
                }
            },
            None => {
                let mut info = UserStakeInfo::empty(staker, self.pool_key);
                match stake_tokens(
                    config,
                    &mut pool,
                    self.pool_key,
                    &mut info,
                    staker,
                    &mut slot,
                    amount,
                    lockup,
                    now,
                ) {
                    Err(e) => Err(e),
                    Ok(()) => {
                        self.pool = pool;
                        let mut entries: Vec<UserStakesEntry> = Vec::new();
                        entries.push(slot);
                        let account = StakerAccount { info, entries };
                        let ghost added = account;
                        self.accounts.push(account);
                        proof {
                            lemma_account_added(before, *self, added);
                            lemma_pool_total_is_active_principal(*self);
                        }
                        Ok(slot.stake_id)
                    },
                }
            },
        }
    }
}

} // verus!
