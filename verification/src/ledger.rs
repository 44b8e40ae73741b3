//! The stake records of one pool, kept by user.

use vstd::prelude::*;
use crate::identity::Identity;
use crate::stake::UserStake;

verus! {

/// The principal that a sequence of records holds in all.
pub open spec fn staked_sum(records: Seq<UserStake>) -> nat
    decreases records.len(),
{
    if records.len() == 0 {
        0
    } else {
        staked_sum(records.drop_last()) + records.last().amount as nat
    }
}

/// A record added at the end adds its principal to the sum.
pub proof fn lemma_sum_push(records: Seq<UserStake>, record: UserStake)
    ensures
        staked_sum(records.push(record)) == staked_sum(records) + record.amount,
{
    assert(records.push(record).drop_last() =~= records);
}

/// A record put in the place of another changes the sum by the difference of
/// their principals.
pub proof fn lemma_sum_update(records: Seq<UserStake>, at: int, record: UserStake)
    requires
        0 <= at < records.len(),
    ensures
        staked_sum(records.update(at, record)) == staked_sum(records) - records[at].amount
            + record.amount,
    decreases records.len(),
{
    let changed = records.update(at, record);
    if at == records.len() - 1 {
        assert(changed.drop_last() =~= records.drop_last());
    } else {
        assert(changed.drop_last() =~= records.drop_last().update(at, record));
        lemma_sum_update(records.drop_last(), at, record);
    }
}

/// No record holds more than all of them together.
pub proof fn lemma_sum_bounds(records: Seq<UserStake>, at: int)
    requires
        0 <= at < records.len(),
    ensures
        records[at].amount <= staked_sum(records),
    decreases records.len(),
{
    if at < records.len() - 1 {
        lemma_sum_bounds(records.drop_last(), at);
    }
}

/// What a ledger holds: the records of the users of one pool, in the order in
/// which the users first came. A user without a record stands as one with an
/// inactive record.
#[verifier::ext_equal]
pub struct LedgerView {
    /// The pool whose stakes these are.
    pub pool: Identity,
    /// The records.
    pub records: Seq<UserStake>,
}

impl LedgerView {
    /// Every record is of this ledger's pool, and no user has two.
    pub open spec fn wf(self) -> bool {
        &&& forall|i: int| 0 <= i < self.records.len() ==> (#[trigger] self.records[i]).pool == self.pool
        &&& forall|i: int, j: int|
            0 <= i < j < self.records.len() ==> (#[trigger] self.records[i]).user != (
            #[trigger] self.records[j]).user
    }

    /// Whether the record at `at` is the one of `user`.
    pub open spec fn keeps(self, at: int, user: Identity) -> bool {
        0 <= at < self.records.len() && self.records[at].user == user
    }

    /// Where the record of `user` is kept, if there is one.
    pub open spec fn position(self, user: Identity) -> Option<int> {
        if exists|at: int| self.keeps(at, user) {
            Some(choose|at: int| self.keeps(at, user))
        } else {
            None
        }
    }

    /// The record of `user`: the one that is kept, or an inactive one.
    pub open spec fn stake_of(self, user: Identity) -> UserStake {
        match self.position(user) {
            Some(at) => self.records[at],
            None => UserStake::fresh(user, self.pool),
        }
    }

    /// The principal that all the records hold together.
    pub open spec fn total(self) -> nat {
        staked_sum(self.records)
    }

    /// The ledger with a record for `user`: as it is where the user has one,
    /// else with an inactive record added at the end.
    pub open spec fn created(self, user: Identity) -> LedgerView {
        match self.position(user) {
            Some(at) => self,
            None => LedgerView {
                records: self.records.push(UserStake::fresh(user, self.pool)),
                ..self
            },
        }
    }

    /// The ledger with `record` as the record of its user: in the place of
    /// the one that the user had, else added at the end.
    pub open spec fn stored(self, record: UserStake) -> LedgerView {
        match self.position(record.user) {
            Some(at) => LedgerView { records: self.records.update(at, record), ..self },
            None => LedgerView { records: self.records.push(record), ..self },
        }
    }

    /// In a well-formed ledger the record of a user is kept in one place only.
    pub proof fn lemma_position(self, at: int, user: Identity)
        requires
            self.wf(),
            self.keeps(at, user),
        ensures
            self.position(user) == Some(at),
            self.stake_of(user) == self.records[at],
    {
        let chosen = choose|k: int| self.keeps(k, user);
        assert(self.keeps(chosen, user));
        if chosen < at {
            assert(self.records[chosen].user != self.records[at].user);
        } else if at < chosen {
            assert(self.records[at].user != self.records[chosen].user);
        }
    }

    /// A user without a record is kept nowhere.
    pub proof fn lemma_absent(self, user: Identity)
        requires
            self.position(user) is None,
        ensures
            forall|at: int| !self.keeps(at, user),
    {
    }

    /// The record of a user is of that user and of this ledger's pool, and
    /// holds no more than the ledger does in all.
    pub proof fn lemma_stake_of(self, user: Identity)
        requires
            self.wf(),
        ensures
            self.stake_of(user).user == user,
            self.stake_of(user).pool == self.pool,
            self.stake_of(user).amount <= self.total(),
    {
        match self.position(user) {
            Some(at) => {
                assert(self.keeps(at, user));
                lemma_sum_bounds(self.records, at);
            },
            None => {},
        }
    }

    /// Making a record for a user keeps the ledger well-formed and changes
    /// neither any user's record nor the total.
    pub proof fn lemma_created(self, user: Identity)
        requires
            self.wf(),
        ensures
            self.created(user).wf(),
            self.created(user).pool == self.pool,
            self.created(user).position(user) is Some,
            self.position(user) is None ==> self.created(user).position(user) == Some(
                self.records.len() as int,
            ),
            forall|other: Identity| self.created(user).stake_of(other) == self.stake_of(other),
            self.created(user).total() == self.total(),
    {
        let after = self.created(user);
        match self.position(user) {
            Some(at) => {},
            None => {
                let record = UserStake::fresh(user, self.pool);
                let last = self.records.len() as int;
                self.lemma_absent(user);
                lemma_sum_push(self.records, record);
                assert(after.wf()) by {
                    assert forall|i: int, j: int| 0 <= i < j < after.records.len() implies (
                    #[trigger] after.records[i]).user != (#[trigger] after.records[j]).user by {
                        if j == last {
                            assert(!self.keeps(i, user));
                        } else {
                            assert(self.records[i].user != self.records[j].user);
                        }
                    }
                }
                assert(after.keeps(last, user));
                after.lemma_position(last, user);
                assert forall|other: Identity| after.stake_of(other) == self.stake_of(other) by {
                    if other != user {
                        self.lemma_kept(after, other);
                    }
                }
            },
        }
    }

    /// Storing a record keeps the ledger well-formed, makes the record the one
    /// of its user, changes no other user's record, and changes the total by
    /// the difference between the user's new principal and the old.
    pub proof fn lemma_stored(self, record: UserStake)
        requires
            self.wf(),
            record.pool == self.pool,
        ensures
            self.stored(record).wf(),
            self.stored(record).pool == self.pool,
            self.stored(record).stake_of(record.user) == record,
            forall|other: Identity|
                other != record.user ==> self.stored(record).stake_of(other) == self.stake_of(
                    other,
                ),
            self.stored(record).total() == self.total() - self.stake_of(record.user).amount
                + record.amount,
    {
        let after = self.stored(record);
        let user = record.user;
        match self.position(user) {
            Some(at) => {
                assert(self.keeps(at, user));
                lemma_sum_update(self.records, at, record);
                assert(after.wf()) by {
                    assert forall|i: int, j: int| 0 <= i < j < after.records.len() implies (
                    #[trigger] after.records[i]).user != (#[trigger] after.records[j]).user by {
                        assert(self.records[i].user != self.records[j].user);
                    }
                }
                assert(after.keeps(at, user));
                after.lemma_position(at, user);
            },
            None => {
                let last = self.records.len() as int;
                self.lemma_absent(user);
                lemma_sum_push(self.records, record);
                assert(after.wf()) by {
                    assert forall|i: int, j: int| 0 <= i < j < after.records.len() implies (
                    #[trigger] after.records[i]).user != (#[trigger] after.records[j]).user by {
                        if j == last {
                            assert(!self.keeps(i, user));
                        } else {
                            assert(self.records[i].user != self.records[j].user);
                        }
                    }
                }
                assert(after.keeps(last, user));
                after.lemma_position(last, user);
            },
        }
        assert forall|other: Identity| other != user implies after.stake_of(other)
            == self.stake_of(other) by {
            self.lemma_kept(after, other);
        }
    }

    /// Where a ledger differs from another only in the record of one user, or
    /// in having that user's record at the end, every other user has the same
    /// record in both.
    proof fn lemma_kept(self, after: LedgerView, other: Identity)
        requires
            self.wf(),
            after.wf(),
            after.pool == self.pool,
            self.records.len() <= after.records.len() <= self.records.len() + 1,
            forall|k: int|
                0 <= k < self.records.len() && (#[trigger] self.records[k]).user != other
                    ==> after.records[k].user != other,
            forall|k: int|
                0 <= k < self.records.len() && (#[trigger] self.records[k]).user == other
                    ==> after.records[k] == self.records[k],
            after.records.len() > self.records.len() ==> after.records.last().user != other,
        ensures
            after.stake_of(other) == self.stake_of(other),
    {
        match self.position(other) {
            Some(at) => {
                assert(self.keeps(at, other));
                assert(after.keeps(at, other));
                after.lemma_position(at, other);
            },
            None => {
                self.lemma_absent(other);
                assert forall|k: int| !after.keeps(k, other) by {
                    if 0 <= k < self.records.len() {
                        assert(!self.keeps(k, other));
                    }
                }
            },
        }
    }
}

/// The records of the users of one pool: at most one for each user.
#[derive(Clone, Debug, PartialEq, Eq)]
pub struct StakeLedger {
    /// The pool whose stakes these are.
    pub pool: Identity,
    /// The records, in the order in which their users first came.
    pub records: Vec<UserStake>,
}

impl View for StakeLedger {
    type V = LedgerView;

    open spec fn view(&self) -> LedgerView {
        LedgerView { pool: self.pool, records: self.records@ }
    }
}

impl StakeLedger {
    /// A ledger of `pool` without records.
    pub fn new(pool: Identity) -> (ledger: StakeLedger)
        ensures
            ledger@ == (LedgerView { pool, records: Seq::empty() }),
            ledger@.wf(),
            ledger@.total() == 0,
    {
        StakeLedger { pool, records: Vec::new() }
    }

    /// Looks for the record of `user`.
    pub fn find(&self, user: &Identity) -> (found: Option<usize>)
        requires
            self@.wf(),
        ensures
            match found {
                Some(at) => self@.position(*user) == Some(at as int),
                None => self@.position(*user) is None,
            },
    {
        let mut at: usize = 0;
        while at < self.records.len()
            invariant
                self@.wf(),
                at <= self.records@.len(),
                forall|k: int| 0 <= k < at ==> !self@.keeps(k, *user),
            decreases self.records@.len() - at,
        {
            if self.records[at].user.same(user) {
                proof {
                    self@.lemma_position(at as int, *user);
                }
                return Some(at);
            }
            at = at + 1;
        }
        assert(forall|k: int| !self@.keeps(k, *user));
        None
    }

    /// The record of `user`: the one that is kept, or an inactive one.
    pub fn get(&self, user: &Identity) -> (record: UserStake)
        requires
            self@.wf(),
        ensures
            record == self@.stake_of(*user),
    {
        match self.find(user) {
            Some(at) => self.records[at],
            None => UserStake::new(*user, self.pool),
        }
    }

    /// Returns the place of the record of `user`, after adding an inactive
    /// record at the end where the user has none.
    pub fn get_or_create(&mut self, user: Identity) -> (at: usize)
        requires
            old(self)@.wf(),
        ensures
            final(self)@ == old(self)@.created(user),
            final(self)@.wf(),
            final(self)@.position(user) == Some(at as int),
    {
        proof {
            self@.lemma_created(user);
        }
        match self.find(&user) {
            Some(at) => at,
            None => {
                let at: usize = self.records.len();
                self.records.push(UserStake::new(user, self.pool));
                at
            },
        }
    }

    /// Keeps `record` as the record of its user, in place of the one that the
    /// user had.
    pub fn store(&mut self, record: UserStake)
        requires
            old(self)@.wf(),
            record.pool == old(self).pool,
        ensures
            final(self)@ == old(self)@.stored(record),
            final(self)@.wf(),
    {
        proof {
            self@.lemma_created(record.user);
            self@.lemma_stored(record);
        }
        let at: usize = self.get_or_create(record.user);
        self.records[at] = record;
        assert(self@.records =~= old(self)@.stored(record).records);
    }
}

} // verus!
