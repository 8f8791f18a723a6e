//! The pool of upstream keys: each key has a remaining budget, and a cursor
//! rotates through the keys in the order in which they were registered.

use std::collections::BTreeMap;
use vstd::prelude::*;

verus! {

broadcast use vstd::laws_cmp::group_laws_cmp;

/// Budget that every key has after construction and after a reset.
pub const DEFAULT_QUOTA: usize = 10000;

/// Mathematical model of a key pool.
pub struct Pool {
    /// The keys, in registration order.
    pub keys: Seq<Seq<char>>,
    /// Remaining budget of the key at the same position.
    pub quotas: Seq<nat>,
    /// Position at which the next reservation starts to look.
    pub cursor: nat,
}

impl Pool {
    /// The number of keys.
    pub open spec fn len(self) -> nat {
        self.keys.len()
    }

    /// What holds of every pool: one budget per key, no budget above the
    /// default, no key twice, and a cursor that points at a key.
    pub open spec fn wf(self) -> bool {
        &&& self.quotas.len() == self.keys.len()
        &&& self.keys.no_duplicates()
        &&& forall|i: int| 0 <= i < self.quotas.len() ==> #[trigger] self.quotas[i] <= DEFAULT_QUOTA
        &&& if self.keys.len() == 0 {
            self.cursor == 0
        } else {
            self.cursor < self.keys.len()
        }
    }

    /// How many steps the rotation takes from the cursor to position `i`.
    pub open spec fn rank(self, i: int) -> int {
        if i >= self.cursor {
            i - self.cursor
        } else {
            i + self.len() - self.cursor
        }
    }

    /// The position after `i` in the rotation.
    pub open spec fn successor(self, i: int) -> nat {
        if i + 1 >= self.len() {
            0
        } else {
            (i + 1) as nat
        }
    }

    /// The key at `i` can pay `cost`.
    pub open spec fn eligible(self, i: int, cost: nat) -> bool {
        0 <= i < self.len() && self.quotas[i] >= cost
    }

    /// A reservation of `cost` takes the key at `i`: it can pay, and no key
    /// that can pay comes earlier in the rotation.
    pub open spec fn selects(self, i: int, cost: nat) -> bool {
        &&& self.eligible(i, cost)
        &&& forall|j: int| #[trigger] self.eligible(j, cost) ==> self.rank(i) <= self.rank(j)
    }

    /// The position that a reservation of `cost` takes, if any key can pay.
    pub open spec fn selection(self, cost: nat) -> Option<int> {
        if exists|i: int| self.selects(i, cost) {
            Some(choose|i: int| self.selects(i, cost))
        } else {
            None
        }
    }

    /// The pool after the key at `i` has paid `cost`: the cursor stands
    /// behind `i`.
    pub open spec fn charge(self, i: int, cost: nat) -> Pool {
        Pool {
            keys: self.keys,
            quotas: self.quotas.update(i, (self.quotas[i] - cost) as nat),
            cursor: self.successor(i),
        }
    }

    /// The pool after a reservation of `cost`.
    pub open spec fn reserve(self, cost: nat) -> Pool {
        match self.selection(cost) {
            Some(i) => self.charge(i, cost),
            None => self,
        }
    }

    /// The pool after `count` reservations of `cost` each.
    pub open spec fn reserve_times(self, cost: nat, count: nat) -> Pool
        decreases count,
    {
        if count == 0 {
            self
        } else {
            self.reserve_times(cost, (count - 1) as nat).reserve(cost)
        }
    }

    /// The position that the rotation reaches `steps` steps after the cursor.
    pub open spec fn at_rank(self, steps: nat) -> int {
        if self.cursor + steps >= self.len() {
            self.cursor + steps - self.len()
        } else {
            (self.cursor + steps) as int
        }
    }

    /// The pool after `key` has been marked as exhausted.
    pub open spec fn expire(self, key: Seq<char>) -> Pool {
        if self.keys.contains(key) {
            Pool { quotas: self.quotas.update(self.keys.index_of(key), 0), ..self }
        } else {
            self
        }
    }

    /// What marking `key` as exhausted finds.
    pub open spec fn expiry(self, key: Seq<char>) -> Expiry {
        if !self.keys.contains(key) {
            Expiry::UnknownKey
        } else if self.quotas[self.keys.index_of(key)] == DEFAULT_QUOTA {
            Expiry::Unused
        } else {
            Expiry::Used
        }
    }

    /// The pool after one operation that is not a reset.
    pub open spec fn apply(self, op: PoolOp) -> Pool {
        match op {
            PoolOp::Reserve { cost } => self.reserve(cost),
            PoolOp::Expire { key } => self.expire(key),
        }
    }

    /// The pool after the operations `ops`, in their order.
    pub open spec fn apply_all(self, ops: Seq<PoolOp>) -> Pool
        decreases ops.len(),
    {
        if ops.len() == 0 {
            self
        } else {
            self.apply_all(ops.drop_last()).apply(ops.last())
        }
    }

    /// The pool after a reset.
    pub open spec fn reset(self) -> Pool {
        Pool { quotas: Seq::new(self.keys.len(), |i: int| DEFAULT_QUOTA as nat), ..self }
    }

    /// Remaining budget by position.
    pub open spec fn status(self) -> Map<usize, usize> {
        Map::new(|i: usize| i < self.len(), |i: usize| self.quotas[i as int] as usize)
    }

    /// The pool that registration of `keys` yields.
    pub open spec fn fresh(keys: Seq<Seq<char>>) -> Pool {
        let distinct = first_occurrences(keys);
        Pool {
            keys: distinct,
            quotas: Seq::new(distinct.len(), |i: int| DEFAULT_QUOTA as nat),
            cursor: 0,
        }
    }
}

/// What `set_key_as_expired` found when it looked for the key.
#[derive(Clone, Copy, Debug, PartialEq, Eq, Structural)]
pub enum Expiry {
    /// The pool holds no such key; nothing changed.
    UnknownKey,
    /// The key still had its whole budget: the upstream refused a key that
    /// was never charged here, so it has probably expired for good.
    Unused,
    /// The key had been charged before.
    Used,
}

/// An operation on the model that changes budgets and is not a reset.
pub enum PoolOp {
    Reserve { cost: nat },
    Expire { key: Seq<char> },
}

/// `keys` without repetitions: each key stands where it first occurred.
pub open spec fn first_occurrences(keys: Seq<Seq<char>>) -> Seq<Seq<char>>
    decreases keys.len(),
{
    if keys.len() == 0 {
        Seq::empty()
    } else {
        let before = first_occurrences(keys.drop_last());
        if before.contains(keys.last()) {
            before
        } else {
            before.push(keys.last())
        }
    }
}

/// `first_occurrences` holds each key of its argument, and holds it once.
pub proof fn lemma_first_occurrences(keys: Seq<Seq<char>>)
    ensures
        first_occurrences(keys).no_duplicates(),
        first_occurrences(keys).len() <= keys.len(),
        forall|k: Seq<char>| first_occurrences(keys).contains(k) <==> keys.contains(k),
    decreases keys.len(),
{
    if keys.len() > 0 {
        let init = keys.drop_last();
        lemma_first_occurrences(init);
        let before = first_occurrences(init);
        assert forall|k: Seq<char>| first_occurrences(keys).contains(k) <==> keys.contains(k) by {
            if keys.contains(k) {
                let i = choose|i: int| 0 <= i < keys.len() && keys[i] == k;
                if i < keys.len() - 1 {
                    assert(init[i] == k);
                    assert(init.contains(k));
                    assert(before.contains(k));
                    let j = choose|j: int| 0 <= j < before.len() && before[j] == k;
                    assert(first_occurrences(keys)[j] == k);
                } else {
                    if before.contains(k) {
                    } else {
                        assert(before.push(k)[before.len() as int] == k);
                    }
                }
            }
            if first_occurrences(keys).contains(k) {
                let j = choose|j: int|
                    0 <= j < first_occurrences(keys).len() && first_occurrences(keys)[j] == k;
                if j < before.len() {
                    assert(before[j] == k);
                    assert(before.contains(k));
                    assert(init.contains(k));
                    let i = choose|i: int| 0 <= i < init.len() && init[i] == k;
                    assert(keys[i] == k);
                } else {
                    assert(keys[keys.len() - 1] == k);
                }
            }
        }
    }
}

/// A key pool: the keys in registration order, the remaining budget of
/// each, and the rotation cursor.
pub struct KeyManager {
    keys: Vec<String>,
    quotas: Vec<usize>,
    last_used: usize,
}

impl View for KeyManager {
    type V = Pool;

    closed spec fn view(&self) -> Pool {
        Pool {
            keys: Seq::new(self.keys.len() as nat, |i: int| self.keys[i]@),
            quotas: Seq::new(self.quotas.len() as nat, |i: int| self.quotas[i] as nat),
            cursor: self.last_used as nat,
        }
    }
}

impl KeyManager {
    /// Every key manager is a well-formed pool.
    #[verifier::type_invariant]
    pub open spec fn wf(&self) -> bool {
        self@.wf()
    }

    /// Whether `keys` holds `key`.
    fn holds(keys: &Vec<String>, key: &String) -> (found: bool)
        ensures
            found <==> exists|i: int| 0 <= i < keys.len() && keys[i]@ == key@,
    {
        let mut i: usize = 0;
        while i < keys.len()
            invariant
                i <= keys.len(),
                forall|j: int| 0 <= j < i ==> keys[j]@ != key@,
            decreases keys.len() - i,
        {
            if keys[i] == *key {
                return true;
            }
            i += 1;
        }
        false
    }

    /// Registers `keys` in the given order, each with the default budget.
    /// A key that occurs again further on is registered once.
    pub fn new(keys: Vec<String>) -> (pool: KeyManager)
        ensures
            pool.wf(),
            pool@ == Pool::fresh(keys.deep_view()),
    {
        let mut distinct: Vec<String> = Vec::new();
        let mut quotas: Vec<usize> = Vec::new();
        let mut i: usize = 0;
        while i < keys.len()
            invariant
                i <= keys.len(),
                quotas.len() == distinct.len(),
                forall|j: int| 0 <= j < quotas.len() ==> quotas[j] == DEFAULT_QUOTA,
                Seq::new(distinct.len() as nat, |j: int| distinct[j]@) == first_occurrences(
                    keys.deep_view().take(i as int),
                ),
            decreases keys.len() - i,
        {
            let ghost done = keys.deep_view().take(i as int);
            let ghost next = keys.deep_view().take(i + 1);
            let ghost model = Seq::new(distinct.len() as nat, |j: int| distinct[j]@);
            proof {
                assert(next.drop_last() == done);
                assert(next.last() == keys[i as int]@);
                assert(model.contains(keys[i as int]@) <==> exists|j: int|
                    0 <= j < distinct.len() && distinct[j]@ == keys[i as int]@) by {
                    if model.contains(keys[i as int]@) {
                        let j = choose|j: int| 0 <= j < model.len() && model[j] == keys[i as int]@;
                        assert(distinct[j]@ == keys[i as int]@);
                    }
                    if exists|j: int| 0 <= j < distinct.len() && distinct[j]@ == keys[i as int]@ {
                        let j = choose|j: int|
                            0 <= j < distinct.len() && distinct[j]@ == keys[i as int]@;
                        assert(model[j] == keys[i as int]@);
                    }
                }
            }
            if !Self::holds(&distinct, &keys[i]) {
                distinct.push(keys[i].clone());
                quotas.push(DEFAULT_QUOTA);
                assert(Seq::new(distinct.len() as nat, |j: int| distinct[j]@) == model.push(
                    keys[i as int]@,
                ));
            }
            i += 1;
        }
        proof {
            assert(keys.deep_view().take(keys.len() as int) == keys.deep_view());
            lemma_first_occurrences(keys.deep_view());
        }
        let pool = KeyManager { keys: distinct, quotas, last_used: 0 };
        assert(pool@.quotas == Pool::fresh(keys.deep_view()).quotas);
        pool
    }

    /// The budgets `quotas` with the one at `position` replaced by `quota`.
    fn with_quota(quotas: &Vec<usize>, position: usize, quota: usize) -> (updated: Vec<usize>)
        requires
            position < quotas.len(),
        ensures
            updated@ == quotas@.update(position as int, quota),
    {
        let mut updated = quotas.clone();
        updated.set(position, quota);
        updated
    }

    /// Moves the cursor behind position `idx`.
    fn set_last_used(&mut self, idx: usize)
        requires
            idx < old(self)@.len(),
        ensures
            final(self).wf(),
            final(self)@ == (Pool { cursor: old(self)@.successor(idx as int), ..old(self)@ }),
    {
        proof {
            use_type_invariant(&*self);
        }
        let next = idx + 1;
        self.last_used = if next >= self.keys.len() {
            0
        } else {
            next
        };
    }

    /// Gives every key its default budget again. The cursor stays.
    pub fn reset_keys(&mut self)
        ensures
            final(self).wf(),
            final(self)@ == old(self)@.reset(),
    {
        proof {
            use_type_invariant(&*self);
        }
        let ghost before = self@;
        let mut quotas: Vec<usize> = Vec::new();
        while quotas.len() < self.keys.len()
            invariant
                quotas.len() <= self.keys.len(),
                forall|j: int| 0 <= j < quotas.len() ==> quotas[j] == DEFAULT_QUOTA,
            decreases self.keys.len() - quotas.len(),
        {
            quotas.push(DEFAULT_QUOTA);
        }
        self.quotas = quotas;
        assert(self@.keys =~= before.keys);
        assert(self@.quotas =~= before.reset().quotas);
    }

    /// Reserves `cost` units: looks from the cursor on, once around, for the
    /// first key whose budget covers `cost`, charges it and moves the cursor
    /// behind it. `None` when no key can pay; the pool is then unchanged.
    pub fn get_key(&mut self, cost: usize) -> (key: Option<String>)
        ensures
            final(self).wf(),
            final(self)@ == old(self)@.reserve(cost as nat),
            match key {
                Some(k) => old(self)@.selection(cost as nat) matches Some(i) && old(self)@.selects(
                    i,
                    cost as nat,
                ) && k@ == old(self)@.keys[i],
                None => old(self)@.selection(cost as nat) is None && final(self)@ == old(self)@,
            },
            key is None <==> forall|i: int|
                0 <= i < old(self)@.len() ==> old(self)@.quotas[i] < cost,
    {
        proof {
            use_type_invariant(&*self);
        }
        let ghost before = self@;
        let n = self.keys.len();
        if n == 0 {
            proof {
                lemma_selection(before, cost as nat);
            }
            return None;
        }
        let last_key_used = self.last_used;
        let mut i = self.last_used;
        loop
            invariant
                before == old(self)@,
                self@ == before,
                self.wf(),
                n == self.keys.len(),
                n > 0,
                i < n,
                last_key_used == before.cursor,
                forall|j: int|
                    0 <= j < n && before.rank(j) < before.rank(i as int) ==> before.quotas[j]
                        < cost,
            decreases n - before.rank(i as int),
        {
            let quota = self.quotas[i];
            assert(before.quotas[i as int] == quota);
            if quota >= cost {
                let key = self.keys[i].clone();
                assert(key@ == before.keys[i as int]);
                let updated = Self::with_quota(&self.quotas, i, quota - cost);
                proof {
                    let charged = Pool {
                        keys: before.keys,
                        quotas: Seq::new(updated.len() as nat, |j: int| updated[j] as nat),
                        cursor: before.cursor,
                    };
                    assert(charged.quotas =~= before.quotas.update(
                        i as int,
                        (quota - cost) as nat,
                    ));
                    assert(charged.wf());
                }
                self.quotas = updated;
                self.set_last_used(i);
                proof {
                    assert(before.selects(i as int, cost as nat));
                    lemma_selection(before, cost as nat);
                    lemma_selects_one(
                        before,
                        cost as nat,
                        i as int,
                        before.selection(cost as nat)->0,
                    );
                }
                return Some(key);
            } else {
                let ghost seen = i as int;
                i += 1;
                if i >= n {
                    i = 0;
                }
                if i == last_key_used {
                    proof {
                        assert forall|j: int| 0 <= j < n implies before.quotas[j] < cost by {
                            assert(before.rank(j) < before.rank(seen) || j == seen);
                        }
                        lemma_selection(before, cost as nat);
                    }
                    return None;
                }
                assert forall|j: int|
                    0 <= j < n && before.rank(j) < before.rank(i as int) implies before.quotas[j]
                    < cost by {
                    assert(before.rank(j) < before.rank(seen) || j == seen);
                }
            }
        }
    }

    /// Marks `key` as exhausted: its budget becomes 0, whatever it was. A
    /// key that the pool does not hold changes nothing.
    pub fn set_key_as_expired(&mut self, key: String) -> (found: Expiry)
        ensures
            final(self).wf(),
            final(self)@ == old(self)@.expire(key@),
            found == old(self)@.expiry(key@),
    {
        proof {
            use_type_invariant(&*self);
        }
        let ghost before = self@;
        let mut i: usize = 0;
        while i < self.keys.len()
            invariant
                before == old(self)@,
                self@ == before,
                self.wf(),
                i <= self.keys.len(),
                forall|j: int| 0 <= j < i ==> before.keys[j] != key@,
            decreases self.keys.len() - i,
        {
            if self.keys[i] == key {
                let quota = self.quotas[i];
                assert(before.quotas[i as int] == quota);
                let updated = Self::with_quota(&self.quotas, i, 0);
                proof {
                    assert(before.keys[i as int] == key@);
                    assert(before.keys.contains(key@));
                    assert(before.keys.index_of(key@) == i);
                    let expired = Pool {
                        keys: before.keys,
                        quotas: Seq::new(updated.len() as nat, |j: int| updated[j] as nat),
                        cursor: before.cursor,
                    };
                    assert(expired.quotas =~= before.quotas.update(i as int, 0));
                    assert(expired.wf());
                }
                self.quotas = updated;
                if quota == DEFAULT_QUOTA {
                    return Expiry::Unused;
                }
                return Expiry::Used;
            }
            i += 1;
        }
        assert(!before.keys.contains(key@));
        Expiry::UnknownKey
    }

    /// The remaining budget of every key, by its position in the pool.
    pub fn get_status(&self) -> (status: BTreeMap<usize, usize>)
        ensures
            self.wf(),
            status@ == self@.status(),
    {
        proof {
            use_type_invariant(self);
        }
        let mut status: BTreeMap<usize, usize> = BTreeMap::new();
        let mut i: usize = 0;
        while i < self.quotas.len()
            invariant
                self.wf(),
                i <= self.quotas.len(),
                status@ == Map::new(|j: usize| j < i, |j: usize| self.quotas[j as int]),
            decreases self.quotas.len() - i,
        {
            status.insert(i, self.quotas[i]);
            assert(status@ == Map::new(|j: usize| j < i + 1, |j: usize| self.quotas[j as int]));
            i += 1;
        }
        assert(status@ == self@.status());
        status
    }
}

/// With a well-formed pool, a reservation takes at most one position.
pub proof fn lemma_selects_one(pool: Pool, cost: nat, i: int, j: int)
    requires
        pool.wf(),
        pool.selects(i, cost),
        pool.selects(j, cost),
    ensures
        i == j,
{
    assert(pool.eligible(i, cost));
    assert(pool.eligible(j, cost));
}

/// The first position from `i` on, in the rotation, that can pay.
proof fn lemma_first_eligible(pool: Pool, cost: nat, i: int) -> (first: int)
    requires
        pool.wf(),
        0 <= i < pool.len(),
        forall|j: int| 0 <= j < pool.len() && pool.rank(j) < pool.rank(i) ==> !pool.eligible(j, cost),
        exists|j: int| pool.eligible(j, cost),
    ensures
        pool.selects(first, cost),
    decreases pool.len() - pool.rank(i),
{
    if pool.eligible(i, cost) {
        i
    } else {
        let next = pool.successor(i) as int;
        if next == pool.cursor {
            let j = choose|j: int| pool.eligible(j, cost);
            assert(pool.rank(j) < pool.rank(i) || j == i);
            assert(false);
            i
        } else {
            lemma_first_eligible(pool, cost, next)
        }
    }
}

/// A reservation takes a position exactly when some key can pay, and the
/// position it takes is the one that `selects` describes.
pub proof fn lemma_selection(pool: Pool, cost: nat)
    requires
        pool.wf(),
    ensures
        pool.selection(cost) is None <==> forall|i: int| 0 <= i < pool.len() ==> pool.quotas[i] < cost,
        pool.selection(cost) matches Some(i) ==> pool.selects(i, cost),
{
    if exists|j: int| pool.eligible(j, cost) {
        let first = lemma_first_eligible(pool, cost, pool.cursor as int);
        assert(pool.selects(first, cost));
        assert(pool.quotas[first] >= cost);
    } else {
        assert forall|i: int| 0 <= i < pool.len() implies pool.quotas[i] < cost by {
            assert(!pool.eligible(i, cost));
        }
    }
    if pool.selection(cost) is Some {
        let i = pool.selection(cost)->0;
        assert(pool.selects(i, cost));
        assert(pool.eligible(i, cost));
    }
}

/// A reservation keeps the pool well-formed and its keys, and raises no
/// budget.
pub proof fn lemma_reserve(pool: Pool, cost: nat)
    requires
        pool.wf(),
    ensures
        pool.reserve(cost).wf(),
        pool.reserve(cost).keys == pool.keys,
        forall|i: int|
            0 <= i < pool.len() ==> #[trigger] pool.reserve(cost).quotas[i] <= pool.quotas[i],
{
    lemma_selection(pool, cost);
}

/// Marking a key as exhausted keeps the pool well-formed and its keys, and
/// raises no budget.
pub proof fn lemma_expire(pool: Pool, key: Seq<char>)
    requires
        pool.wf(),
    ensures
        pool.expire(key).wf(),
        pool.expire(key).keys == pool.keys,
        pool.expire(key).cursor == pool.cursor,
        forall|i: int|
            0 <= i < pool.len() ==> #[trigger] pool.expire(key).quotas[i] <= pool.quotas[i],
        pool.keys.contains(key) ==> pool.expire(key).quotas[pool.keys.index_of(key)] == 0,
{
}

/// A reset keeps the keys and the cursor and gives every key the default
/// budget.
pub proof fn law_reset_restores(pool: Pool)
    requires
        pool.wf(),
    ensures
        pool.reset().wf(),
        pool.reset().keys == pool.keys,
        pool.reset().cursor == pool.cursor,
        forall|i: int| 0 <= i < pool.len() ==> #[trigger] pool.reset().quotas[i] == DEFAULT_QUOTA,
{
}

/// Where no key can pay `cost`, a reservation changes nothing.
pub proof fn law_no_eligible_key_no_change(pool: Pool, cost: nat)
    requires
        pool.wf(),
        forall|i: int| 0 <= i < pool.len() ==> pool.quotas[i] < cost,
    ensures
        pool.selection(cost) is None,
        pool.reserve(cost) == pool,
{
    lemma_selection(pool, cost);
}

/// Where the key under the cursor can pay, it is the one taken.
proof fn lemma_cursor_first(pool: Pool, cost: nat)
    requires
        pool.wf(),
        pool.eligible(pool.cursor as int, cost),
    ensures
        pool.selection(cost) == Some(pool.cursor as int),
{
    assert(pool.selects(pool.cursor as int, cost));
    lemma_selection(pool, cost);
    lemma_selects_one(pool, cost, pool.cursor as int, pool.selection(cost)->0);
}

/// The pool after `count` reservations when every key started with `budget`:
/// the keys of the first `count` ranks have paid once, the cursor stands
/// `count` steps on.
proof fn lemma_rotation_state(pool: Pool, budget: nat, cost: nat, count: nat)
    requires
        pool.wf(),
        forall|i: int| 0 <= i < pool.len() ==> pool.quotas[i] == budget,
        cost <= budget,
        count <= pool.len(),
    ensures
        pool.reserve_times(cost, count).wf(),
        pool.reserve_times(cost, count).keys == pool.keys,
        pool.reserve_times(cost, count).cursor == pool.at_rank(count),
        forall|i: int|
            0 <= i < pool.len() ==> #[trigger] pool.reserve_times(cost, count).quotas[i] == if pool.rank(
                i,
            ) < count {
                budget - cost
            } else {
                budget as int
            },
    decreases count,
{
    if count > 0 {
        let before = pool.reserve_times(cost, (count - 1) as nat);
        lemma_rotation_state(pool, budget, cost, (count - 1) as nat);
        let at = pool.at_rank((count - 1) as nat);
        assert(pool.rank(at) == count - 1);
        assert(before.quotas[at] == budget);
        lemma_cursor_first(before, cost);
        lemma_reserve(before, cost);
        assert(pool.reserve_times(cost, count) == before.charge(at, cost));
        assert forall|i: int| 0 <= i < pool.len() implies #[trigger] pool.reserve_times(
            cost,
            count,
        ).quotas[i] == if pool.rank(i) < count {
            budget - cost
        } else {
            budget as int
        } by {
            assert(before.quotas[i] == if pool.rank(i) < count - 1 {
                budget - cost
            } else {
                budget as int
            });
            if i != at {
                assert(pool.rank(i) != count - 1);
            }
        }
    }
}

/// Rotation: in a pool of `n` keys that each hold `budget`, the first `n`
/// reservations of a `cost` that `budget` covers take the keys one after
/// the other in pool order, starting at the cursor: reservation number
/// `turn` (counted from 0) takes the key `turn` steps after the cursor. So
/// each key is taken exactly once.
pub proof fn law_rotation_visits_each_key_once(pool: Pool, budget: nat, cost: nat, turn: nat)
    requires
        pool.wf(),
        forall|i: int| 0 <= i < pool.len() ==> pool.quotas[i] == budget,
        cost <= budget,
        turn < pool.len(),
    ensures
        pool.reserve_times(cost, turn).selection(cost) == Some(pool.at_rank(turn)),
        0 <= pool.at_rank(turn) < pool.len(),
        pool.rank(pool.at_rank(turn)) == turn,
        forall|other: nat|
            other < pool.len() && other != turn ==> pool.at_rank(other) != pool.at_rank(turn),
{
    lemma_rotation_state(pool, budget, cost, turn);
    let before = pool.reserve_times(cost, turn);
    assert(pool.rank(pool.at_rank(turn)) == turn);
    assert(before.quotas[pool.at_rank(turn)] == budget);
    lemma_cursor_first(before, cost);
}

/// Rotation wraps: after those `n` reservations the next one takes the key
/// that the first reservation took, the one under the cursor of the pool
/// as it began, provided that `budget` covers `cost` twice.
pub proof fn law_rotation_wraps(pool: Pool, budget: nat, cost: nat)
    requires
        pool.wf(),
        pool.len() > 0,
        forall|i: int| 0 <= i < pool.len() ==> pool.quotas[i] == budget,
        2 * cost <= budget,
    ensures
        pool.reserve_times(cost, pool.len()).selection(cost) == Some(pool.cursor as int),
        pool.reserve_times(cost, pool.len()).selection(cost) == pool.selection(cost),
{
    lemma_rotation_state(pool, budget, cost, pool.len());
    let after = pool.reserve_times(cost, pool.len());
    assert(pool.rank(pool.cursor as int) == 0);
    assert(after.quotas[pool.cursor as int] == budget - cost);
    lemma_cursor_first(after, cost);
    lemma_cursor_first(pool, cost);
}

/// An exhausted key stays out: once `key` has been marked as exhausted,
/// whatever reservations of positive cost and whatever further markings
/// follow, the key's budget is 0 and no reservation of positive cost takes
/// it. Only a reset ends that.
pub proof fn law_expired_key_is_never_selected(
    pool: Pool,
    key: Seq<char>,
    ops: Seq<PoolOp>,
    cost: nat,
)
    requires
        pool.wf(),
        pool.keys.contains(key),
        forall|k: int|
            0 <= k < ops.len() ==> (#[trigger] ops[k] matches PoolOp::Reserve { cost } ==> cost > 0),
        cost > 0,
    ensures
        pool.expire(key).apply_all(ops).wf(),
        pool.expire(key).apply_all(ops).keys == pool.keys,
        pool.expire(key).apply_all(ops).quotas[pool.keys.index_of(key)] == 0,
        pool.expire(key).apply_all(ops).selection(cost) != Some(pool.keys.index_of(key)),
    decreases ops.len(),
{
    lemma_expire(pool, key);
    if ops.len() > 0 {
        let init = ops.drop_last();
        assert forall|k: int| 0 <= k < init.len() implies (#[trigger] init[k] matches PoolOp::Reserve {
            cost,
        } ==> cost > 0) by {
            assert(init[k] == ops[k]);
        }
        law_expired_key_is_never_selected(pool, key, init, cost);
        let before = pool.expire(key).apply_all(init);
        match ops.last() {
            PoolOp::Reserve { cost: paid } => {
                lemma_reserve(before, paid);
            },
            PoolOp::Expire { key: other } => {
                lemma_expire(before, other);
            },
        }
    }
    let after = pool.expire(key).apply_all(ops);
    lemma_selection(after, cost);
}

} // verus!
