use vstd::prelude::*;

verus! {

/// One account's row: its identifier, its visible balance, and the portion of
/// that balance currently locked for an in-flight inbound transfer.
pub struct AccountEntry {
    pub id: String,
    pub unlocked: u128,
    pub locked: u128,
}

/// Durable mapping from account identifier to balances. Pure storage, no
/// policy: any identifier is accepted, and an account never written reads as
/// zero.
pub struct BalanceStore {
    pub entries: Vec<AccountEntry>,
}

/// No two rows carry the same identifier.
pub open spec fn distinct_ids(s: Seq<AccountEntry>) -> bool {
    forall|i: int, j: int| 0 <= i < j < s.len() ==> s[i].id@ != s[j].id@
}

/// The visible balance recorded for account `a`; zero if no row carries `a`.
pub open spec fn unlocked_of(s: Seq<AccountEntry>, a: Seq<char>) -> u128
    decreases s.len(),
{
    if s.len() == 0 {
        0
    } else if s.last().id@ == a {
        s.last().unlocked
    } else {
        unlocked_of(s.drop_last(), a)
    }
}

/// The locked balance recorded for account `a`; zero if no row carries `a`.
pub open spec fn locked_of(s: Seq<AccountEntry>, a: Seq<char>) -> u128
    decreases s.len(),
{
    if s.len() == 0 {
        0
    } else if s.last().id@ == a {
        s.last().locked
    } else {
        locked_of(s.drop_last(), a)
    }
}

/// The sum of all visible balances in the store.
pub open spec fn sum_unlocked(s: Seq<AccountEntry>) -> int
    decreases s.len(),
{
    if s.len() == 0 {
        0
    } else {
        sum_unlocked(s.drop_last()) + s.last().unlocked
    }
}

impl View for BalanceStore {
    type V = Seq<AccountEntry>;

    open spec fn view(&self) -> Seq<AccountEntry> {
        self.entries@
    }
}

pub proof fn lemma_sum_nonneg(s: Seq<AccountEntry>)
    ensures
        sum_unlocked(s) >= 0,
    decreases s.len(),
{
    if s.len() > 0 {
        lemma_sum_nonneg(s.drop_last());
    }
}

/// A row's value is part of the sum, and the rest of the sum is nonnegative.
pub proof fn lemma_lookup_le_sum(s: Seq<AccountEntry>, a: Seq<char>)
    ensures
        unlocked_of(s, a) <= sum_unlocked(s),
    decreases s.len(),
{
    if s.len() > 0 {
        if s.last().id@ == a {
            lemma_sum_nonneg(s.drop_last());
        } else {
            lemma_lookup_le_sum(s.drop_last(), a);
        }
    }
}

/// Two different accounts' balances fit in the sum together.
pub proof fn lemma_pair_le_sum(s: Seq<AccountEntry>, a: Seq<char>, b: Seq<char>)
    requires
        a != b,
    ensures
        unlocked_of(s, a) + unlocked_of(s, b) <= sum_unlocked(s),
    decreases s.len(),
{
    if s.len() > 0 {
        if s.last().id@ == a {
            lemma_lookup_le_sum(s.drop_last(), b);
        } else if s.last().id@ == b {
            lemma_lookup_le_sum(s.drop_last(), a);
        } else {
            lemma_pair_le_sum(s.drop_last(), a, b);
        }
    }
}

/// An account with no row reads as zero.
pub proof fn lemma_lookup_absent(s: Seq<AccountEntry>, a: Seq<char>)
    requires
        forall|i: int| 0 <= i < s.len() ==> s[i].id@ != a,
    ensures
        unlocked_of(s, a) == 0,
        locked_of(s, a) == 0,
    decreases s.len(),
{
    if s.len() > 0 {
        assert(s.last() == s[s.len() - 1]);
        lemma_lookup_absent(s.drop_last(), a);
    }
}

/// With distinct identifiers, a lookup reads exactly the row that carries it.
pub proof fn lemma_lookup_found(s: Seq<AccountEntry>, j: int)
    requires
        distinct_ids(s),
        0 <= j < s.len(),
    ensures
        unlocked_of(s, s[j].id@) == s[j].unlocked,
        locked_of(s, s[j].id@) == s[j].locked,
    decreases s.len(),
{
    if j == s.len() - 1 {
        assert(s.last() == s[j]);
    } else {
        assert(s.last().id@ != s[j].id@);
        assert(s.drop_last()[j] == s[j]);
        lemma_lookup_found(s.drop_last(), j);
    }
}

/// Rewriting one row (keeping its identifier) moves that account's reading and
/// no other's.
pub proof fn lemma_lookup_update(s: Seq<AccountEntry>, j: int, e: AccountEntry, b: Seq<char>)
    requires
        distinct_ids(s),
        0 <= j < s.len(),
        e.id@ == s[j].id@,
    ensures
        unlocked_of(s.update(j, e), b) == if b == s[j].id@ {
            e.unlocked
        } else {
            unlocked_of(s, b)
        },
        locked_of(s.update(j, e), b) == if b == s[j].id@ {
            e.locked
        } else {
            locked_of(s, b)
        },
    decreases s.len(),
{
    let t = s.update(j, e);
    if j == s.len() - 1 {
        assert(t.last() == e);
        assert(t.drop_last() =~= s.drop_last());
        assert(s.last() == s[j]);
        if b != s[j].id@ {
            assert(unlocked_of(s, b) == unlocked_of(s.drop_last(), b));
        }
    } else {
        assert(t.last() == s.last());
        assert(t.drop_last() =~= s.drop_last().update(j, e));
        assert(s.drop_last()[j] == s[j]);
        assert(s.last().id@ != s[j].id@);
        lemma_lookup_update(s.drop_last(), j, e, b);
    }
}

/// Rewriting one row changes the sum by exactly the change to that row.
pub proof fn lemma_sum_update(s: Seq<AccountEntry>, j: int, e: AccountEntry)
    requires
        0 <= j < s.len(),
    ensures
        sum_unlocked(s.update(j, e)) == sum_unlocked(s) - s[j].unlocked + e.unlocked,
    decreases s.len(),
{
    let t = s.update(j, e);
    if j == s.len() - 1 {
        assert(t.last() == e);
        assert(t.drop_last() =~= s.drop_last());
        assert(s.last() == s[j]);
    } else {
        assert(t.last() == s.last());
        assert(t.drop_last() =~= s.drop_last().update(j, e));
        assert(s.drop_last()[j] == s[j]);
        lemma_sum_update(s.drop_last(), j, e);
    }
}

/// Appending a row adds its balance to the sum and leaves other readings
/// alone.
pub proof fn lemma_append_row(s: Seq<AccountEntry>, e: AccountEntry, b: Seq<char>)
    ensures
        sum_unlocked(s.push(e)) == sum_unlocked(s) + e.unlocked,
        unlocked_of(s.push(e), b) == if b == e.id@ {
            e.unlocked
        } else {
            unlocked_of(s, b)
        },
        locked_of(s.push(e), b) == if b == e.id@ {
            e.locked
        } else {
            locked_of(s, b)
        },
{
    let t = s.push(e);
    assert(t.last() == e);
    assert(t.drop_last() =~= s);
}

impl BalanceStore {
    /// The store's one structural invariant: one row per account.
    pub open spec fn wf(self) -> bool {
        distinct_ids(self@)
    }

    /// An empty store: every account reads as zero.
    pub fn new() -> (s: BalanceStore)
        ensures
            s.wf(),
            s@.len() == 0,
            forall|a: Seq<char>| unlocked_of(s@, a) == 0 && locked_of(s@, a) == 0,
    {
        let s = BalanceStore { entries: Vec::new() };
        proof {
            assert forall|a: Seq<char>| unlocked_of(s@, a) == 0 && locked_of(s@, a) == 0 by {
                lemma_lookup_absent(s@, a);
            }
        }
        s
    }

    /// The index of the row carrying `account`, if one exists.
    fn find_index(&self, account: &String) -> (r: Option<usize>)
        ensures
            match r {
                Some(j) => j < self@.len() && self@[j as int].id@ == account@,
                None => forall|i: int| 0 <= i < self@.len() ==> self@[i].id@ != account@,
            },
    {
        let n = self.entries.len();
        let mut i: usize = 0;
        while i < n
            invariant
                n == self@.len(),
                i <= n,
                forall|k: int| 0 <= k < i ==> self@[k].id@ != account@,
            decreases n - i,
        {
            if self.entries[i].id == *account {
                return Some(i);
            }
            i = i + 1;
        }
        None
    }

    /// The visible balance of `account`; zero for an account never written.
    pub fn get(&self, account: &String) -> (r: u128)
        requires
            self.wf(),
        ensures
            r == unlocked_of(self@, account@),
    {
        match self.find_index(account) {
            Some(j) => {
                proof {
                    lemma_lookup_found(self@, j as int);
                }
                self.entries[j].unlocked
            },
            None => {
                proof {
                    lemma_lookup_absent(self@, account@);
                }
                0
            },
        }
    }

    /// The locked balance of `account`; zero for an account never written.
    pub fn get_locked(&self, account: &String) -> (r: u128)
        requires
            self.wf(),
        ensures
            r == locked_of(self@, account@),
    {
        match self.find_index(account) {
            Some(j) => {
                proof {
                    lemma_lookup_found(self@, j as int);
                }
                self.entries[j].locked
            },
            None => {
                proof {
                    lemma_lookup_absent(self@, account@);
                }
                0
            },
        }
    }

    /// Record `v` as the visible balance of `account`. No other account's
    /// reading moves, and the sum moves by exactly the rewrite.
    pub fn set(&mut self, account: &String, v: u128)
        requires
            old(self).wf(),
        ensures
            final(self).wf(),
            forall|b: Seq<char>| #[trigger] unlocked_of(final(self)@, b) == if b == account@ {
                v
            } else {
                unlocked_of(old(self)@, b)
            },
            forall|b: Seq<char>| #[trigger] locked_of(final(self)@, b) == locked_of(old(self)@, b),
            sum_unlocked(final(self)@) == sum_unlocked(old(self)@) + v - unlocked_of(
                old(self)@,
                account@,
            ),
    {
        let ghost s0 = self@;
        match self.find_index(account) {
            Some(j) => {
                let e = AccountEntry {
                    id: account.clone(),
                    unlocked: v,
                    locked: self.entries[j].locked,
                };
                let ghost ge = e;
                self.entries[j] = e;
                proof {
                    assert forall|b: Seq<char>|
                        #[trigger] unlocked_of(self@, b) == (if b == account@ {
                            v
                        } else {
                            unlocked_of(s0, b)
                        }) by {
                        lemma_lookup_update(s0, j as int, ge, b);
                    }
                    assert forall|b: Seq<char>| #[trigger] locked_of(self@, b) == locked_of(
                        s0,
                        b,
                    ) by {
                        lemma_lookup_found(s0, j as int);
                        lemma_lookup_update(s0, j as int, ge, b);
                    }
                    lemma_sum_update(s0, j as int, ge);
                    lemma_lookup_found(s0, j as int);
                }
            },
            None => {
                let e = AccountEntry { id: account.clone(), unlocked: v, locked: 0 };
                let ghost ge = e;
                self.entries.push(e);
                proof {
                    assert forall|b: Seq<char>|
                        #[trigger] unlocked_of(self@, b) == (if b == account@ {
                            v
                        } else {
                            unlocked_of(s0, b)
                        }) by {
                        lemma_append_row(s0, ge, b);
                    }
                    assert forall|b: Seq<char>| #[trigger] locked_of(self@, b) == locked_of(
                        s0,
                        b,
                    ) by {
                        lemma_append_row(s0, ge, b);
                        if b == account@ {
                            lemma_lookup_absent(s0, b);
                        }
                    }
                    lemma_append_row(s0, ge, account@);
                    lemma_lookup_absent(s0, account@);
                }
            },
        }
    }

    /// Record `v` as the locked balance of `account`. No visible balance
    /// moves, so the sum does not either.
    pub fn set_locked(&mut self, account: &String, v: u128)
        requires
            old(self).wf(),
        ensures
            final(self).wf(),
            forall|b: Seq<char>| #[trigger] locked_of(final(self)@, b) == if b == account@ {
                v
            } else {
                locked_of(old(self)@, b)
            },
            forall|b: Seq<char>| #[trigger] unlocked_of(final(self)@, b) == unlocked_of(
                old(self)@,
                b,
            ),
            sum_unlocked(final(self)@) == sum_unlocked(old(self)@),
    {
        let ghost s0 = self@;
        match self.find_index(account) {
            Some(j) => {
                let e = AccountEntry {
                    id: account.clone(),
                    unlocked: self.entries[j].unlocked,
                    locked: v,
                };
                let ghost ge = e;
                self.entries[j] = e;
                proof {
                    assert forall|b: Seq<char>|
                        #[trigger] locked_of(self@, b) == (if b == account@ {
                            v
                        } else {
                            locked_of(s0, b)
                        }) by {
                        lemma_lookup_update(s0, j as int, ge, b);
                    }
                    assert forall|b: Seq<char>| #[trigger] unlocked_of(self@, b) == unlocked_of(
                        s0,
                        b,
                    ) by {
                        lemma_lookup_found(s0, j as int);
                        lemma_lookup_update(s0, j as int, ge, b);
                    }
                    lemma_sum_update(s0, j as int, ge);
                    lemma_lookup_found(s0, j as int);
                }
            },
            None => {
                let e = AccountEntry { id: account.clone(), unlocked: 0, locked: v };
                let ghost ge = e;
                self.entries.push(e);
                proof {
                    assert forall|b: Seq<char>|
                        #[trigger] locked_of(self@, b) == (if b == account@ {
                            v
                        } else {
                            locked_of(s0, b)
                        }) by {
                        lemma_append_row(s0, ge, b);
                    }
                    assert forall|b: Seq<char>| #[trigger] unlocked_of(self@, b) == unlocked_of(
                        s0,
                        b,
                    ) by {
                        lemma_append_row(s0, ge, b);
                        if b == account@ {
                            lemma_lookup_absent(s0, b);
                        }
                    }
                    lemma_append_row(s0, ge, account@);
                }
            },
        }
    }
}

} // verus!

