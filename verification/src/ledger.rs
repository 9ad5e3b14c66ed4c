use vstd::prelude::*;

verus! {

/// The balance ledger: a mapping from participant identity (an opaque
/// string, compared by exact match) to an unsigned 64-bit balance, kept as
/// an association vector whose keys are pairwise distinct. An identity that
/// never deposited has balance 0. Entries are created on first deposit and
/// never removed; a balance is never negative.
pub struct Ledger {
    pub entries: Vec<(String, u64)>,
}

/// Sum of all balances recorded in `entries`.
pub open spec fn sum_balances(entries: Seq<(String, u64)>) -> int
    decreases entries.len(),
{
    if entries.len() == 0 {
        0
    } else {
        sum_balances(entries.drop_last()) + entries.last().1
    }
}

/// `post` is `pre` with the balance of `id` set to `bal` and everything
/// else untouched: every other identity keeps its presence and balance,
/// and the grand total moves by exactly the difference.
pub open spec fn ledger_updated(pre: Ledger, post: Ledger, id: Seq<char>, bal: u64) -> bool {
    &&& post.wf()
    &&& post.spec_contains(id)
    &&& post.spec_bal(id) == bal
    &&& forall|other: Seq<char>|
        other != id ==> post.spec_contains(other) == pre.spec_contains(other)
    &&& forall|other: Seq<char>| other != id ==> post.spec_bal(other) == pre.spec_bal(other)
    &&& post.spec_total() == pre.spec_total() - pre.spec_bal(id) + bal
}

impl Ledger {
    /// Well-formed: no identity is recorded twice.
    pub open spec fn wf(self) -> bool {
        forall|i: int, j: int|
            0 <= i < j < self.entries@.len() ==> self.entries@[i].0@ != self.entries@[j].0@
    }

    /// Whether `id` has an entry (has ever deposited).
    pub open spec fn spec_contains(self, id: Seq<char>) -> bool {
        exists|i: int| 0 <= i < self.entries@.len() && self.entries@[i].0@ == id
    }

    /// The balance of `id`: its recorded value, or 0 without an entry.
    pub open spec fn spec_bal(self, id: Seq<char>) -> u64 {
        if self.spec_contains(id) {
            let i = choose|i: int| 0 <= i < self.entries@.len() && self.entries@[i].0@ == id;
            self.entries@[i].1
        } else {
            0
        }
    }

    /// Sum of all recorded balances.
    pub open spec fn spec_total(self) -> int {
        sum_balances(self.entries@)
    }

    /// An empty ledger.
    pub fn new() -> (ledger: Ledger)
        ensures
            ledger.entries@ == Seq::<(String, u64)>::empty(),
            ledger.wf(),
            ledger.spec_total() == 0,
    {
        Ledger { entries: Vec::new() }
    }

    /// Index of the entry for `id`, if there is one.
    fn find_index(&self, id: &String) -> (found: Option<usize>)
        ensures
            match found {
                Some(i) => 0 <= i < self.entries@.len() && self.entries@[i as int].0@ == id@,
                None => !self.spec_contains(id@),
            },
    {
        let mut i: usize = 0;
        while i < self.entries.len()
            invariant
                i <= self.entries@.len(),
                forall|j: int| 0 <= j < i ==> self.entries@[j].0@ != id@,
            decreases self.entries@.len() - i,
        {
            let entry = &self.entries[i];
            if entry.0 == *id {
                return Some(i);
            }
            i = i + 1;
        }
        None
    }

    /// Whether `id` has an entry.
    pub fn contains(&self, id: &String) -> (present: bool)
        ensures
            present == self.spec_contains(id@),
    {
        match self.find_index(id) {
            Some(i) => {
                proof {
                    assert(self.entries@[i as int].0@ == id@);
                }
                true
            },
            None => false,
        }
    }

    /// The balance of `id`, 0 when it has no entry.
    pub fn balance_of(&self, id: &String) -> (bal: u64)
        requires
            self.wf(),
        ensures
            bal == self.spec_bal(id@),
    {
        match self.find_index(id) {
            Some(i) => {
                proof {
                    lemma_bal_at(*self, i as int, id@);
                }
                let entry = &self.entries[i];
                entry.1
            },
            None => 0,
        }
    }

    /// Set the balance of `id` to `bal`, creating the entry if it is new.
    pub fn set_balance(&mut self, id: &String, bal: u64)
        requires
            old(self).wf(),
        ensures
            ledger_updated(*old(self), *final(self), id@, bal),
    {
        let ghost pre = *self;
        let found = self.find_index(id);
        let new_entry = (id.clone(), bal);
        let ghost entry_snap = new_entry;
        match found {
            Some(i) => {
                proof {
                    lemma_bal_at(pre, i as int, id@);
                    lemma_sum_update(pre.entries@, i as int, entry_snap);
                }
                self.entries.set(i, new_entry);
                proof {
                    lemma_pointwise_keys(pre, *self, id@, i as int);
                    lemma_bal_at(*self, i as int, id@);
                }
            },
            None => {
                proof {
                    lemma_sum_push(pre.entries@, entry_snap);
                }
                self.entries.push(new_entry);
                proof {
                    let n = pre.entries@.len() as int;
                    assert(self.entries@ == pre.entries@.push(entry_snap));
                    assert(forall|j: int| 0 <= j < n ==> pre.entries@[j].0@ != id@);
                    assert(self.wf());
                    lemma_pointwise_keys(pre, *self, id@, n);
                    lemma_bal_at(*self, n, id@);
                }
            },
        }
    }

    /// A fresh ledger holding the same entries, in the same order.
    pub fn duplicate(&self) -> (copied: Ledger)
        ensures
            copied.entries@ == self.entries@,
    {
        let mut entries: Vec<(String, u64)> = Vec::new();
        let mut i: usize = 0;
        while i < self.entries.len()
            invariant
                i <= self.entries@.len(),
                entries@.len() == i,
                forall|j: int| 0 <= j < i ==> entries@[j] == self.entries@[j],
            decreases self.entries@.len() - i,
        {
            let entry = &self.entries[i];
            entries.push((entry.0.clone(), entry.1));
            i = i + 1;
        }
        proof {
            assert(entries@ =~= self.entries@);
        }
        Ledger { entries }
    }
}

/// An entry whose key matches `id` carries the balance `spec_bal` reports:
/// with pairwise-distinct keys there is only one such entry.
pub proof fn lemma_bal_at(ledger: Ledger, i: int, id: Seq<char>)
    requires
        ledger.wf(),
        0 <= i < ledger.entries@.len(),
        ledger.entries@[i].0@ == id,
    ensures
        ledger.spec_contains(id),
        ledger.spec_bal(id) == ledger.entries@[i].1,
{
    assert(ledger.spec_contains(id));
    let j = choose|j: int| 0 <= j < ledger.entries@.len() && ledger.entries@[j].0@ == id;
    if i < j {
        assert(ledger.entries@[i].0@ != ledger.entries@[j].0@);
    }
    if j < i {
        assert(ledger.entries@[j].0@ != ledger.entries@[i].0@);
    }
}

/// After overwriting (or appending at `at`) the entry for `id` while every
/// other index keeps its pair, every other identity keeps its presence and
/// its balance.
proof fn lemma_pointwise_keys(pre: Ledger, post: Ledger, id: Seq<char>, at: int)
    requires
        pre.wf(),
        post.wf(),
        0 <= at < post.entries@.len(),
        post.entries@[at].0@ == id,
        post.entries@.len() == pre.entries@.len() || post.entries@.len() == pre.entries@.len()
            + 1,
        at < pre.entries@.len() ==> pre.entries@[at].0@ == id,
        forall|j: int|
            0 <= j < pre.entries@.len() && j != at ==> post.entries@[j] == pre.entries@[j],
        post.entries@.len() == pre.entries@.len() + 1 ==> at == pre.entries@.len(),
    ensures
        forall|other: Seq<char>|
            other != id ==> post.spec_contains(other) == pre.spec_contains(other),
        forall|other: Seq<char>| other != id ==> post.spec_bal(other) == pre.spec_bal(other),
{
    assert forall|other: Seq<char>| other != id implies post.spec_contains(other)
        == pre.spec_contains(other) by {
        if post.spec_contains(other) {
            let k = choose|k: int|
                0 <= k < post.entries@.len() && post.entries@[k].0@ == other;
            assert(k != at);
            assert(pre.entries@[k].0@ == other);
            assert(pre.spec_contains(other));
        }
        if pre.spec_contains(other) {
            let k = choose|k: int| 0 <= k < pre.entries@.len() && pre.entries@[k].0@ == other;
            assert(k != at);
            assert(post.entries@[k].0@ == other);
            assert(post.spec_contains(other));
        }
    }
    assert forall|other: Seq<char>| other != id implies post.spec_bal(other) == pre.spec_bal(
        other,
    ) by {
        if post.spec_contains(other) {
            let k = choose|k: int|
                0 <= k < post.entries@.len() && post.entries@[k].0@ == other;
            assert(k != at);
            lemma_bal_at(post, k, other);
            lemma_bal_at(pre, k, other);
        }
    }
}

/// Replacing the entry at `i` moves the sum by the difference of the two
/// balances.
proof fn lemma_sum_update(entries: Seq<(String, u64)>, i: int, entry: (String, u64))
    requires
        0 <= i < entries.len(),
    ensures
        sum_balances(entries.update(i, entry)) == sum_balances(entries) - entries[i].1
            + entry.1,
    decreases entries.len(),
{
    let updated = entries.update(i, entry);
    if i == entries.len() - 1 {
        assert(updated.drop_last() =~= entries.drop_last());
    } else {
        lemma_sum_update(entries.drop_last(), i, entry);
        assert(updated.drop_last() =~= entries.drop_last().update(i, entry));
        assert(updated.last() == entries.last());
    }
}

/// Appending an entry adds its balance to the sum.
proof fn lemma_sum_push(entries: Seq<(String, u64)>, entry: (String, u64))
    ensures
        sum_balances(entries.push(entry)) == sum_balances(entries) + entry.1,
{
    assert(entries.push(entry).drop_last() =~= entries);
    assert(entries.push(entry).last() == entry);
}

} // verus!
