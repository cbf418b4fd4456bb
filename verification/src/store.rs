//! The underlying account store: a sequence of entries with pairwise
//! distinct account identifiers and strictly positive balances, together
//! with the specification functions and lemmas the ledger operations are
//! proved against.

use vstd::prelude::*;

verus! {

/// One ledger entry: an account identifier and its stored balance.
///
/// An entry with balance zero is never stored: absence from the store and a
/// zero balance are the same thing.
pub struct AccountEntry {
    pub account_id: String,
    pub balance: u128,
}

/// The account identifier of the entry at index `i`.
pub open spec fn key_at(entries: Seq<AccountEntry>, i: int) -> Seq<char> {
    entries[i].account_id@
}

/// No account identifier occurs twice in the store.
pub open spec fn unique_ids(entries: Seq<AccountEntry>) -> bool {
    forall|i: int, j: int|
        0 <= i < entries.len() && 0 <= j < entries.len() && i != j ==> key_at(entries, i)
            != key_at(entries, j)
}

/// Every stored balance is strictly positive.
pub open spec fn all_positive(entries: Seq<AccountEntry>) -> bool {
    forall|i: int| 0 <= i < entries.len() ==> entries[i].balance > 0
}

/// Some entry carries the identifier `id`.
pub open spec fn seq_has(entries: Seq<AccountEntry>, id: Seq<char>) -> bool {
    exists|i: int| 0 <= i < entries.len() && key_at(entries, i) == id
}

/// The index of the entry carrying `id`; meaningful only when `seq_has`.
pub open spec fn seq_index_of(entries: Seq<AccountEntry>, id: Seq<char>) -> int {
    choose|i: int| 0 <= i < entries.len() && key_at(entries, i) == id
}

/// The balance stored under `id`, or zero when no entry carries `id`.
pub open spec fn seq_balance(entries: Seq<AccountEntry>, id: Seq<char>) -> u128 {
    if seq_has(entries, id) {
        entries[seq_index_of(entries, id)].balance
    } else {
        0
    }
}

/// The sum of all stored balances.
pub open spec fn sum_balances(entries: Seq<AccountEntry>) -> int
    decreases entries.len(),
{
    if entries.len() == 0 {
        0
    } else {
        sum_balances(entries.drop_last()) + entries.last().balance
    }
}

/// Under unique identifiers, an entry that carries `id` is the entry the
/// lookup functions speak about.
pub proof fn lemma_index_unique(entries: Seq<AccountEntry>, id: Seq<char>, i: int)
    requires
        unique_ids(entries),
        0 <= i < entries.len(),
        key_at(entries, i) == id,
    ensures
        seq_has(entries, id),
        seq_index_of(entries, id) == i,
        seq_balance(entries, id) == entries[i].balance,
{
    assert(seq_has(entries, id));
    let j = seq_index_of(entries, id);
    assert(0 <= j < entries.len() && key_at(entries, j) == id);
    if i != j {
        assert(key_at(entries, i) != key_at(entries, j));
    }
}

pub proof fn lemma_sum_nonneg(entries: Seq<AccountEntry>)
    ensures
        sum_balances(entries) >= 0,
    decreases entries.len(),
{
    if entries.len() > 0 {
        lemma_sum_nonneg(entries.drop_last());
    }
}

pub proof fn lemma_sum_push(entries: Seq<AccountEntry>, e: AccountEntry)
    ensures
        sum_balances(entries.push(e)) == sum_balances(entries) + e.balance,
{
    assert(entries.push(e).drop_last() =~= entries);
    assert(entries.push(e).last() == e);
}

pub proof fn lemma_sum_update(entries: Seq<AccountEntry>, i: int, e: AccountEntry)
    requires
        0 <= i < entries.len(),
    ensures
        sum_balances(entries.update(i, e)) == sum_balances(entries) - entries[i].balance
            + e.balance,
    decreases entries.len(),
{
    let s2 = entries.update(i, e);
    if i == entries.len() - 1 {
        assert(s2.drop_last() =~= entries.drop_last());
        assert(s2.last() == e);
    } else {
        assert(s2.drop_last() =~= entries.drop_last().update(i, e));
        lemma_sum_update(entries.drop_last(), i, e);
        assert(s2.last() == entries.last());
    }
}

pub proof fn lemma_sum_remove(entries: Seq<AccountEntry>, i: int)
    requires
        0 <= i < entries.len(),
    ensures
        sum_balances(entries.remove(i)) == sum_balances(entries) - entries[i].balance,
    decreases entries.len(),
{
    let s2 = entries.remove(i);
    if i == entries.len() - 1 {
        assert(s2 =~= entries.drop_last());
    } else {
        assert(s2.drop_last() =~= entries.drop_last().remove(i));
        lemma_sum_remove(entries.drop_last(), i);
        assert(s2.last() == entries.last());
    }
}

/// Every single balance is bounded by the sum of all of them.
pub proof fn lemma_entry_le_sum(entries: Seq<AccountEntry>, i: int)
    requires
        0 <= i < entries.len(),
    ensures
        entries[i].balance <= sum_balances(entries),
    decreases entries.len(),
{
    if i == entries.len() - 1 {
        lemma_sum_nonneg(entries.drop_last());
    } else {
        lemma_entry_le_sum(entries.drop_last(), i);
        assert(entries.drop_last()[i] == entries[i]);
    }
}

/// Two distinct entries together are bounded by the sum of all balances.
pub proof fn lemma_two_entries_le_sum(entries: Seq<AccountEntry>, i: int, j: int)
    requires
        0 <= i < entries.len(),
        0 <= j < entries.len(),
        i != j,
    ensures
        entries[i].balance + entries[j].balance <= sum_balances(entries),
    decreases entries.len(),
{
    if i == entries.len() - 1 {
        lemma_entry_le_sum(entries.drop_last(), j);
        assert(entries.drop_last()[j] == entries[j]);
    } else if j == entries.len() - 1 {
        lemma_entry_le_sum(entries.drop_last(), i);
        assert(entries.drop_last()[i] == entries[i]);
    } else {
        lemma_two_entries_le_sum(entries.drop_last(), i, j);
        assert(entries.drop_last()[i] == entries[i]);
        assert(entries.drop_last()[j] == entries[j]);
    }
}

/// The balance stored under any single identifier is bounded by the sum.
pub proof fn lemma_balance_le_sum(entries: Seq<AccountEntry>, id: Seq<char>)
    ensures
        seq_balance(entries, id) <= sum_balances(entries),
{
    if seq_has(entries, id) {
        let i = seq_index_of(entries, id);
        assert(0 <= i < entries.len() && key_at(entries, i) == id);
        lemma_entry_le_sum(entries, i);
    } else {
        lemma_sum_nonneg(entries);
    }
}

/// The balances stored under two different identifiers are together bounded
/// by the sum of all balances.
pub proof fn lemma_two_balances_le_sum(entries: Seq<AccountEntry>, id1: Seq<char>, id2: Seq<char>)
    requires
        id1 != id2,
    ensures
        seq_balance(entries, id1) + seq_balance(entries, id2) <= sum_balances(entries),
{
    if seq_has(entries, id1) && seq_has(entries, id2) {
        let i = seq_index_of(entries, id1);
        let j = seq_index_of(entries, id2);
        assert(0 <= i < entries.len() && key_at(entries, i) == id1);
        assert(0 <= j < entries.len() && key_at(entries, j) == id2);
        lemma_two_entries_le_sum(entries, i, j);
    } else if seq_has(entries, id1) {
        lemma_balance_le_sum(entries, id1);
    } else {
        lemma_balance_le_sum(entries, id2);
    }
}

/// Replacing the balance of the entry at `i` (keeping its identifier)
/// touches no other account.
pub proof fn lemma_update_same_key(entries: Seq<AccountEntry>, i: int, e: AccountEntry)
    requires
        unique_ids(entries),
        0 <= i < entries.len(),
        e.account_id@ == key_at(entries, i),
    ensures
        unique_ids(entries.update(i, e)),
        seq_balance(entries.update(i, e), key_at(entries, i)) == e.balance,
        seq_has(entries.update(i, e), key_at(entries, i)),
        forall|id: Seq<char>|
            id != key_at(entries, i) ==> seq_balance(entries.update(i, e), id) == seq_balance(
                entries,
                id,
            ) && seq_has(entries.update(i, e), id) == seq_has(entries, id),
{
    let s2 = entries.update(i, e);
    assert(forall|k: int| 0 <= k < entries.len() ==> key_at(s2, k) == key_at(entries, k));
    lemma_index_unique(s2, key_at(entries, i), i);
    assert forall|id: Seq<char>| id != key_at(entries, i) implies seq_balance(s2, id)
        == seq_balance(entries, id) && seq_has(s2, id) == seq_has(entries, id) by {
        if seq_has(entries, id) {
            let k = seq_index_of(entries, id);
            assert(0 <= k < entries.len() && key_at(entries, k) == id);
            assert(k != i);
            lemma_index_unique(entries, id, k);
            lemma_index_unique(s2, id, k);
            assert(s2[k] == entries[k]);
        } else {
            if seq_has(s2, id) {
                let k = seq_index_of(s2, id);
                assert(0 <= k < s2.len() && key_at(s2, k) == id);
                assert(key_at(entries, k) == id);
                assert(seq_has(entries, id));
            }
        }
    }
}

/// Appending an entry whose identifier is not yet present touches no other
/// account.
pub proof fn lemma_push_new_key(entries: Seq<AccountEntry>, e: AccountEntry)
    requires
        unique_ids(entries),
        !seq_has(entries, e.account_id@),
    ensures
        unique_ids(entries.push(e)),
        seq_has(entries.push(e), e.account_id@),
        seq_balance(entries.push(e), e.account_id@) == e.balance,
        forall|id: Seq<char>|
            id != e.account_id@ ==> seq_balance(entries.push(e), id) == seq_balance(entries, id)
                && seq_has(entries.push(e), id) == seq_has(entries, id),
{
    let s2 = entries.push(e);
    let n = entries.len() as int;
    assert(forall|k: int| 0 <= k < n ==> key_at(s2, k) == key_at(entries, k));
    assert(key_at(s2, n) == e.account_id@);
    assert forall|i: int, j: int|
        0 <= i < s2.len() && 0 <= j < s2.len() && i != j implies key_at(s2, i) != key_at(
        s2,
        j,
    ) by {
        if i < n && j < n {
            assert(key_at(entries, i) != key_at(entries, j));
        } else if i == n {
            assert(key_at(s2, j) == key_at(entries, j));
            if key_at(entries, j) == e.account_id@ {
                assert(seq_has(entries, e.account_id@));
            }
        } else {
            assert(key_at(s2, i) == key_at(entries, i));
            if key_at(entries, i) == e.account_id@ {
                assert(seq_has(entries, e.account_id@));
            }
        }
    }
    lemma_index_unique(s2, e.account_id@, n);
    assert forall|id: Seq<char>| id != e.account_id@ implies seq_balance(s2, id) == seq_balance(
        entries,
        id,
    ) && seq_has(s2, id) == seq_has(entries, id) by {
        if seq_has(entries, id) {
            let k = seq_index_of(entries, id);
            assert(0 <= k < entries.len() && key_at(entries, k) == id);
            lemma_index_unique(entries, id, k);
            lemma_index_unique(s2, id, k);
            assert(s2[k] == entries[k]);
        } else {
            if seq_has(s2, id) {
                let k = seq_index_of(s2, id);
                assert(0 <= k < s2.len() && key_at(s2, k) == id);
                assert(k != n);
                assert(key_at(entries, k) == id);
                assert(seq_has(entries, id));
            }
        }
    }
}

/// Removing the entry at `i` deletes exactly its account and touches no
/// other one.
pub proof fn lemma_remove_key(entries: Seq<AccountEntry>, i: int)
    requires
        unique_ids(entries),
        0 <= i < entries.len(),
    ensures
        unique_ids(entries.remove(i)),
        !seq_has(entries.remove(i), key_at(entries, i)),
        forall|id: Seq<char>|
            id != key_at(entries, i) ==> seq_balance(entries.remove(i), id) == seq_balance(
                entries,
                id,
            ) && seq_has(entries.remove(i), id) == seq_has(entries, id),
{
    let s2 = entries.remove(i);
    assert(forall|k: int| 0 <= k < i ==> s2[k] == entries[k]);
    assert(forall|k: int| i <= k < s2.len() ==> s2[k] == entries[k + 1]);
    assert forall|p: int, q: int|
        0 <= p < s2.len() && 0 <= q < s2.len() && p != q implies key_at(s2, p) != key_at(
        s2,
        q,
    ) by {
        let p0: int = if p < i { p } else { p + 1 };
        let q0: int = if q < i { q } else { q + 1 };
        assert(key_at(s2, p) == key_at(entries, p0));
        assert(key_at(s2, q) == key_at(entries, q0));
        assert(key_at(entries, p0) != key_at(entries, q0));
    }
    if seq_has(s2, key_at(entries, i)) {
        let k = seq_index_of(s2, key_at(entries, i));
        assert(0 <= k < s2.len() && key_at(s2, k) == key_at(entries, i));
        let k0: int = if k < i { k } else { k + 1 };
        assert(key_at(entries, k0) == key_at(entries, i));
        assert(k0 != i);
    }
    assert forall|id: Seq<char>| id != key_at(entries, i) implies seq_balance(s2, id)
        == seq_balance(entries, id) && seq_has(s2, id) == seq_has(entries, id) by {
        if seq_has(entries, id) {
            let k = seq_index_of(entries, id);
            assert(0 <= k < entries.len() && key_at(entries, k) == id);
            assert(k != i);
            let k2: int = if k < i { k } else { k - 1 };
            assert(key_at(s2, k2) == id);
            assert(s2[k2] == entries[k]);
            lemma_index_unique(entries, id, k);
            lemma_index_unique(s2, id, k2);
        } else {
            if seq_has(s2, id) {
                let k = seq_index_of(s2, id);
                assert(0 <= k < s2.len() && key_at(s2, k) == id);
                let k0: int = if k < i { k } else { k + 1 };
                assert(key_at(entries, k0) == id);
                assert(seq_has(entries, id));
            }
        }
    }
}

} // verus!
