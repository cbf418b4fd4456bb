//! The ledger's global laws, stated once as proof functions. The
//! per-operation guarantees (atomicity, overflow and underflow safety, the
//! error conditions) are stated directly in the `ensures` of the operations
//! themselves.

use vstd::prelude::*;

use crate::ledger::Contract;
use crate::store::{key_at, lemma_balance_le_sum, seq_index_of, sum_balances};

verus! {

/// Conservation: in a well-formed ledger the stored balances sum to exactly
/// the total supply. Every operation requires and re-establishes `wf`, so
/// this holds after any sequence of successful operations.
pub proof fn lemma_conservation(c: Contract)
    requires
        c.wf(),
    ensures
        sum_balances(c.accounts@) == c.total_supply,
{
}

/// No zero entries: an account is present in the store exactly when its
/// balance is nonzero, so absence and a zero balance are the same thing.
pub proof fn lemma_absence_iff_zero(c: Contract, id: Seq<char>)
    requires
        c.wf_accounts(),
    ensures
        c.has_account(id) <==> c.spec_balance_of(id) != 0,
{
    if c.has_account(id) {
        let i = seq_index_of(c.accounts@, id);
        assert(0 <= i < c.accounts@.len() && key_at(c.accounts@, i) == id);
        assert(c.accounts@[i].balance > 0);
    }
}

/// A consequence of conservation: no single balance can exceed the total
/// supply.
pub proof fn lemma_balance_le_total(c: Contract, id: Seq<char>)
    requires
        c.wf(),
    ensures
        c.spec_balance_of(id) <= c.total_supply,
{
    lemma_balance_le_sum(c.accounts@, id);
}

} // verus!
