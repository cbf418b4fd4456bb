//! The ledger: the account-balance store together with the total-supply
//! scalar and the storage-footprint measurement, and the primitive
//! operations (`deposit`, `withdraw`, balance lookup) that every other part
//! of the protocol goes through.

use vstd::prelude::*;

use crate::errors::TokenError;
use crate::store::{
    all_positive, key_at, lemma_balance_le_sum, lemma_index_unique, lemma_push_new_key,
    lemma_remove_key, lemma_sum_push, lemma_sum_remove, lemma_sum_update, lemma_update_same_key,
    seq_balance, seq_has, sum_balances, unique_ids, AccountEntry,
};

verus! {

/// The longest account identifier the ledger is sized for, in bytes.
pub const MAX_ACCOUNT_ID_LENGTH: u64 = 64;

/// The stored size of one balance, in bytes.
pub const BALANCE_BYTE_SIZE: u64 = 16;

/// The storage footprint, in bytes, of one ledger entry with a
/// maximally-sized account identifier. The ledger computes this once at
/// construction and never changes it afterwards.
pub fn measure_account_storage() -> (usage: u64)
    ensures
        usage == MAX_ACCOUNT_ID_LENGTH + BALANCE_BYTE_SIZE,
{
    MAX_ACCOUNT_ID_LENGTH + BALANCE_BYTE_SIZE
}

/// The value-transfer core: the account-balance store plus the total-supply
/// scalar, owned by `owner_id`.
pub struct Contract {
    pub accounts: Vec<AccountEntry>,
    pub owner_id: String,
    pub total_supply: u128,
    /// The storage size in bytes for one account; written once at
    /// construction, read-only afterwards.
    pub account_storage_usage: u64,
}

impl Contract {
    /// The store is well-formed: account identifiers are pairwise distinct
    /// and no entry holds a zero balance (absence means zero).
    pub open spec fn wf_accounts(self) -> bool {
        unique_ids(self.accounts@) && all_positive(self.accounts@)
    }

    /// Full well-formedness: a well-formed store whose balances sum to
    /// exactly the total supply (the conservation invariant).
    pub open spec fn wf(self) -> bool {
        self.wf_accounts() && sum_balances(self.accounts@) == self.total_supply
    }

    /// Whether an entry for `id` is present in the store.
    pub open spec fn has_account(self, id: Seq<char>) -> bool {
        seq_has(self.accounts@, id)
    }

    /// The balance of `id`; zero when the account is absent.
    pub open spec fn spec_balance_of(self, id: Seq<char>) -> u128 {
        seq_balance(self.accounts@, id)
    }

    /// The index of the entry for `account_id`, if one is present.
    pub(crate) fn find_index(&self, account_id: &String) -> (r: Option<usize>)
        ensures
            match r {
                Some(i) => i < self.accounts@.len() && key_at(self.accounts@, i as int)
                    == account_id@,
                None => !seq_has(self.accounts@, account_id@),
            },
    {
        let n = self.accounts.len();
        let mut i: usize = 0;
        while i < n
            invariant
                n == self.accounts@.len(),
                i <= n,
                forall|k: int| 0 <= k < i ==> key_at(self.accounts@, k) != account_id@,
            decreases n - i,
        {
            if self.accounts[i].account_id == *account_id {
                return Some(i);
            }
            i += 1;
        }
        None
    }

    /// The balance of `account_id`, or zero when the account is absent.
    pub fn internal_unwrap_balance_of(&self, account_id: &String) -> (balance: u128)
        requires
            self.wf_accounts(),
        ensures
            balance == self.spec_balance_of(account_id@),
    {
        match self.find_index(account_id) {
            Some(i) => {
                proof {
                    lemma_index_unique(self.accounts@, account_id@, i as int);
                }
                self.accounts[i].balance
            },
            None => 0,
        }
    }

    /// Stores `balance` as the balance of `account_id`; when `balance` is
    /// zero the entry is deleted instead, to release its storage. Every
    /// mutation of the store funnels through here, which is what keeps the
    /// no-zero-entry invariant universally true.
    ///
    /// The conservation invariant is deliberately not part of this
    /// function's contract: it changes the stored sum without touching the
    /// total supply, and its callers restore the balance between the two.
    pub fn internal_update_account(&mut self, account_id: &String, balance: u128)
        requires
            old(self).wf_accounts(),
        ensures
            final(self).wf_accounts(),
            final(self).spec_balance_of(account_id@) == balance,
            final(self).has_account(account_id@) == (balance > 0),
            forall|id: Seq<char>|
                id != account_id@ ==> final(self).spec_balance_of(id) == old(self).spec_balance_of(
                    id,
                ) && final(self).has_account(id) == old(self).has_account(id),
            sum_balances(final(self).accounts@) == sum_balances(old(self).accounts@) - old(
                self,
            ).spec_balance_of(account_id@) + balance,
            final(self).total_supply == old(self).total_supply,
            final(self).owner_id == old(self).owner_id,
            final(self).account_storage_usage == old(self).account_storage_usage,
    {
        match self.find_index(account_id) {
            Some(i) => {
                proof {
                    lemma_index_unique(self.accounts@, account_id@, i as int);
                }
                if balance == 0 {
                    proof {
                        lemma_sum_remove(self.accounts@, i as int);
                        lemma_remove_key(self.accounts@, i as int);
                    }
                    self.accounts.remove(i);
                } else {
                    proof {
                        let e = AccountEntry {
                            account_id: old(self).accounts@[i as int].account_id,
                            balance,
                        };
                        lemma_sum_update(self.accounts@, i as int, e);
                        lemma_update_same_key(self.accounts@, i as int, e);
                    }
                    self.accounts[i].balance = balance;
                }
            },
            None => {
                if balance > 0 {
                    let entry = AccountEntry { account_id: account_id.clone(), balance };
                    proof {
                        lemma_sum_push(self.accounts@, entry);
                        lemma_push_new_key(self.accounts@, entry);
                    }
                    self.accounts.push(entry);
                }
            },
        }
    }

    /// Adds `amount` to the balance of `account_id` and to the total
    /// supply, as one atomic step: on an overflow nothing changes and the
    /// operation fails with `ArithmeticOverflow`.
    ///
    /// Under conservation the total supply bounds every balance, so the
    /// total-supply check alone decides the outcome.
    pub fn internal_deposit(&mut self, account_id: &String, amount: u128) -> (r: Result<
        (),
        TokenError,
    >)
        requires
            old(self).wf(),
        ensures
            final(self).wf(),
            r is Ok <==> old(self).total_supply + amount <= u128::MAX,
            r is Ok ==> final(self).spec_balance_of(account_id@) == old(self).spec_balance_of(
                account_id@,
            ) + amount && final(self).total_supply == old(self).total_supply + amount,
            r is Err ==> r == Result::<(), TokenError>::Err(TokenError::ArithmeticOverflow)
                && *final(self) == *old(self),
            forall|id: Seq<char>|
                id != account_id@ ==> final(self).spec_balance_of(id) == old(self).spec_balance_of(
                    id,
                ) && final(self).has_account(id) == old(self).has_account(id),
            final(self).owner_id == old(self).owner_id,
            final(self).account_storage_usage == old(self).account_storage_usage,
    {
        if amount > u128::MAX - self.total_supply {
            return Err(TokenError::ArithmeticOverflow);
        }
        let balance = self.internal_unwrap_balance_of(account_id);
        proof {
            lemma_balance_le_sum(self.accounts@, account_id@);
        }
        let new_balance = balance + amount;
        self.internal_update_account(account_id, new_balance);
        self.total_supply = self.total_supply + amount;
        Ok(())
    }

    /// Subtracts `amount` from the balance of `account_id` and from the
    /// total supply, as one atomic step: when `amount` exceeds the balance
    /// nothing changes and the operation fails with `InsufficientBalance`.
    /// The entry is deleted when its balance reaches zero.
    pub fn internal_withdraw(&mut self, account_id: &String, amount: u128) -> (r: Result<
        (),
        TokenError,
    >)
        requires
            old(self).wf(),
        ensures
            final(self).wf(),
            r is Ok <==> amount <= old(self).spec_balance_of(account_id@),
            r is Ok ==> final(self).spec_balance_of(account_id@) == old(self).spec_balance_of(
                account_id@,
            ) - amount && final(self).total_supply == old(self).total_supply - amount,
            r is Err ==> r == Result::<(), TokenError>::Err(TokenError::InsufficientBalance)
                && *final(self) == *old(self),
            forall|id: Seq<char>|
                id != account_id@ ==> final(self).spec_balance_of(id) == old(self).spec_balance_of(
                    id,
                ) && final(self).has_account(id) == old(self).has_account(id),
            final(self).owner_id == old(self).owner_id,
            final(self).account_storage_usage == old(self).account_storage_usage,
    {
        let balance = self.internal_unwrap_balance_of(account_id);
        if amount > balance {
            return Err(TokenError::InsufficientBalance);
        }
        proof {
            lemma_balance_le_sum(self.accounts@, account_id@);
        }
        if amount > self.total_supply {
            // Unreachable under conservation (the balance just read is
            // bounded by the total supply), but the decrement stays guarded.
            return Err(TokenError::InsufficientBalance);
        }
        let new_balance = balance - amount;
        self.internal_update_account(account_id, new_balance);
        self.total_supply = self.total_supply - amount;
        Ok(())
    }

    /// Initializes the ledger: `owner_id` holds the whole initial supply
    /// `owner_supply`, the storage footprint is measured once, and the
    /// conservation invariant holds from the start.
    pub fn new(owner_id: String, owner_supply: u128) -> (c: Contract)
        ensures
            c.wf(),
            c.owner_id@ == owner_id@,
            c.total_supply == owner_supply,
            c.spec_balance_of(owner_id@) == owner_supply,
            forall|id: Seq<char>|
                id != owner_id@ ==> c.spec_balance_of(id) == 0 && !c.has_account(id),
            c.account_storage_usage == MAX_ACCOUNT_ID_LENGTH + BALANCE_BYTE_SIZE,
    {
        let owner = owner_id.clone();
        let usage = measure_account_storage();
        let mut this = Contract {
            accounts: Vec::new(),
            owner_id,
            total_supply: 0,
            account_storage_usage: usage,
        };
        let r = this.internal_deposit(&owner, owner_supply);
        proof {
            assert(r is Ok);
        }
        this
    }

    /// Creates `amount` new tokens in the owner's account, raising the
    /// total supply by the same amount. Whether the caller is entitled to
    /// mint is the surrounding dispatch layer's concern, not the ledger's.
    pub fn mint(&mut self, amount: u128) -> (r: Result<(), TokenError>)
        requires
            old(self).wf(),
        ensures
            final(self).wf(),
            r is Ok <==> old(self).total_supply + amount <= u128::MAX,
            r is Ok ==> final(self).spec_balance_of(old(self).owner_id@) == old(
                self,
            ).spec_balance_of(old(self).owner_id@) + amount && final(self).total_supply == old(
                self,
            ).total_supply + amount,
            r is Err ==> r == Result::<(), TokenError>::Err(TokenError::ArithmeticOverflow)
                && *final(self) == *old(self),
            forall|id: Seq<char>|
                id != old(self).owner_id@ ==> final(self).spec_balance_of(id) == old(
                    self,
                ).spec_balance_of(id) && final(self).has_account(id) == old(self).has_account(id),
            final(self).owner_id == old(self).owner_id,
            final(self).account_storage_usage == old(self).account_storage_usage,
    {
        let owner = self.owner_id.clone();
        self.internal_deposit(&owner, amount)
    }

    /// The account that owns the ledger.
    pub fn get_owner_id(&self) -> (r: String)
        ensures
            r@ == self.owner_id@,
    {
        self.owner_id.clone()
    }

    /// The total token supply.
    pub fn ft_total_supply(&self) -> (r: u128)
        ensures
            r == self.total_supply,
    {
        self.total_supply
    }

    /// The balance of `account_id`; zero when the account is absent.
    pub fn ft_balance_of(&self, account_id: &String) -> (r: u128)
        requires
            self.wf_accounts(),
        ensures
            r == self.spec_balance_of(account_id@),
    {
        self.internal_unwrap_balance_of(account_id)
    }
}

} // verus!
