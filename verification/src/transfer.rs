//! The transfer protocol: the synchronous transfer, the optimistic first
//! step of the asynchronous transfer-and-notify sequence, and the resolution
//! step that runs once the receiver's outcome is known, with its
//! compensating refund/burn logic.

use vstd::prelude::*;

use crate::errors::TokenError;
use crate::ledger::Contract;
use crate::outcome::{spec_outcome_of, PromiseStatus, ResolveOutcome};
use crate::store::{lemma_balance_le_sum, lemma_index_unique, lemma_two_balances_le_sum};

verus! {

/// One transfer-and-notify instance in its notifying state: the transfer
/// has been applied optimistically, and this is the notification the host
/// still has to dispatch to the receiving party. The resolution step takes
/// the same context back as arguments, since the ledger may change while
/// the notification is in flight.
pub struct PendingTransfer {
    pub sender_id: String,
    pub receiver_id: String,
    pub amount: u128,
    pub msg: String,
}

/// The portion of `amount` the resolution treats as unused: everything on a
/// failed or unparsable outcome, and otherwise the claimed unused portion,
/// clamped to `amount` so that a buggy or malicious receiver cannot claim
/// to return more than it was given.
pub open spec fn spec_unused_amount(amount: u128, outcome: ResolveOutcome) -> u128 {
    match outcome {
        ResolveOutcome::Success(claimed) => if claimed < amount {
            claimed
        } else {
            amount
        },
        ResolveOutcome::Unparsable => amount,
        ResolveOutcome::Failure => amount,
    }
}

/// The refund the resolution can actually take back: the unused portion,
/// clamped to what the receiver still holds.
pub open spec fn spec_refund_amount(receiver_balance: u128, unused: u128) -> u128 {
    if receiver_balance < unused {
        receiver_balance
    } else {
        unused
    }
}

/// The used amount the resolution reports for the given pre-state: the full
/// amount, except on the normal refund path, where the refund is taken off.
pub open spec fn spec_resolve_used(
    pre: Contract,
    sender: Seq<char>,
    receiver: Seq<char>,
    amount: u128,
    outcome: ResolveOutcome,
) -> int {
    let unused = spec_unused_amount(amount, outcome);
    let receiver_balance = pre.spec_balance_of(receiver);
    if unused == 0 || receiver_balance == 0 {
        amount as int
    } else if pre.has_account(sender) {
        amount - spec_refund_amount(receiver_balance, unused)
    } else {
        amount as int
    }
}

/// The burned amount the resolution reports for the given pre-state:
/// nonzero exactly when a refund was due but the sender's account no longer
/// exists to receive it.
pub open spec fn spec_resolve_burned(
    pre: Contract,
    sender: Seq<char>,
    receiver: Seq<char>,
    amount: u128,
    outcome: ResolveOutcome,
) -> int {
    let unused = spec_unused_amount(amount, outcome);
    let receiver_balance = pre.spec_balance_of(receiver);
    if unused == 0 || receiver_balance == 0 {
        0
    } else if pre.has_account(sender) {
        0
    } else {
        spec_refund_amount(receiver_balance, unused) as int
    }
}

/// How the ledger after a resolution relates to the ledger before it:
/// untouched when nothing is unused or the receiver holds nothing any more;
/// a refund moved from receiver to sender when the sender still exists; and
/// a burn of the refund out of the total supply when it does not. Accounts
/// other than the two parties are never touched.
pub open spec fn resolve_state_rel(
    pre: Contract,
    post: Contract,
    sender: Seq<char>,
    receiver: Seq<char>,
    amount: u128,
    outcome: ResolveOutcome,
) -> bool {
    let unused = spec_unused_amount(amount, outcome);
    let receiver_balance = pre.spec_balance_of(receiver);
    let refund = spec_refund_amount(receiver_balance, unused);
    &&& post.owner_id == pre.owner_id
    &&& post.account_storage_usage == pre.account_storage_usage
    &&& forall|id: Seq<char>|
        id != sender && id != receiver ==> post.spec_balance_of(id) == pre.spec_balance_of(id)
            && post.has_account(id) == pre.has_account(id)
    &&& ((unused == 0 || receiver_balance == 0) ==> post == pre)
    &&& ((unused > 0 && receiver_balance > 0 && pre.has_account(sender)) ==> {
        &&& post.spec_balance_of(receiver) == receiver_balance - refund
        &&& post.spec_balance_of(sender) == pre.spec_balance_of(sender) + refund
        &&& post.total_supply == pre.total_supply
    })
    &&& ((unused > 0 && receiver_balance > 0 && !pre.has_account(sender)) ==> {
        &&& post.spec_balance_of(receiver) == receiver_balance - refund
        &&& !post.has_account(sender)
        &&& post.total_supply == pre.total_supply - refund
    })
}

impl Contract {
    /// Moves `amount` from `sender_id` to `receiver_id` as one atomic step:
    /// either the sender's balance goes down by `amount` and the receiver's
    /// up by `amount`, or nothing changes and the operation fails. The
    /// total supply never changes. Fails with `SameAccount` when the two
    /// accounts are the same, with `ZeroAmount` when `amount` is zero, and
    /// with `InsufficientBalance` when the sender holds less than `amount`.
    ///
    /// The memo, when present, is purely observational: the caller may
    /// record it, and it plays no part in the state change.
    pub fn internal_transfer(
        &mut self,
        sender_id: &String,
        receiver_id: &String,
        amount: u128,
        _memo: Option<String>,
    ) -> (r: Result<(), TokenError>)
        requires
            old(self).wf(),
        ensures
            final(self).wf(),
            r is Ok <==> (sender_id@ != receiver_id@ && 0 < amount <= old(self).spec_balance_of(
                sender_id@,
            )),
            r is Ok ==> final(self).spec_balance_of(sender_id@) == old(self).spec_balance_of(
                sender_id@,
            ) - amount && final(self).spec_balance_of(receiver_id@) == old(self).spec_balance_of(
                receiver_id@,
            ) + amount,
            r is Err ==> *final(self) == *old(self),
            (r == Result::<(), TokenError>::Err(TokenError::SameAccount)) <==> sender_id@
                == receiver_id@,
            (r == Result::<(), TokenError>::Err(TokenError::ZeroAmount)) <==> (sender_id@
                != receiver_id@ && amount == 0),
            (r == Result::<(), TokenError>::Err(TokenError::InsufficientBalance)) <==> (sender_id@
                != receiver_id@ && amount > 0 && amount > old(self).spec_balance_of(sender_id@)),
            final(self).total_supply == old(self).total_supply,
            forall|id: Seq<char>|
                id != sender_id@ && id != receiver_id@ ==> final(self).spec_balance_of(id) == old(
                    self,
                ).spec_balance_of(id) && final(self).has_account(id) == old(self).has_account(id),
            final(self).owner_id == old(self).owner_id,
            final(self).account_storage_usage == old(self).account_storage_usage,
    {
        if *sender_id == *receiver_id {
            return Err(TokenError::SameAccount);
        }
        if amount == 0 {
            return Err(TokenError::ZeroAmount);
        }
        match self.internal_withdraw(sender_id, amount) {
            Err(e) => Err(e),
            Ok(()) => {
                match self.internal_deposit(receiver_id, amount) {
                    Ok(()) => Ok(()),
                    Err(e) => {
                        // Unreachable: the withdrawal just lowered the total
                        // supply by `amount`, so re-adding it cannot overflow.
                        proof {
                            assert(false);
                        }
                        Err(e)
                    },
                }
            },
        }
    }

    /// The synchronous transfer as the outside caller sees it: the
    /// authenticated sender moves `amount` to `receiver_id`.
    pub fn ft_transfer(
        &mut self,
        sender_id: &String,
        receiver_id: &String,
        amount: u128,
        memo: Option<String>,
    ) -> (r: Result<(), TokenError>)
        requires
            old(self).wf(),
        ensures
            final(self).wf(),
            r is Ok <==> (sender_id@ != receiver_id@ && 0 < amount <= old(self).spec_balance_of(
                sender_id@,
            )),
            r is Ok ==> final(self).spec_balance_of(sender_id@) == old(self).spec_balance_of(
                sender_id@,
            ) - amount && final(self).spec_balance_of(receiver_id@) == old(self).spec_balance_of(
                receiver_id@,
            ) + amount,
            r is Err ==> *final(self) == *old(self),
            (r == Result::<(), TokenError>::Err(TokenError::SameAccount)) <==> sender_id@
                == receiver_id@,
            (r == Result::<(), TokenError>::Err(TokenError::ZeroAmount)) <==> (sender_id@
                != receiver_id@ && amount == 0),
            (r == Result::<(), TokenError>::Err(TokenError::InsufficientBalance)) <==> (sender_id@
                != receiver_id@ && amount > 0 && amount > old(self).spec_balance_of(sender_id@)),
            final(self).total_supply == old(self).total_supply,
            forall|id: Seq<char>|
                id != sender_id@ && id != receiver_id@ ==> final(self).spec_balance_of(id) == old(
                    self,
                ).spec_balance_of(id) && final(self).has_account(id) == old(self).has_account(id),
            final(self).owner_id == old(self).owner_id,
            final(self).account_storage_usage == old(self).account_storage_usage,
    {
        self.internal_transfer(sender_id, receiver_id, amount, memo)
    }

    /// The first, optimistic step of the asynchronous
    /// transfer-notify-resolve sequence: the transfer is applied
    /// immediately, before the receiver is informed, and on success the
    /// returned pending notification carries everything the host must hand
    /// to the receiving party (and, afterwards, back to the resolution
    /// step). On failure nothing changes and no notification is owed.
    pub fn ft_transfer_call(
        &mut self,
        sender_id: &String,
        receiver_id: &String,
        amount: u128,
        memo: Option<String>,
        msg: String,
    ) -> (r: Result<PendingTransfer, TokenError>)
        requires
            old(self).wf(),
        ensures
            final(self).wf(),
            r is Ok <==> (sender_id@ != receiver_id@ && 0 < amount <= old(self).spec_balance_of(
                sender_id@,
            )),
            r matches Ok(pending) ==> pending.sender_id@ == sender_id@ && pending.receiver_id@
                == receiver_id@ && pending.amount == amount && pending.msg@ == msg@,
            r is Ok ==> final(self).spec_balance_of(sender_id@) == old(self).spec_balance_of(
                sender_id@,
            ) - amount && final(self).spec_balance_of(receiver_id@) == old(self).spec_balance_of(
                receiver_id@,
            ) + amount,
            r is Err ==> *final(self) == *old(self),
            (r matches Err(e) && e == TokenError::SameAccount) <==> sender_id@ == receiver_id@,
            (r matches Err(e) && e == TokenError::ZeroAmount) <==> (sender_id@ != receiver_id@
                && amount == 0),
            (r matches Err(e) && e == TokenError::InsufficientBalance) <==> (sender_id@
                != receiver_id@ && amount > 0 && amount > old(self).spec_balance_of(sender_id@)),
            final(self).total_supply == old(self).total_supply,
            forall|id: Seq<char>|
                id != sender_id@ && id != receiver_id@ ==> final(self).spec_balance_of(id) == old(
                    self,
                ).spec_balance_of(id) && final(self).has_account(id) == old(self).has_account(id),
            final(self).owner_id == old(self).owner_id,
            final(self).account_storage_usage == old(self).account_storage_usage,
    {
        match self.internal_transfer(sender_id, receiver_id, amount, memo) {
            Err(e) => Err(e),
            Ok(()) => Ok(
                PendingTransfer {
                    sender_id: sender_id.clone(),
                    receiver_id: receiver_id.clone(),
                    amount,
                    msg,
                },
            ),
        }
    }

    /// The resolution of one transfer-and-notify instance, given the
    /// decoded outcome of the receiver's handler. Returns the pair of the
    /// used amount and the burned amount.
    ///
    /// Whatever the receiver claims, the refund is clamped twice: to the
    /// transferred amount, and to what the receiver still holds at
    /// resolution time (the ledger may have changed while the notification
    /// was in flight). A due refund goes back to the sender when its
    /// account still exists; when the account was deleted in the meantime,
    /// the refund is burned out of the total supply instead.
    pub fn int_ft_resolve_transfer(
        &mut self,
        sender_id: &String,
        receiver_id: &String,
        amount: u128,
        outcome: ResolveOutcome,
    ) -> (r: (u128, u128))
        requires
            old(self).wf(),
            sender_id@ != receiver_id@,
        ensures
            final(self).wf(),
            r.0 == spec_resolve_used(*old(self), sender_id@, receiver_id@, amount, outcome),
            r.1 == spec_resolve_burned(*old(self), sender_id@, receiver_id@, amount, outcome),
            resolve_state_rel(*old(self), *final(self), sender_id@, receiver_id@, amount, outcome),
    {
        let unused_amount: u128 = match outcome {
            ResolveOutcome::Success(claimed) => if claimed < amount {
                claimed
            } else {
                amount
            },
            ResolveOutcome::Unparsable => amount,
            ResolveOutcome::Failure => amount,
        };
        if unused_amount > 0 {
            let receiver_balance = self.internal_unwrap_balance_of(receiver_id);
            if receiver_balance > 0 {
                let refund_amount: u128 = if receiver_balance < unused_amount {
                    receiver_balance
                } else {
                    unused_amount
                };
                match self.find_index(sender_id) {
                    Some(si) => {
                        // Normal refund path: move the refund back from the
                        // receiver to the still-existing sender.
                        proof {
                            lemma_index_unique(self.accounts@, sender_id@, si as int);
                            lemma_two_balances_le_sum(self.accounts@, sender_id@, receiver_id@);
                        }
                        let sender_balance = self.internal_unwrap_balance_of(sender_id);
                        self.internal_update_account(receiver_id, receiver_balance - refund_amount);
                        self.internal_update_account(sender_id, sender_balance + refund_amount);
                        return (amount - refund_amount, 0);
                    },
                    None => {
                        // The sender's account was deleted while the
                        // notification was in flight: the refund cannot be
                        // credited, so it is burned out of the total supply.
                        proof {
                            lemma_balance_le_sum(self.accounts@, receiver_id@);
                        }
                        self.internal_update_account(receiver_id, receiver_balance - refund_amount);
                        self.total_supply = self.total_supply - refund_amount;
                        return (amount, refund_amount);
                    },
                }
            }
        }
        (amount, 0)
    }

    /// The resolution entry point as the host calls it, with the raw
    /// delivered result: decodes the receiver's outcome, resolves, and
    /// reports the used amount. The burned amount, when nonzero, is a
    /// reportable event for the caller's audit output, and is returned
    /// alongside.
    pub fn ft_resolve_transfer(
        &mut self,
        sender_id: &String,
        receiver_id: &String,
        amount: u128,
        result: PromiseStatus,
    ) -> (r: (u128, u128))
        requires
            old(self).wf(),
            sender_id@ != receiver_id@,
        ensures
            final(self).wf(),
            r.0 == spec_resolve_used(
                *old(self),
                sender_id@,
                receiver_id@,
                amount,
                spec_outcome_of(result),
            ),
            r.1 == spec_resolve_burned(
                *old(self),
                sender_id@,
                receiver_id@,
                amount,
                spec_outcome_of(result),
            ),
            resolve_state_rel(
                *old(self),
                *final(self),
                sender_id@,
                receiver_id@,
                amount,
                spec_outcome_of(result),
            ),
    {
        let outcome = crate::outcome::decode_outcome(&result);
        self.int_ft_resolve_transfer(sender_id, receiver_id, amount, outcome)
    }
}

} // verus!
