use crate::types::{Amount, Key};
use std::collections::BTreeMap;
use vstd::prelude::*;

verus! {

/// The types that the balances module is instantiated with.
pub trait Config {
    type AccountId: Key;
    type Balance: Amount;
}

/// Why a transfer was refused.
#[derive(Debug, Clone, Copy, PartialEq, Eq, Structural)]
pub enum BalanceError {
    /// The sender holds less than the amount.
    InsufficientFunds,
    /// The receiver's balance plus the amount exceeds the balance type's range.
    BalanceOverflow,
}

/// Account balances; an account without an entry holds zero.
#[derive(Debug)]
pub struct Pallet<T: Config> {
    pub balances: BTreeMap<T::AccountId, T::Balance>,
}

impl<T: Config> Pallet<T> {
    /// The balance held by `who`, as a number: zero when `who` has no entry.
    pub open spec fn balance_of(&self, who: T::AccountId) -> int {
        if self.balances@.contains_key(who) {
            self.balances@[who].value()
        } else {
            0
        }
    }

    pub fn new() -> (r: Self)
        ensures
            r.balances@ == Map::<T::AccountId, T::Balance>::empty(),
    {
        Self { balances: BTreeMap::new() }
    }

    /// Overwrites (or creates) the balance of `who`.
    pub fn set_balance(&mut self, who: &T::AccountId, amount: T::Balance)
        ensures
            final(self).balances@ == old(self).balances@.insert(*who, amount),
    {
        proof {
            T::AccountId::lemma_key_order();
        }
        self.balances.insert(who.duplicate(), amount);
    }

    /// The balance of `who`, zero when it has no entry.
    pub fn balance(&self, who: &T::AccountId) -> (r: T::Balance)
        ensures
            r.value() == self.balance_of(*who),
            self.balances@.contains_key(*who) ==> r == self.balances@[*who],
    {
        proof {
            T::AccountId::lemma_key_order();
        }
        match self.balances.get(who) {
            Some(b) => *b,
            None => T::Balance::zero(),
        }
    }

    /// Moves `amount` from `sender` to `receiver`. Both checks come before any
    /// write, so a refused transfer changes nothing. The receiver is credited on
    /// top of what it holds after the debit, so a transfer to oneself that the
    /// account can afford succeeds and leaves its balance as it was.
    pub fn transfer(&mut self, sender: T::AccountId, receiver: T::AccountId, amount: T::Balance) -> (r:
        Result<(), BalanceError>)
        ensures
            r == (if old(self).balance_of(sender) < amount.value() {
                Err(BalanceError::InsufficientFunds)
            } else if sender != receiver && old(self).balance_of(receiver) + amount.value()
                > T::Balance::max_value() {
                Err(BalanceError::BalanceOverflow)
            } else {
                Ok(())
            }),
            r is Err ==> final(self).balances@ == old(self).balances@,
            r is Ok ==> {
                &&& final(self).balances@.dom() == old(self).balances@.dom().insert(sender).insert(
                    receiver,
                )
                &&& forall|a: T::AccountId|
                    a != sender && a != receiver ==> #[trigger] final(self).balances@.get(a)
                        == old(self).balances@.get(a)
                &&& sender != receiver ==> final(self).balance_of(sender) == old(self).balance_of(
                    sender,
                ) - amount.value()
                &&& sender != receiver ==> final(self).balance_of(receiver) == old(
                    self,
                ).balance_of(receiver) + amount.value()
                &&& final(self).balance_of(sender) + final(self).balance_of(receiver) == old(
                    self,
                ).balance_of(sender) + old(self).balance_of(receiver)
                &&& sender == receiver ==> final(self).balance_of(sender) == old(self).balance_of(
                    sender,
                )
            },
    {
        proof {
            T::AccountId::lemma_key_order();
        }
        let sender_balance = self.balance(&sender);
        let new_sender_balance = match sender_balance.checked_sub(&amount) {
            Some(v) => v,
            None => return Err(BalanceError::InsufficientFunds),
        };
        let receiver_balance = if sender == receiver {
            new_sender_balance
        } else {
            self.balance(&receiver)
        };
        proof {
            T::Balance::lemma_value(sender_balance, receiver_balance);
        }
        let new_receiver_balance = match receiver_balance.checked_add(&amount) {
            Some(v) => v,
            None => return Err(BalanceError::BalanceOverflow),
        };
        self.balances.insert(sender, new_sender_balance);
        self.balances.insert(receiver, new_receiver_balance);
        Ok(())
    }
}

/// An account that was never written holds zero.
pub proof fn lemma_unwritten_balance_is_zero<T: Config>(p: &Pallet<T>, who: T::AccountId)
    requires
        !p.balances@.contains_key(who),
    ensures
        p.balance_of(who) == 0,
{
}

/// After `set_balance(who, amount)`, reading the balance of `who` gives `amount`
/// back, and the balances of all other accounts are as they were.
pub proof fn lemma_set_balance_then_read<T: Config>(
    pre: &Pallet<T>,
    post: &Pallet<T>,
    who: T::AccountId,
    amount: T::Balance,
)
    requires
        post.balances@ == pre.balances@.insert(who, amount),
    ensures
        post.balances@.contains_key(who),
        post.balances@[who] == amount,
        post.balance_of(who) == amount.value(),
        forall|a: T::AccountId| a != who ==> #[trigger] post.balance_of(a) == pre.balance_of(a),
{
}

} // verus!
