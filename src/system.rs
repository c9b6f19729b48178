use crate::types::{Amount, Key};
use std::collections::BTreeMap;
use vstd::prelude::*;

verus! {

/// The types that the system module is instantiated with.
pub trait Config {
    type AccountId: Key;
    type BlockNumber: Amount;
    type Nonce: Amount;
}

/// The current block number and each account's nonce; an account without an
/// entry has nonce zero.
///
/// Both counters go up by one per call. Going past the type's largest value is
/// not a state this module has: the increments require room for one more.
#[derive(Debug)]
pub struct Pallet<T: Config> {
    pub block_number: T::BlockNumber,
    pub nonce: BTreeMap<T::AccountId, T::Nonce>,
}

impl<T: Config> Pallet<T> {
    /// The nonce of `who`, as a number: zero when `who` has no entry.
    pub open spec fn nonce_of(&self, who: T::AccountId) -> int {
        if self.nonce@.contains_key(who) {
            self.nonce@[who].value()
        } else {
            0
        }
    }

    /// `post` is `pre` with the block number one higher.
    pub open spec fn block_incremented(pre: &Self, post: &Self) -> bool {
        &&& post.block_number.value() == pre.block_number.value() + 1
        &&& post.nonce@ == pre.nonce@
    }

    /// `post` is `pre` with the nonce of `who` one higher, and nothing else changed.
    pub open spec fn nonce_incremented(pre: &Self, post: &Self, who: T::AccountId) -> bool {
        &&& post.block_number == pre.block_number
        &&& post.nonce@.dom() == pre.nonce@.dom().insert(who)
        &&& post.nonce_of(who) == pre.nonce_of(who) + 1
        &&& forall|a: T::AccountId|
            a != who ==> #[trigger] post.nonce@.get(a) == pre.nonce@.get(a)
    }

    pub fn new() -> (r: Self)
        ensures
            r.block_number.value() == 0,
            r.nonce@ == Map::<T::AccountId, T::Nonce>::empty(),
    {
        Self { block_number: T::BlockNumber::zero(), nonce: BTreeMap::new() }
    }

    pub fn block_number(&self) -> (r: T::BlockNumber)
        ensures
            r == self.block_number,
    {
        self.block_number
    }

    /// Advances the block number by one.
    pub fn inc_block_number(&mut self)
        requires
            old(self).block_number.value() < T::BlockNumber::max_value(),
        ensures
            Self::block_incremented(old(self), final(self)),
    {
        let one = T::BlockNumber::one();
        match self.block_number.checked_add(&one) {
            Some(v) => self.block_number = v,
            None => {},
        }
    }

    /// The nonce of `who`, zero when it has no entry.
    pub fn nonce(&self, who: &T::AccountId) -> (r: T::Nonce)
        ensures
            r.value() == self.nonce_of(*who),
    {
        proof {
            T::AccountId::lemma_key_order();
        }
        match self.nonce.get(who) {
            Some(n) => *n,
            None => T::Nonce::zero(),
        }
    }

    /// Advances the nonce of `who` by one, creating its entry if needed.
    pub fn inc_nonce(&mut self, who: &T::AccountId)
        requires
            old(self).nonce_of(*who) < T::Nonce::max_value(),
        ensures
            Self::nonce_incremented(old(self), final(self), *who),
    {
        proof {
            T::AccountId::lemma_key_order();
        }
        let current_nonce = self.nonce(who);
        let one = T::Nonce::one();
        match current_nonce.checked_add(&one) {
            Some(v) => {
                self.nonce.insert(who.duplicate(), v);
            },
            None => {},
        }
    }
}

/// An account that was never written has nonce zero.
pub proof fn lemma_unwritten_nonce_is_zero<T: Config>(p: &Pallet<T>, who: T::AccountId)
    requires
        !p.nonce@.contains_key(who),
    ensures
        p.nonce_of(who) == 0,
{
}

/// Incrementing the block number `n` times, starting from zero, gives `n`:
/// `states[i + 1]` is what `inc_block_number` made of `states[i]`.
pub proof fn lemma_block_number_counts_calls<T: Config>(states: Seq<Pallet<T>>)
    requires
        states.len() >= 1,
        states[0].block_number.value() == 0,
        forall|i: int|
            0 <= i < states.len() - 1 ==> Pallet::<T>::block_incremented(
                #[trigger] &states[i],
                &states[i + 1],
            ),
    ensures
        states.last().block_number.value() == states.len() - 1,
    decreases states.len(),
{
    if states.len() > 1 {
        let prefix = states.drop_last();
        assert forall|i: int| 0 <= i < prefix.len() - 1 implies Pallet::<T>::block_incremented(
            #[trigger] &prefix[i],
            &prefix[i + 1],
        ) by {
            assert(Pallet::<T>::block_incremented(&states[i], &states[i + 1]));
        }
        lemma_block_number_counts_calls(prefix);
        assert(Pallet::<T>::block_incremented(
            &states[states.len() - 2],
            &states[states.len() - 1],
        ));
    }
}

/// Incrementing the nonce of `who` `n` times, starting from zero, gives `n`,
/// and leaves the nonce of every other account where it was: `states[i + 1]`
/// is what `inc_nonce(who)` made of `states[i]`.
pub proof fn lemma_nonce_counts_calls<T: Config>(
    states: Seq<Pallet<T>>,
    who: T::AccountId,
    other: T::AccountId,
)
    requires
        states.len() >= 1,
        states[0].nonce_of(who) == 0,
        other != who,
        forall|i: int|
            0 <= i < states.len() - 1 ==> Pallet::<T>::nonce_incremented(
                #[trigger] &states[i],
                &states[i + 1],
                who,
            ),
    ensures
        states.last().nonce_of(who) == states.len() - 1,
        states.last().nonce_of(other) == states[0].nonce_of(other),
    decreases states.len(),
{
    if states.len() > 1 {
        let prefix = states.drop_last();
        assert forall|i: int| 0 <= i < prefix.len() - 1 implies Pallet::<T>::nonce_incremented(
            #[trigger] &prefix[i],
            &prefix[i + 1],
            who,
        ) by {
            assert(Pallet::<T>::nonce_incremented(&states[i], &states[i + 1], who));
        }
        lemma_nonce_counts_calls(prefix, who, other);
        let pre = states[states.len() - 2];
        let post = states[states.len() - 1];
        assert(Pallet::<T>::nonce_incremented(&pre, &post, who));
        assert(post.nonce@.get(other) == pre.nonce@.get(other));
        assert(post.nonce@.contains_key(other) == pre.nonce@.contains_key(other));
    }
}

} // verus!
