use crate::types::{Amount, Key};
use std::collections::BTreeMap;
use vstd::prelude::*;

verus! {

/// The types that the authorship module is instantiated with.
pub trait Config {
    type AccountId: Key;
    type BlockNumber: Amount;
}

/// The current block's author and the author recorded for each block.
#[derive(Debug)]
pub struct Pallet<T: Config> {
    pub current_author: Option<T::AccountId>,
    pub authors_history: BTreeMap<T::BlockNumber, T::AccountId>,
}

impl<T: Config> Pallet<T> {
    pub fn new() -> (r: Self)
        ensures
            r.current_author is None,
            r.authors_history@ == Map::<T::BlockNumber, T::AccountId>::empty(),
    {
        Self { current_author: None, authors_history: BTreeMap::new() }
    }

    /// Makes `who` the current author and records it as the author of
    /// `block_number`, replacing an earlier record for that block.
    pub fn set_author(&mut self, block_number: T::BlockNumber, who: T::AccountId)
        ensures
            final(self).current_author == Some(who),
            final(self).authors_history@ == old(self).authors_history@.insert(block_number, who),
    {
        proof {
            T::BlockNumber::lemma_key_order();
        }
        self.current_author = Some(who.duplicate());
        self.authors_history.insert(block_number, who);
    }

    /// The current author, if one was set.
    pub fn author(&self) -> (r: Option<&T::AccountId>)
        ensures
            match r {
                Some(a) => self.current_author == Some(*a),
                None => self.current_author is None,
            },
    {
        self.current_author.as_ref()
    }

    /// The author recorded for `block_number`, if any.
    pub fn author_of(&self, block_number: T::BlockNumber) -> (r: Option<&T::AccountId>)
        ensures
            match r {
                Some(a) => self.authors_history@.contains_key(block_number)
                    && self.authors_history@[block_number] == *a,
                None => !self.authors_history@.contains_key(block_number),
            },
    {
        proof {
            T::BlockNumber::lemma_key_order();
        }
        self.authors_history.get(&block_number)
    }
}

/// After `set_author(block_number, who)` on an empty module, `who` is the
/// current author and the author of `block_number`, and no other block has an
/// author.
pub proof fn lemma_set_author_on_empty<T: Config>(
    pre: &Pallet<T>,
    post: &Pallet<T>,
    block_number: T::BlockNumber,
    who: T::AccountId,
    other: T::BlockNumber,
)
    requires
        pre.current_author is None,
        pre.authors_history@ == Map::<T::BlockNumber, T::AccountId>::empty(),
        post.current_author == Some(who),
        post.authors_history@ == pre.authors_history@.insert(block_number, who),
        other != block_number,
    ensures
        post.current_author == Some(who),
        post.authors_history@.contains_key(block_number),
        post.authors_history@[block_number] == who,
        !post.authors_history@.contains_key(other),
{
}

} // verus!
