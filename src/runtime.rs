use crate::{authorship, balances, system};
use vstd::prelude::*;

verus! {

/// The account identifier that the runtime binds every module to.
pub type AccountId = u64;

/// The balance type of the runtime.
pub type Balance = u128;

/// The block number type of the runtime.
pub type BlockNumber = u32;

/// The nonce type of the runtime.
pub type Nonce = u32;

/// The type bindings that the runtime supplies to every module.
#[derive(Debug)]
pub struct Bindings;

/// The modules of one ledger, bound to one set of types. Callers work through
/// the fields; the runtime adds no behaviour of its own.
#[derive(Debug)]
pub struct Runtime {
    pub system: system::Pallet<Bindings>,
    pub balances: balances::Pallet<Bindings>,
    pub authorship: authorship::Pallet<Bindings>,
}

impl system::Config for Bindings {
    type AccountId = AccountId;
    type BlockNumber = BlockNumber;
    type Nonce = Nonce;
}

impl balances::Config for Bindings {
    type AccountId = AccountId;
    type Balance = Balance;
}

impl authorship::Config for Bindings {
    type AccountId = AccountId;
    type BlockNumber = BlockNumber;
}

impl Runtime {
    /// A runtime whose modules are all empty.
    pub fn new() -> (r: Self)
        ensures
            r.system.block_number == 0,
            r.system.nonce@ == Map::<AccountId, Nonce>::empty(),
            r.balances.balances@ == Map::<AccountId, Balance>::empty(),
            r.authorship.current_author is None,
            r.authorship.authors_history@ == Map::<BlockNumber, AccountId>::empty(),
    {
        Self {
            system: system::Pallet::new(),
            balances: balances::Pallet::new(),
            authorship: authorship::Pallet::new(),
        }
    }
}

} // verus!
