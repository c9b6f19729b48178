use num::traits::{CheckedAdd, CheckedSub};
use vstd::laws_cmp::obeys_cmp;
use vstd::std_specs::cmp::PartialEqSpec;
use vstd::prelude::*;

verus! {

/// A value that can key an ordered map: its order is a lawful total order and
/// it can be duplicated exactly.
pub trait Key: Ord + Sized {
    /// The type's `Ord` is a lawful total order, and its `==` is equality.
    proof fn lemma_key_order()
        ensures
            obeys_cmp::<Self>(),
            Self::obeys_eq_spec(),
            forall|x: Self, y: Self| x.eq_spec(&y) <==> x == y,
    ;

    /// An exact copy of `self`.
    fn duplicate(&self) -> (r: Self)
        ensures
            r == *self,
    ;
}

/// A non-negative bounded counter or quantity (a balance, a block number, a nonce).
pub trait Amount: Key + Copy {
    /// The mathematical value.
    spec fn value(&self) -> int;

    /// The largest representable value.
    spec fn max_value() -> int;

    /// Every value lies in `0 ..= max_value()`, and the value determines the amount.
    proof fn lemma_value(a: Self, b: Self)
        ensures
            0 <= a.value() <= Self::max_value(),
            a.value() == b.value() ==> a == b,
    ;

    fn zero() -> (r: Self)
        ensures
            r.value() == 0,
    ;

    fn one() -> (r: Self)
        ensures
            r.value() == 1,
    ;

    /// The sum, or `None` when it exceeds `max_value()`.
    fn checked_add(&self, rhs: &Self) -> (r: Option<Self>)
        ensures
            match r {
                Some(v) => self.value() + rhs.value() <= Self::max_value() && v.value()
                    == self.value() + rhs.value(),
                None => self.value() + rhs.value() > Self::max_value(),
            },
    ;

    /// The difference, or `None` when it would be negative.
    fn checked_sub(&self, rhs: &Self) -> (r: Option<Self>)
        ensures
            match r {
                Some(v) => self.value() >= rhs.value() && v.value() == self.value() - rhs.value(),
                None => self.value() < rhs.value(),
            },
    ;
}


impl Key for u64 {
    proof fn lemma_key_order() {
        broadcast use vstd::laws_cmp::group_laws_cmp;

    }

    fn duplicate(&self) -> (r: Self) {
        *self
    }
}

/// Relies on `num::CheckedAdd::checked_add` for `u32`, which forwards to
/// `u32::checked_add`: the sum when it fits, otherwise `None`.
#[verifier::external_body]
fn u32_checked_add(a: &u32, b: &u32) -> (r: Option<u32>)
    ensures
        r == (if *a + *b <= u32::MAX {
            Some((*a + *b) as u32)
        } else {
            None
        }),
{
    CheckedAdd::checked_add(a, b)
}

/// Relies on `num::CheckedSub::checked_sub` for `u32`, which forwards to
/// `u32::checked_sub`: the difference when it is not negative, otherwise `None`.
#[verifier::external_body]
fn u32_checked_sub(a: &u32, b: &u32) -> (r: Option<u32>)
    ensures
        r == (if *a >= *b {
            Some((*a - *b) as u32)
        } else {
            None
        }),
{
    CheckedSub::checked_sub(a, b)
}

/// Relies on `num::CheckedAdd::checked_add` for `u128`, which forwards to
/// `u128::checked_add`: the sum when it fits, otherwise `None`.
#[verifier::external_body]
fn u128_checked_add(a: &u128, b: &u128) -> (r: Option<u128>)
    ensures
        r == (if *a + *b <= u128::MAX {
            Some((*a + *b) as u128)
        } else {
            None
        }),
{
    CheckedAdd::checked_add(a, b)
}

/// Relies on `num::CheckedSub::checked_sub` for `u128`, which forwards to
/// `u128::checked_sub`: the difference when it is not negative, otherwise `None`.
#[verifier::external_body]
fn u128_checked_sub(a: &u128, b: &u128) -> (r: Option<u128>)
    ensures
        r == (if *a >= *b {
            Some((*a - *b) as u128)
        } else {
            None
        }),
{
    CheckedSub::checked_sub(a, b)
}

impl Key for u32 {
    proof fn lemma_key_order() {
        broadcast use vstd::laws_cmp::group_laws_cmp;

    }

    fn duplicate(&self) -> (r: Self) {
        *self
    }
}

impl Amount for u32 {
    open spec fn value(&self) -> int {
        *self as int
    }

    open spec fn max_value() -> int {
        u32::MAX as int
    }

    proof fn lemma_value(a: Self, b: Self) {
    }

    fn zero() -> (r: Self) {
        0
    }

    fn one() -> (r: Self) {
        1
    }

    fn checked_add(&self, rhs: &Self) -> (r: Option<Self>) {
        u32_checked_add(self, rhs)
    }

    fn checked_sub(&self, rhs: &Self) -> (r: Option<Self>) {
        u32_checked_sub(self, rhs)
    }
}

impl Key for u128 {
    proof fn lemma_key_order() {
        broadcast use vstd::laws_cmp::group_laws_cmp;

    }

    fn duplicate(&self) -> (r: Self) {
        *self
    }
}

impl Amount for u128 {
    open spec fn value(&self) -> int {
        *self as int
    }

    open spec fn max_value() -> int {
        u128::MAX as int
    }

    proof fn lemma_value(a: Self, b: Self) {
    }

    fn zero() -> (r: Self) {
        0
    }

    fn one() -> (r: Self) {
        1
    }

    fn checked_add(&self, rhs: &Self) -> (r: Option<Self>) {
        u128_checked_add(self, rhs)
    }

    fn checked_sub(&self, rhs: &Self) -> (r: Option<Self>) {
        u128_checked_sub(self, rhs)
    }
}

} // verus!
