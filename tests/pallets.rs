use state_machine::authorship;
use state_machine::balances::{self, BalanceError};
use state_machine::runtime::Runtime;
use state_machine::system;

const ALICE: u64 = 1;
const BOB: u64 = 2;
const NOLAN: u64 = 10;
const BRADFORD: u64 = 11;
const GREY: u64 = 12;

struct TestConfig;

impl balances::Config for TestConfig {
    type AccountId = u64;
    type Balance = u128;
}

impl system::Config for TestConfig {
    type AccountId = u64;
    type BlockNumber = u32;
    type Nonce = u32;
}

impl authorship::Config for TestConfig {
    type AccountId = u64;
    type BlockNumber = u32;
}

#[test]
fn test_authorship() {
    let mut authorship = authorship::Pallet::<TestConfig>::new();
    assert!(authorship.author().is_none());

    authorship.set_author(1, ALICE);
    assert_eq!(authorship.author(), Some(&ALICE));
    assert_eq!(authorship.author_of(1), Some(&ALICE));

    authorship.set_author(2, BOB);
    assert_eq!(authorship.author(), Some(&BOB));
    assert_eq!(authorship.author_of(1), Some(&ALICE));
    assert_eq!(authorship.author_of(2), Some(&BOB));
}

#[test]
fn init_balance() {
    let mut balance = balances::Pallet::<TestConfig>::new();
    assert_eq!(balance.balance(&ALICE), 0);
    balance.set_balance(&ALICE, 100);
    assert_eq!(balance.balance(&ALICE), 100);
    assert_eq!(balance.balance(&BOB), 0);
}

#[test]
fn transfer_balance() {
    let mut balance = balances::Pallet::<TestConfig>::new();
    assert_eq!(balance.transfer(ALICE, BOB, 50), Err(BalanceError::InsufficientFunds));
    balance.set_balance(&ALICE, 100);
    assert_eq!(balance.transfer(ALICE, BOB, 50), Ok(()));
    assert_ne!(balance.balance(&ALICE), 100);
    assert_eq!(balance.balance(&ALICE), 50);
    assert_eq!(balance.balance(&BOB), 50);
}

#[test]
fn test_system_pallet() {
    let mut sys_pallet = system::Pallet::<TestConfig>::new();
    sys_pallet.inc_block_number();
    sys_pallet.inc_nonce(&NOLAN);
    assert_eq!(sys_pallet.block_number(), 1);
    assert_eq!(sys_pallet.nonce.get(&NOLAN), Some(&1));
    assert_eq!(sys_pallet.nonce.get(&GREY), None);
}

#[test]
fn unwritten_accounts_read_zero() {
    let rt = Runtime::new();
    assert_eq!(rt.balances.balance(&ALICE), 0);
    assert_eq!(rt.system.nonce(&ALICE), 0);
    assert_eq!(rt.system.block_number(), 0);
    assert!(rt.authorship.author().is_none());
}

#[test]
fn set_balance_overwrites() {
    let mut b = balances::Pallet::<TestConfig>::new();
    b.set_balance(&ALICE, 7);
    b.set_balance(&ALICE, u128::MAX);
    assert_eq!(b.balance(&ALICE), u128::MAX);
    b.set_balance(&ALICE, 0);
    assert_eq!(b.balance(&ALICE), 0);
}

#[test]
fn insufficient_funds_changes_nothing() {
    let mut b = balances::Pallet::<TestConfig>::new();
    b.set_balance(&ALICE, 30);
    b.set_balance(&BOB, 5);
    assert_eq!(b.transfer(ALICE, BOB, 31), Err(BalanceError::InsufficientFunds));
    assert_eq!(b.balance(&ALICE), 30);
    assert_eq!(b.balance(&BOB), 5);
}

#[test]
fn overflow_changes_nothing() {
    let mut b = balances::Pallet::<TestConfig>::new();
    b.set_balance(&ALICE, 10);
    b.set_balance(&BOB, u128::MAX - 5);
    assert_eq!(b.transfer(ALICE, BOB, 6), Err(BalanceError::BalanceOverflow));
    assert_eq!(b.balance(&ALICE), 10);
    assert_eq!(b.balance(&BOB), u128::MAX - 5);
    assert_eq!(b.transfer(ALICE, BOB, 5), Ok(()));
    assert_eq!(b.balance(&ALICE), 5);
    assert_eq!(b.balance(&BOB), u128::MAX);
}

#[test]
fn transfer_conserves_total() {
    let mut b = balances::Pallet::<TestConfig>::new();
    b.set_balance(&ALICE, 80);
    b.set_balance(&BOB, 15);
    assert_eq!(b.transfer(ALICE, BOB, 80), Ok(()));
    assert_eq!(b.balance(&ALICE), 0);
    assert_eq!(b.balance(&BOB), 95);
    assert_eq!(b.balance(&ALICE) + b.balance(&BOB), 95);
}

#[test]
fn self_transfer_keeps_balance() {
    let mut b = balances::Pallet::<TestConfig>::new();
    b.set_balance(&ALICE, u128::MAX);
    assert_eq!(b.transfer(ALICE, ALICE, 100), Ok(()));
    assert_eq!(b.balance(&ALICE), u128::MAX);
    assert_eq!(b.transfer(ALICE, ALICE, u128::MAX), Ok(()));
    assert_eq!(b.balance(&ALICE), u128::MAX);
    b.set_balance(&BOB, 3);
    assert_eq!(b.transfer(BOB, BOB, 4), Err(BalanceError::InsufficientFunds));
    assert_eq!(b.balance(&BOB), 3);
}

#[test]
fn block_number_counts_increments() {
    let mut s = system::Pallet::<TestConfig>::new();
    let mut i: u32 = 0;
    while i < 25 {
        s.inc_block_number();
        i += 1;
    }
    assert_eq!(s.block_number(), 25);
}

#[test]
fn nonce_counts_increments() {
    let mut s = system::Pallet::<TestConfig>::new();
    let mut i: u32 = 0;
    while i < 7 {
        s.inc_nonce(&ALICE);
        i += 1;
    }
    assert_eq!(s.nonce(&ALICE), 7);
    assert_eq!(s.nonce(&BOB), 0);
    assert_eq!(s.block_number(), 0);
}

#[test]
fn author_of_other_block_is_none() {
    let mut a = authorship::Pallet::<TestConfig>::new();
    a.set_author(5, ALICE);
    assert_eq!(a.author(), Some(&ALICE));
    assert_eq!(a.author_of(5), Some(&ALICE));
    assert_eq!(a.author_of(6), None);
    a.set_author(5, BOB);
    assert_eq!(a.author_of(5), Some(&BOB));
}

#[test]
fn runtime_scenario() {
    let mut rt = Runtime::new();
    rt.balances.set_balance(&NOLAN, 100);
    rt.system.inc_block_number();
    assert_eq!(rt.system.block_number(), 1);
    rt.system.inc_nonce(&NOLAN);
    assert_eq!(rt.system.nonce(&NOLAN), 1);
    assert_eq!(rt.balances.transfer(NOLAN, BRADFORD, 50), Ok(()));
    assert_eq!(rt.balances.balance(&NOLAN), 50);
    assert_eq!(rt.balances.balance(&BRADFORD), 50);
    rt.system.inc_nonce(&NOLAN);
    assert_eq!(rt.system.nonce(&NOLAN), 2);
    assert_eq!(rt.balances.transfer(NOLAN, GREY, 20), Ok(()));
    assert_eq!(rt.balances.balance(&NOLAN), 30);
    assert_eq!(rt.balances.balance(&GREY), 20);
}
