use anchor_lang::prelude::Pubkey;
use book_rental::errors::ErrorCode;
use book_rental::escrow::{accept_rent, initialize_escrow, open_escrow, request_rent, return_book};
use book_rental::key::Key;
use book_rental::state::{EscrowAccount, Phase, SECONDS_PER_PERIOD};

fn key(b: u8) -> Key {
    Key { bytes: [b; 32] }
}

const INITIALIZER: u8 = 1;
const ASSET: u8 = 2;
const PAYOUT: u8 = 3;
const CUSTODIAN: u8 = 4;
const TAKER: u8 = 5;

fn created(price: u64, deposit: u64) -> EscrowAccount {
    let (e, _) = open_escrow(key(INITIALIZER), key(ASSET), 1, key(PAYOUT), price, deposit, key(CUSTODIAN))
        .unwrap();
    e
}

fn requested(price: u64, deposit: u64, days: u64) -> EscrowAccount {
    let mut e = created(price, deposit);
    request_rent(&mut e, key(TAKER), days).unwrap();
    e
}

#[test]
fn scenario_full_rental_cycle() {
    let mut e = requested(5, 20, 3);
    let mut taker_balance: u64 = 35;
    let start: i64 = 1_700_000_000;
    let t = accept_rent(&mut e, taker_balance, start).unwrap();
    assert_eq!(t.amount, 35);
    assert_eq!(t.from, key(TAKER));
    assert_eq!(t.to, key(CUSTODIAN));
    taker_balance -= t.amount;
    assert_eq!(taker_balance, 0);
    assert_eq!(e.phase, Phase::Accepted);
    assert!(e.is_accepted);
    assert_eq!(e.rent_start_time, start);

    let early = return_book(&mut e, start + 2 * 86400);
    assert_eq!(early.unwrap_err(), ErrorCode::RentalPeriodNotOver);
    assert_eq!(e.phase, Phase::Accepted);

    let mut payout_balance: u64 = 100;
    let s = return_book(&mut e, start + 3 * 86400).unwrap();
    assert_eq!(s.rent_payment.to, key(PAYOUT));
    assert_eq!(s.rent_payment.from, key(CUSTODIAN));
    payout_balance += s.rent_payment.amount;
    assert_eq!(payout_balance, 115);
    assert_eq!(s.deposit_refund.to, key(TAKER));
    taker_balance += s.deposit_refund.amount;
    assert_eq!(taker_balance, 20);
    assert_eq!(s.asset_release.asset_account, key(ASSET));
    assert_eq!(s.asset_release.from_authority, key(CUSTODIAN));
    assert_eq!(s.asset_release.to_authority, key(INITIALIZER));
    assert_eq!(e.phase, Phase::Closed);
}

#[test]
fn scenario_short_balance_keeps_request() {
    let mut e = requested(5, 20, 3);
    let r = accept_rent(&mut e, 34, 1_000);
    assert_eq!(r.unwrap_err(), ErrorCode::InsufficientFunds);
    assert_eq!(e.phase, Phase::Requested);
    assert!(!e.is_accepted);
    assert_eq!(e.rent_start_time, 0);
}

#[test]
fn total_due_is_exact() {
    let mut e = requested(7, 11, 4);
    let t = accept_rent(&mut e, 1_000, 0).unwrap();
    assert_eq!(t.amount, 39);
}

#[test]
fn total_due_beyond_u64_is_unaffordable() {
    let mut e = requested(u64::MAX, 1, 2);
    let r = accept_rent(&mut e, u64::MAX, 0);
    assert_eq!(r.unwrap_err(), ErrorCode::InsufficientFunds);
    assert_eq!(e.phase, Phase::Requested);
}

#[test]
fn largest_total_due_is_accepted() {
    let mut e = requested(u64::MAX - 1, 1, 1);
    let t = accept_rent(&mut e, u64::MAX, 0).unwrap();
    assert_eq!(t.amount, u64::MAX);
}

#[test]
fn return_boundary_is_inclusive() {
    let mut e = requested(2, 3, 5);
    accept_rent(&mut e, 13, 500).unwrap();
    let end = 500 + 5 * SECONDS_PER_PERIOD as i64;
    assert_eq!(return_book(&mut e, end - 1).unwrap_err(), ErrorCode::RentalPeriodNotOver);
    let s = return_book(&mut e, end).unwrap();
    assert_eq!(s.rent_payment.amount, 10);
    assert_eq!(s.deposit_refund.amount, 3);
}

#[test]
fn return_twice_fails() {
    let mut e = requested(5, 20, 1);
    accept_rent(&mut e, 25, 0).unwrap();
    return_book(&mut e, 86400).unwrap();
    let again = return_book(&mut e, 10 * 86400);
    assert_eq!(again.unwrap_err(), ErrorCode::InvalidStateTransition);
    assert_eq!(e.phase, Phase::Closed);
}

#[test]
fn zero_day_rental_costs_the_deposit() {
    let mut e = requested(9, 4, 0);
    let t = accept_rent(&mut e, 4, 77).unwrap();
    assert_eq!(t.amount, 4);
    let s = return_book(&mut e, 77).unwrap();
    assert_eq!(s.rent_payment.amount, 0);
    assert_eq!(s.deposit_refund.amount, 4);
}

#[test]
fn initialize_rejects_non_singleton_asset() {
    for amount in [0u64, 2, 10] {
        let r = open_escrow(key(INITIALIZER), key(ASSET), amount, key(PAYOUT), 1, 1, key(CUSTODIAN));
        assert_eq!(r.unwrap_err(), ErrorCode::AssetNotSingleton);
    }
}

#[test]
fn initialize_moves_asset_into_custody() {
    let (e, c) = open_escrow(key(INITIALIZER), key(ASSET), 1, key(PAYOUT), 5, 20, key(CUSTODIAN)).unwrap();
    assert_eq!(e.phase, Phase::Created);
    assert_eq!(e.price_per_day, 5);
    assert_eq!(e.deposit_amount, 20);
    assert_eq!(e.taker_key, None);
    assert!(!e.is_accepted);
    assert_eq!(c.asset_account, key(ASSET));
    assert_eq!(c.from_authority, key(INITIALIZER));
    assert_eq!(c.to_authority, key(CUSTODIAN));
    assert!(e.is_well_formed());
}

#[test]
fn initialize_derives_custodian_from_program() {
    let program = key(9);
    let (e, c) = initialize_escrow(&program, key(INITIALIZER), key(ASSET), 1, key(PAYOUT), 5, 20).unwrap();
    let (pda, _) = Pubkey::find_program_address(&[b"escrow"], &Pubkey::new_from_array(program.bytes));
    assert_eq!(e.custodian_key.bytes, pda.to_bytes());
    assert_eq!(c.to_authority.bytes, pda.to_bytes());
    assert_ne!(e.custodian_key, program);
}

#[test]
fn initialize_with_program_rejects_non_singleton_asset() {
    let r = initialize_escrow(&key(9), key(INITIALIZER), key(ASSET), 3, key(PAYOUT), 5, 20);
    assert_eq!(r.unwrap_err(), ErrorCode::AssetNotSingleton);
}

#[test]
fn request_binds_taker_once() {
    let mut e = created(5, 20);
    request_rent(&mut e, key(TAKER), 3).unwrap();
    assert_eq!(e.taker_key, Some(key(TAKER)));
    assert_eq!(e.rental_days, 3);
    assert_eq!(e.phase, Phase::Requested);
    let r = request_rent(&mut e, key(7), 8);
    assert_eq!(r.unwrap_err(), ErrorCode::InvalidStateTransition);
    assert_eq!(e.taker_key, Some(key(TAKER)));
    assert_eq!(e.rental_days, 3);
}

#[test]
fn accept_before_request_fails() {
    let mut e = created(5, 20);
    let r = accept_rent(&mut e, 1_000, 0);
    assert_eq!(r.unwrap_err(), ErrorCode::InvalidStateTransition);
    assert_eq!(e.phase, Phase::Created);
}

#[test]
fn accept_twice_fails() {
    let mut e = requested(5, 20, 3);
    accept_rent(&mut e, 35, 10).unwrap();
    let r = accept_rent(&mut e, 35, 20);
    assert_eq!(r.unwrap_err(), ErrorCode::InvalidStateTransition);
    assert_eq!(e.rent_start_time, 10);
}

#[test]
fn return_before_accept_fails() {
    let mut e = requested(5, 20, 3);
    let r = return_book(&mut e, i64::MAX);
    assert_eq!(r.unwrap_err(), ErrorCode::InvalidStateTransition);
    assert_eq!(e.phase, Phase::Requested);
}

#[test]
fn well_formedness_check() {
    let mut e = requested(5, 20, 3);
    assert!(e.is_well_formed());
    e.is_accepted = true;
    assert!(!e.is_well_formed());
    let mut f = requested(u64::MAX, 0, 2);
    f.phase = Phase::Accepted;
    f.is_accepted = true;
    assert!(!f.is_well_formed());
    let mut g = created(1, 1);
    g.phase = Phase::Requested;
    assert!(!g.is_well_formed());
}

#[test]
fn error_messages() {
    assert_eq!(ErrorCode::RentalPeriodNotOver.message(), "Rental period is not over yet.");
    assert_eq!(
        ErrorCode::InsufficientFunds.message(),
        "Insufficient funds to pay for rent and deposit."
    );
    assert!(!ErrorCode::InvalidStateTransition.message().is_empty());
    assert!(!ErrorCode::AssetNotSingleton.message().is_empty());
    assert!(!ErrorCode::CustodianUnavailable.message().is_empty());
}
