use vstd::prelude::*;
use crate::errors::ErrorCode;
use crate::key::Key;

verus! {

/// Length of one rental period in seconds: one day.
pub const SECONDS_PER_PERIOD: u64 = 86400;

/// The phases of a rental agreement; transitions only move forward.
#[derive(Clone, Copy, Debug, PartialEq, Eq, Structural)]
pub enum Phase {
    Created,
    Requested,
    Accepted,
    Closed,
}

/// The persistent record of one rental agreement.
#[derive(Clone, Copy, Debug)]
pub struct EscrowAccount {
    /// Owner of the asset, who created the record.
    pub initializer_key: Key,
    /// Token account that holds the asset unit.
    pub initializer_deposit_token_account: Key,
    /// Account that receives the rent.
    pub initializer_receive_wallet_account: Key,
    /// The renter, bound by `request_rent`.
    pub taker_key: Option<Key>,
    /// The custodian authority that holds the asset and the funds.
    pub custodian_key: Key,
    pub price_per_day: u64,
    pub deposit_amount: u64,
    pub rental_days: u64,
    /// Seconds since the epoch at which the rental was accepted.
    pub rent_start_time: i64,
    pub is_accepted: bool,
    pub phase: Phase,
}

/// A movement of funds between two accounts.
#[derive(Clone, Copy, Debug)]
pub struct Transfer {
    pub from: Key,
    pub to: Key,
    pub amount: u64,
}

/// A change of the authority that controls the asset account.
#[derive(Clone, Copy, Debug)]
pub struct CustodyChange {
    pub asset_account: Key,
    pub from_authority: Key,
    pub to_authority: Key,
}

/// Everything that leaves custody when a rental is closed.
#[derive(Clone, Copy, Debug)]
pub struct Settlement {
    /// The asset account goes back under the initializer's authority.
    pub asset_release: CustodyChange,
    /// The rent goes to the initializer's payout account.
    pub rent_payment: Transfer,
    /// The deposit goes back to the taker.
    pub deposit_refund: Transfer,
}

impl Settlement {
    /// The fund movements of the settlement, in the order they are made.
    pub open spec fn transfers(self) -> Seq<Transfer> {
        seq![self.rent_payment, self.deposit_refund]
    }
}

impl EscrowAccount {
    /// Rent for the whole rental: price per day times the number of days.
    pub open spec fn rental_fee(self) -> int {
        self.price_per_day * self.rental_days
    }

    /// What the taker pays on acceptance: the rent plus the deposit.
    pub open spec fn total_due(self) -> int {
        self.rental_fee() + self.deposit_amount
    }

    /// The first instant at which the asset may be reclaimed.
    pub open spec fn rental_end_time(self) -> int {
        self.rent_start_time + self.rental_days * SECONDS_PER_PERIOD
    }

    /// The record's invariant: a taker is bound once requested, the accepted
    /// flag follows the phase, and the sum collected on acceptance fits in a
    /// `u64`.
    pub open spec fn wf(self) -> bool {
        &&& (self.phase != Phase::Created ==> self.taker_key is Some)
        &&& self.is_accepted == (self.phase == Phase::Accepted || self.phase == Phase::Closed)
        &&& (self.phase == Phase::Accepted ==> self.total_due() <= u64::MAX)
    }
}

/// Effect of `initialize_escrow` once the custodian is known.
pub open spec fn open_step(
    initializer: Key,
    asset_account: Key,
    asset_amount: u64,
    payout_account: Key,
    price_per_day: u64,
    deposit_amount: u64,
    custodian: Key,
) -> Result<(EscrowAccount, CustodyChange), ErrorCode> {
    if asset_amount != 1 {
        Err(ErrorCode::AssetNotSingleton)
    } else {
        Ok(
            (
                EscrowAccount {
                    initializer_key: initializer,
                    initializer_deposit_token_account: asset_account,
                    initializer_receive_wallet_account: payout_account,
                    taker_key: None,
                    custodian_key: custodian,
                    price_per_day,
                    deposit_amount,
                    rental_days: 0,
                    rent_start_time: 0,
                    is_accepted: false,
                    phase: Phase::Created,
                },
                CustodyChange {
                    asset_account,
                    from_authority: initializer,
                    to_authority: custodian,
                },
            ),
        )
    }
}

/// Effect of `request_rent`: the new record and the outcome.
pub open spec fn request_step(e: EscrowAccount, taker: Key, rental_days: u64) -> (
    EscrowAccount,
    Result<(), ErrorCode>,
) {
    if e.phase != Phase::Created {
        (e, Err(ErrorCode::InvalidStateTransition))
    } else {
        (
            EscrowAccount { taker_key: Some(taker), rental_days, phase: Phase::Requested, ..e },
            Ok(()),
        )
    }
}

/// Effect of `accept_rent` for a taker holding `taker_balance` at time `now`.
pub open spec fn accept_step(e: EscrowAccount, taker_balance: u64, now: i64) -> (
    EscrowAccount,
    Result<Transfer, ErrorCode>,
) {
    if e.phase != Phase::Requested {
        (e, Err(ErrorCode::InvalidStateTransition))
    } else if taker_balance < e.total_due() {
        (e, Err(ErrorCode::InsufficientFunds))
    } else {
        (
            EscrowAccount {
                is_accepted: true,
                rent_start_time: now,
                phase: Phase::Accepted,
                ..e
            },
            Ok(
                Transfer {
                    from: e.taker_key.unwrap(),
                    to: e.custodian_key,
                    amount: e.total_due() as u64,
                },
            ),
        )
    }
}

/// Effect of `return_book` at time `now`.
pub open spec fn return_step(e: EscrowAccount, now: i64) -> (
    EscrowAccount,
    Result<Settlement, ErrorCode>,
) {
    if e.phase != Phase::Accepted {
        (e, Err(ErrorCode::InvalidStateTransition))
    } else if now < e.rental_end_time() {
        (e, Err(ErrorCode::RentalPeriodNotOver))
    } else {
        (
            EscrowAccount { phase: Phase::Closed, ..e },
            Ok(
                Settlement {
                    asset_release: CustodyChange {
                        asset_account: e.initializer_deposit_token_account,
                        from_authority: e.custodian_key,
                        to_authority: e.initializer_key,
                    },
                    rent_payment: Transfer {
                        from: e.custodian_key,
                        to: e.initializer_receive_wallet_account,
                        amount: e.rental_fee() as u64,
                    },
                    deposit_refund: Transfer {
                        from: e.custodian_key,
                        to: e.taker_key.unwrap(),
                        amount: e.deposit_amount,
                    },
                },
            ),
        )
    }
}

} // verus!
