use vstd::prelude::*;
use crate::custodian::{custodian_authority, derived_address_of, escrow_seed};
use crate::errors::ErrorCode;
use crate::key::Key;
use crate::state::{
    accept_step, open_step, request_step, return_step, CustodyChange, EscrowAccount, Phase,
    Settlement, Transfer, SECONDS_PER_PERIOD,
};

verus! {

/// Rent plus deposit, computed without overflow.
fn total_due_of(escrow: &EscrowAccount) -> (r: u128)
    ensures
        r == escrow.total_due(),
{
    let p = escrow.price_per_day as u128;
    let d = escrow.rental_days as u128;
    assert(p * d <= 0xffff_ffff_ffff_ffffu128 * 0xffff_ffff_ffff_ffffu128) by (nonlinear_arith)
        requires
            p <= 0xffff_ffff_ffff_ffffu128,
            d <= 0xffff_ffff_ffff_ffffu128,
    ;
    p * d + escrow.deposit_amount as u128
}

impl EscrowAccount {
    /// Whether the record satisfies its invariant.
    pub fn is_well_formed(&self) -> (r: bool)
        ensures
            r == self.wf(),
    {
        let taker_ok = match self.phase {
            Phase::Created => true,
            _ => self.taker_key.is_some(),
        };
        let accepted_ok = match self.phase {
            Phase::Accepted | Phase::Closed => self.is_accepted,
            _ => !self.is_accepted,
        };
        let amount_ok = match self.phase {
            Phase::Accepted => total_due_of(self) <= u64::MAX as u128,
            _ => true,
        };
        taker_ok && accepted_ok && amount_ok
    }
}

/// Creates the record of a rental once the custodian authority is known, and
/// says which custody change moves the asset unit under that authority.
/// Fails with `AssetNotSingleton` unless the asset account holds exactly one
/// unit. No funds move.
pub fn open_escrow(
    initializer: Key,
    asset_account: Key,
    asset_amount: u64,
    payout_account: Key,
    price_per_day: u64,
    deposit_amount: u64,
    custodian: Key,
) -> (r: Result<(EscrowAccount, CustodyChange), ErrorCode>)
    ensures
        r == open_step(
            initializer,
            asset_account,
            asset_amount,
            payout_account,
            price_per_day,
            deposit_amount,
            custodian,
        ),
        r matches Ok((e, _)) ==> e.wf(),
{
    if asset_amount != 1 {
        return Err(ErrorCode::AssetNotSingleton);
    }
    let escrow = EscrowAccount {
        initializer_key: initializer,
        initializer_deposit_token_account: asset_account,
        initializer_receive_wallet_account: payout_account,
        taker_key: None,
        custodian_key: custodian,
        price_per_day,
        deposit_amount,
        rental_days: 0,
        rent_start_time: 0,
        is_accepted: false,
        phase: Phase::Created,
    };
    let custody = CustodyChange {
        asset_account,
        from_authority: initializer,
        to_authority: custodian,
    };
    Ok((escrow, custody))
}

/// Creates the record of a rental for the program `program_id`: the
/// custodian is the address derived from the escrow tag. Fails with
/// `CustodianUnavailable` when no such address exists, else as
/// `open_escrow` does.
pub fn initialize_escrow(
    program_id: &Key,
    initializer: Key,
    asset_account: Key,
    asset_amount: u64,
    payout_account: Key,
    price_per_day: u64,
    deposit_amount: u64,
) -> (r: Result<(EscrowAccount, CustodyChange), ErrorCode>)
    ensures
        derived_address_of(escrow_seed(), program_id.bytes@) is None ==> r == Err::<
            (EscrowAccount, CustodyChange),
            ErrorCode,
        >(ErrorCode::CustodianUnavailable),
        derived_address_of(escrow_seed(), program_id.bytes@) is Some ==> (exists|c: Key|
            c.bytes@ == derived_address_of(escrow_seed(), program_id.bytes@).unwrap().0 && r
                == open_step(
                initializer,
                asset_account,
                asset_amount,
                payout_account,
                price_per_day,
                deposit_amount,
                c,
            )),
        r matches Ok((e, _)) ==> e.wf(),
{
    match custodian_authority(program_id) {
        None => Err(ErrorCode::CustodianUnavailable),
        Some(custodian) => open_escrow(
            initializer,
            asset_account,
            asset_amount,
            payout_account,
            price_per_day,
            deposit_amount,
            custodian,
        ),
    }
}

/// Binds the taker and the number of rental days to a freshly created
/// record. Fails with `InvalidStateTransition`, leaving the record as it
/// was, unless the record is in the `Created` phase.
pub fn request_rent(escrow: &mut EscrowAccount, taker: Key, rental_days: u64) -> (r: Result<
    (),
    ErrorCode,
>)
    requires
        old(escrow).wf(),
    ensures
        (*final(escrow), r) == request_step(*old(escrow), taker, rental_days),
        final(escrow).wf(),
{
    if escrow.phase != Phase::Created {
        return Err(ErrorCode::InvalidStateTransition);
    }
    escrow.taker_key = Some(taker);
    escrow.rental_days = rental_days;
    escrow.phase = Phase::Requested;
    Ok(())
}

/// Accepts a requested rental at time `now`: the taker, who holds
/// `taker_balance`, pays the rent plus the deposit into custody. Fails with
/// `InvalidStateTransition` unless the record is `Requested`, and with
/// `InsufficientFunds` when the balance is below that sum; on failure the
/// record is left as it was.
pub fn accept_rent(escrow: &mut EscrowAccount, taker_balance: u64, now: i64) -> (r: Result<
    Transfer,
    ErrorCode,
>)
    requires
        old(escrow).wf(),
    ensures
        (*final(escrow), r) == accept_step(*old(escrow), taker_balance, now),
        final(escrow).wf(),
{
    if escrow.phase != Phase::Requested {
        return Err(ErrorCode::InvalidStateTransition);
    }
    let total = total_due_of(escrow);
    if (taker_balance as u128) < total {
        return Err(ErrorCode::InsufficientFunds);
    }
    let taker = match escrow.taker_key {
        Some(k) => k,
        None => return Err(ErrorCode::InvalidStateTransition),
    };
    escrow.is_accepted = true;
    escrow.rent_start_time = now;
    escrow.phase = Phase::Accepted;
    Ok(Transfer { from: taker, to: escrow.custodian_key, amount: total as u64 })
}

/// Closes an accepted rental at time `now`: the asset goes back under the
/// initializer's authority, the rent is paid out and the deposit refunded.
/// Fails with `InvalidStateTransition` unless the record is `Accepted`, and
/// with `RentalPeriodNotOver` before the rental end time (the end itself is
/// allowed); on failure the record is left as it was.
pub fn return_book(escrow: &mut EscrowAccount, now: i64) -> (r: Result<Settlement, ErrorCode>)
    requires
        old(escrow).wf(),
    ensures
        (*final(escrow), r) == return_step(*old(escrow), now),
        final(escrow).wf(),
{
    if escrow.phase != Phase::Accepted {
        return Err(ErrorCode::InvalidStateTransition);
    }
    let end = escrow.rent_start_time as i128 + escrow.rental_days as i128
        * SECONDS_PER_PERIOD as i128;
    if (now as i128) < end {
        return Err(ErrorCode::RentalPeriodNotOver);
    }
    let taker = match escrow.taker_key {
        Some(k) => k,
        None => return Err(ErrorCode::InvalidStateTransition),
    };
    let fee = escrow.price_per_day as u128 * escrow.rental_days as u128;
    let custodian = escrow.custodian_key;
    escrow.phase = Phase::Closed;
    Ok(
        Settlement {
            asset_release: CustodyChange {
                asset_account: escrow.initializer_deposit_token_account,
                from_authority: custodian,
                to_authority: escrow.initializer_key,
            },
            rent_payment: Transfer {
                from: custodian,
                to: escrow.initializer_receive_wallet_account,
                amount: fee as u64,
            },
            deposit_refund: Transfer { from: custodian, to: taker, amount: escrow.deposit_amount },
        },
    )
}

} // verus!
