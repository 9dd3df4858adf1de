use vstd::prelude::*;
use crate::errors::ErrorCode;
use crate::key::Key;
use crate::state::{
    accept_step, open_step, request_step, return_step, EscrowAccount, Phase, Settlement, Transfer,
};

verus! {

/// How much the balance of `k` changes when `transfers` are carried out.
pub open spec fn net_change(transfers: Seq<Transfer>, k: Key) -> int
    decreases transfers.len(),
{
    if transfers.len() == 0 {
        0
    } else {
        let t = transfers.last();
        let credit: int = if t.to == k { t.amount as int } else { 0 };
        let debit: int = if t.from == k { t.amount as int } else { 0 };
        net_change(transfers.drop_last(), k) + credit - debit
    }
}

/// Position of a phase in the lifecycle.
pub open spec fn phase_rank(p: Phase) -> int {
    match p {
        Phase::Created => 0,
        Phase::Requested => 1,
        Phase::Accepted => 2,
        Phase::Closed => 3,
    }
}

/// Transitions only move forward: each successful one advances the phase by
/// exactly one step, and a failed one leaves the record as it was.
pub proof fn lemma_phases_move_forward(
    e: EscrowAccount,
    taker: Key,
    rental_days: u64,
    taker_balance: u64,
    now: i64,
)
    ensures
        request_step(e, taker, rental_days).1 is Ok ==> phase_rank(
            request_step(e, taker, rental_days).0.phase,
        ) == phase_rank(e.phase) + 1,
        request_step(e, taker, rental_days).1 is Err ==> request_step(e, taker, rental_days).0
            == e,
        accept_step(e, taker_balance, now).1 is Ok ==> phase_rank(
            accept_step(e, taker_balance, now).0.phase,
        ) == phase_rank(e.phase) + 1,
        return_step(e, now).1 is Ok ==> phase_rank(return_step(e, now).0.phase) == phase_rank(
            e.phase,
        ) + 1,
        return_step(e, now).1 is Err ==> return_step(e, now).0 == e,
{
}

/// Along `initialize_escrow -> request_rent -> accept_rent`, the sum collected
/// on acceptance is exactly `price_per_day * rental_days + deposit_amount`,
/// and acceptance succeeds exactly when the taker holds at least that sum.
pub proof fn lemma_total_due_on_accept(
    initializer: Key,
    asset_account: Key,
    payout_account: Key,
    price_per_day: u64,
    deposit_amount: u64,
    custodian: Key,
    taker: Key,
    rental_days: u64,
    taker_balance: u64,
    now: i64,
)
    ensures
        open_step(
            initializer,
            asset_account,
            1,
            payout_account,
            price_per_day,
            deposit_amount,
            custodian,
        ) matches Ok((e0, _)) && ({
            let (e1, r1) = request_step(e0, taker, rental_days);
            let (e2, r2) = accept_step(e1, taker_balance, now);
            let due = price_per_day * rental_days + deposit_amount;
            &&& r1 is Ok
            &&& r2 is Ok <==> taker_balance >= due
            &&& r2 matches Ok(t) ==> t.amount == due && t.from == taker && t.to == custodian
        }),
{
}

/// `accept_rent` never succeeds when the taker's balance is below the total
/// due, and a failed acceptance leaves the record unchanged.
pub proof fn lemma_accept_needs_funds(e: EscrowAccount, taker_balance: u64, now: i64)
    ensures
        taker_balance < e.total_due() ==> accept_step(e, taker_balance, now).1 is Err,
        accept_step(e, taker_balance, now).1 is Err ==> accept_step(e, taker_balance, now).0 == e,
{
}

/// `return_book` never succeeds before the rental end time, and succeeds on
/// an accepted rental at the end time itself.
pub proof fn lemma_return_time_lock(e: EscrowAccount, now: i64)
    requires
        e.wf(),
    ensures
        now < e.rental_end_time() ==> return_step(e, now).1 is Err && return_step(e, now).0 == e,
        e.phase == Phase::Accepted && now == e.rental_end_time() ==> return_step(e, now).1 is Ok,
{
}

/// After a successful `return_book`, the payout account gains exactly the
/// rent, the taker gains exactly the deposit, the custodian gives up the
/// total collected, and the asset account goes back under the initializer's
/// authority.
pub proof fn lemma_return_settles(e: EscrowAccount, now: i64)
    requires
        e.wf(),
        e.taker_key is Some,
        e.initializer_receive_wallet_account != e.taker_key.unwrap(),
        e.initializer_receive_wallet_account != e.custodian_key,
        e.taker_key.unwrap() != e.custodian_key,
    ensures
        return_step(e, now).1 matches Ok(s) ==> {
            &&& net_change(s.transfers(), e.initializer_receive_wallet_account) == e.rental_fee()
            &&& net_change(s.transfers(), e.taker_key.unwrap()) == e.deposit_amount
            &&& net_change(s.transfers(), e.custodian_key) == -e.total_due()
            &&& s.asset_release.asset_account == e.initializer_deposit_token_account
            &&& s.asset_release.from_authority == e.custodian_key
            &&& s.asset_release.to_authority == e.initializer_key
        },
{
    if let Ok(s) = return_step(e, now).1 {
        let ts = s.transfers();
        assert(ts.drop_last().drop_last() =~= Seq::<Transfer>::empty());
        assert(ts.drop_last() =~= seq![s.rent_payment]);
        reveal_with_fuel(net_change, 3);
        assert(s.rent_payment.amount == e.rental_fee());
    }
}

/// A closed record cannot be returned again: a second `return_book` fails
/// with `InvalidStateTransition`, pays nothing and leaves the record as it is.
pub proof fn lemma_return_only_once(e: EscrowAccount, first: i64, second: i64)
    requires
        e.wf(),
    ensures
        return_step(e, first).1 is Ok ==> {
            let closed = return_step(e, first).0;
            return_step(closed, second) == (closed, Err::<Settlement, ErrorCode>(
                ErrorCode::InvalidStateTransition,
            ))
        },
{
}

} // verus!
