use vstd::prelude::*;
use crate::identity::Identity;
use crate::instructions::{
    cancel_check, claim_check, create_check, dispute_check, mark_paid_check, release_check,
    released, resolve_check, CreateRequest,
};
use crate::order::{
    fee_of, is_terminal, payout_of, utf8_len, Order, OrderError, BPS_DENOMINATOR, MAX_QR_LEN,
};

verus! {

/// A create call succeeds only with a positive amount, a fee of at most
/// 10000 basis points and a payload of at most 200 bytes; an input that
/// breaks any of these is rejected, and a rejected call yields no order.
pub proof fn lemma_create_rejects_invalid(
    ctx: CreateRequest,
    amount: u64,
    fee_bps: u16,
    qr: Seq<char>,
)
    ensures
        create_check(ctx, amount, fee_bps, qr) is None ==> amount > 0 && fee_bps
            <= BPS_DENOMINATOR && utf8_len(qr) <= MAX_QR_LEN,
        amount == 0 || fee_bps > BPS_DENOMINATOR || utf8_len(qr) > MAX_QR_LEN ==> create_check(
            ctx,
            amount,
            fee_bps,
            qr,
        ) is Some,
{
}

/// Once an order is Released or Cancelled, every transition is rejected with
/// InvalidStatus, whoever calls and whenever.
pub proof fn lemma_terminal_is_final(o: Order, caller: Identity, now: i64)
    requires
        is_terminal(o.status),
    ensures
        claim_check(o, now) == Some(OrderError::InvalidStatus),
        mark_paid_check(o, caller) == Some(OrderError::InvalidStatus),
        release_check(o, caller) == Some(OrderError::InvalidStatus),
        cancel_check(o, caller, now) == Some(OrderError::InvalidStatus),
        dispute_check(o, caller) == Some(OrderError::InvalidStatus),
        resolve_check(o, caller) == Some(OrderError::InvalidStatus),
{
}

/// Mark-paid goes through exactly when the order is Claimed and the caller
/// is its helper; otherwise it fails with InvalidStatus or Unauthorized.
pub proof fn lemma_mark_paid_gate(o: Order, caller: Identity)
    ensures
        mark_paid_check(o, caller) is None <==> (o.status is Claimed && o.helper == Some(caller)),
        mark_paid_check(o, caller) == Some(OrderError::InvalidStatus) <==> !(o.status is Claimed),
        mark_paid_check(o, caller) == Some(OrderError::Unauthorized) <==> (o.status is Claimed
            && o.helper != Some(caller)),
{
}

/// A release splits the amount into the helper's share and the rounded-down
/// fee, and the two add up to the amount exactly.
pub proof fn lemma_release_conserves(amount: u64, fee_bps: u16)
    requires
        fee_bps <= BPS_DENOMINATOR,
    ensures
        payout_of(amount, fee_bps).fee == (amount as int * fee_bps as int) / 10000,
        payout_of(amount, fee_bps).to_helper == amount - (amount as int * fee_bps as int) / 10000,
        payout_of(amount, fee_bps).to_helper + payout_of(amount, fee_bps).fee == amount,
{
    assert(amount as int * fee_bps as int <= amount as int * 10000) by (nonlinear_arith)
        requires
            fee_bps <= 10000,
    ;
    assert(0 <= fee_of(amount, fee_bps) <= amount) by (nonlinear_arith)
        requires
            fee_of(amount, fee_bps) == (amount as int * fee_bps as int) / 10000,
            0 <= amount as int * fee_bps as int <= amount as int * 10000,
    ;
}

/// After a successful release no caller can release, cancel, dispute or
/// settle the order again: the escrow leaves at most once.
pub proof fn lemma_release_only_once(o: Order, caller: Identity, next: Identity, now: i64, later: i64)
    requires
        release_check(o, caller) is None,
    ensures
        release_check(released(o, now), next) == Some(OrderError::InvalidStatus),
        cancel_check(released(o, now), next, later) == Some(OrderError::InvalidStatus),
        dispute_check(released(o, now), next) == Some(OrderError::InvalidStatus),
        resolve_check(released(o, now), next) == Some(OrderError::InvalidStatus),
{
}

} // verus!
