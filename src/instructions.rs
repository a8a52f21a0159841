use vstd::prelude::*;
use crate::identity::Identity;
use crate::order::{
    split_amount, utf8_len, payout_of, Order, OrderError, Payout, Settlement, Status,
    BPS_DENOMINATOR, MAX_QR_LEN,
};

verus! {

/// What the host has resolved for a create call: the signing creator, the
/// escrowed mint, the creator's token balance, whether an order already lives
/// under (creator, nonce), and the clock.
#[derive(Clone, Copy, Debug)]
pub struct CreateRequest {
    pub creator: Identity,
    pub mint: Identity,
    pub source_balance: u64,
    pub order_exists: bool,
    pub now: i64,
}

/// A mark-paid call: the signer, the order it targets, and the clock.
#[derive(Debug)]
pub struct MarkPaid {
    pub helper: Identity,
    pub order: Order,
    pub now: i64,
}

/// The first check that rejects a create call, if any.
pub open spec fn create_check(
    ctx: CreateRequest,
    amount: u64,
    fee_bps: u16,
    qr: Seq<char>,
) -> Option<OrderError> {
    if ctx.order_exists {
        Some(OrderError::DuplicateOrder)
    } else if amount == 0 {
        Some(OrderError::InvalidAmount)
    } else if fee_bps > BPS_DENOMINATOR {
        Some(OrderError::InvalidFee)
    } else if utf8_len(qr) > MAX_QR_LEN {
        Some(OrderError::QRTooLong)
    } else if ctx.source_balance < amount {
        Some(OrderError::InsufficientBalance)
    } else {
        None
    }
}

/// The first check that rejects a claim, if any.
pub open spec fn claim_check(o: Order, now: i64) -> Option<OrderError> {
    if !(o.status is Open) {
        Some(OrderError::InvalidStatus)
    } else if now >= o.expiry_ts {
        Some(OrderError::Expired)
    } else {
        None
    }
}

/// The order once `helper` has claimed it.
pub open spec fn claimed(o: Order, helper: Identity) -> Order {
    Order { status: Status::Claimed, helper: Some(helper), ..o }
}

/// The first check that rejects a mark-paid call, if any.
pub open spec fn mark_paid_check(o: Order, caller: Identity) -> Option<OrderError> {
    if !(o.status is Claimed) {
        Some(OrderError::InvalidStatus)
    } else if !o.is_helper(caller) {
        Some(OrderError::Unauthorized)
    } else {
        None
    }
}

/// The order once its helper has reported the payment. A supplied receipt
/// replaces the stored one; without one the stored receipt stays.
pub open spec fn marked_paid(o: Order, receipt_hash: Option<[u8; 32]>, now: i64) -> Order {
    Order {
        status: Status::PaidLocal,
        paid_at: Some(now),
        receipt_hash: if receipt_hash is Some { receipt_hash } else { o.receipt_hash },
        ..o
    }
}

/// The first check that rejects a release, if any.
pub open spec fn release_check(o: Order, caller: Identity) -> Option<OrderError> {
    if !(o.status is PaidLocal) {
        Some(OrderError::InvalidStatus)
    } else if !o.may_release(caller) {
        Some(OrderError::Unauthorized)
    } else {
        None
    }
}

/// The order once its escrow has gone to the helper.
pub open spec fn released(o: Order, now: i64) -> Order {
    Order { status: Status::Released, released_at: Some(now), ..o }
}

/// The first check that rejects a cancel, if any.
pub open spec fn cancel_check(o: Order, caller: Identity, now: i64) -> Option<OrderError> {
    if !(o.status is Open || o.status is Claimed) {
        Some(OrderError::InvalidStatus)
    } else if !(now >= o.expiry_ts || (caller == o.creator && o.status is Open)) {
        Some(OrderError::NotExpired)
    } else {
        None
    }
}

/// The order once its escrow has gone back to the creator.
pub open spec fn cancelled(o: Order) -> Order {
    Order { status: Status::Cancelled, ..o }
}

/// The first check that rejects raising a dispute, if any.
pub open spec fn dispute_check(o: Order, caller: Identity) -> Option<OrderError> {
    if !(o.status is PaidLocal) {
        Some(OrderError::InvalidStatus)
    } else if !(caller == o.creator || o.is_helper(caller)) {
        Some(OrderError::Unauthorized)
    } else {
        None
    }
}

/// The first check that rejects resolving a dispute, if any.
pub open spec fn resolve_check(o: Order, caller: Identity) -> Option<OrderError> {
    if !(o.status is Disputed) {
        Some(OrderError::InvalidStatus)
    } else if caller != o.arbiter {
        Some(OrderError::Unauthorized)
    } else {
        None
    }
}

/// Opens a new order in the Open state. On success the caller moves
/// `amount` tokens from the creator's account into the order's escrow.
pub fn create_request(
    ctx: &CreateRequest,
    amount: u64,
    expiry_ts: i64,
    fee_bps: u16,
    nonce: u64,
    qr_string: String,
) -> (r: Result<Order, OrderError>)
    ensures
        match r {
            Ok(o) => {
                &&& create_check(*ctx, amount, fee_bps, qr_string@) is None
                &&& o.wf()
                &&& o.creator == ctx.creator
                &&& o.helper is None
                &&& o.token_mint == ctx.mint
                &&& o.amount == amount
                &&& o.status is Open
                &&& o.created_at == ctx.now
                &&& o.expiry_ts == expiry_ts
                &&& o.paid_at is None
                &&& o.released_at is None
                &&& o.receipt_hash is None
                &&& o.fee_bps == fee_bps
                &&& o.arbiter == ctx.creator
                &&& o.nonce == nonce
                &&& o.qr_string@ == qr_string@
            },
            Err(e) => create_check(*ctx, amount, fee_bps, qr_string@) == Some(e),
        },
{
    if ctx.order_exists {
        return Err(OrderError::DuplicateOrder);
    }
    if amount == 0 {
        return Err(OrderError::InvalidAmount);
    }
    if fee_bps > BPS_DENOMINATOR {
        return Err(OrderError::InvalidFee);
    }
    if qr_string.as_str().len() > MAX_QR_LEN {
        return Err(OrderError::QRTooLong);
    }
    if ctx.source_balance < amount {
        return Err(OrderError::InsufficientBalance);
    }
    Ok(Order {
        creator: ctx.creator,
        helper: None,
        token_mint: ctx.mint,
        amount,
        status: Status::Open,
        created_at: ctx.now,
        expiry_ts,
        paid_at: None,
        released_at: None,
        receipt_hash: None,
        fee_bps,
        arbiter: ctx.creator,
        nonce,
        qr_string,
    })
}

/// The helper `caller` takes an Open order before its deadline.
pub fn claim(order: &mut Order, caller: Identity, now: i64) -> (r: Result<(), OrderError>)
    requires
        old(order).wf(),
    ensures
        final(order).wf(),
        match r {
            Ok(()) => claim_check(*old(order), now) is None && *final(order) == claimed(
                *old(order),
                caller,
            ),
            Err(e) => claim_check(*old(order), now) == Some(e) && *final(order) == *old(order),
        },
{
    if order.status != Status::Open {
        return Err(OrderError::InvalidStatus);
    }
    if now >= order.expiry_ts {
        return Err(OrderError::Expired);
    }
    order.status = Status::Claimed;
    order.helper = Some(caller);
    Ok(())
}

/// The claimed helper reports the off-chain payment, optionally with a
/// receipt digest as evidence.
pub fn mark_paid(ctx: &mut MarkPaid, receipt_hash: Option<[u8; 32]>) -> (r: Result<(), OrderError>)
    requires
        old(ctx).order.wf(),
    ensures
        final(ctx).order.wf(),
        final(ctx).helper == old(ctx).helper,
        final(ctx).now == old(ctx).now,
        match r {
            Ok(()) => mark_paid_check(old(ctx).order, old(ctx).helper) is None && final(ctx).order
                == marked_paid(old(ctx).order, receipt_hash, old(ctx).now),
            Err(e) => {
                &&& mark_paid_check(old(ctx).order, old(ctx).helper) == Some(e)
                &&& final(ctx).order == old(ctx).order
            },
        },
{
    if ctx.order.status != Status::Claimed {
        return Err(OrderError::InvalidStatus);
    }
    if !ctx.order.check_helper(&ctx.helper) {
        return Err(OrderError::Unauthorized);
    }
    ctx.order.status = Status::PaidLocal;
    ctx.order.paid_at = Some(ctx.now);
    if let Some(h) = receipt_hash {
        ctx.order.receipt_hash = Some(h);
    }
    Ok(())
}

/// The creator or the arbiter pays out a PaidLocal order: the helper gets
/// the amount less the fee, the fee destination gets the fee.
pub fn release(order: &mut Order, caller: Identity, now: i64) -> (r: Result<Payout, OrderError>)
    requires
        old(order).wf(),
    ensures
        final(order).wf(),
        match r {
            Ok(p) => {
                &&& release_check(*old(order), caller) is None
                &&& *final(order) == released(*old(order), now)
                &&& p == payout_of(old(order).amount, old(order).fee_bps)
            },
            Err(e) => release_check(*old(order), caller) == Some(e) && *final(order) == *old(order),
        },
{
    if order.status != Status::PaidLocal {
        return Err(OrderError::InvalidStatus);
    }
    if !order.check_releaser(&caller) {
        return Err(OrderError::Unauthorized);
    }
    let payout = split_amount(order.amount, order.fee_bps);
    order.status = Status::Released;
    order.released_at = Some(now);
    Ok(payout)
}

/// Cancels an Open or Claimed order and refunds the whole amount to the
/// creator: anyone may once the deadline has passed, the creator may before
/// that while the order is still Open.
pub fn cancel(order: &mut Order, caller: Identity, now: i64) -> (r: Result<u64, OrderError>)
    requires
        old(order).wf(),
    ensures
        final(order).wf(),
        match r {
            Ok(refund) => {
                &&& cancel_check(*old(order), caller, now) is None
                &&& *final(order) == cancelled(*old(order))
                &&& refund == old(order).amount
            },
            Err(e) => {
                &&& cancel_check(*old(order), caller, now) == Some(e)
                &&& *final(order) == *old(order)
            },
        },
{
    if order.status != Status::Open && order.status != Status::Claimed {
        return Err(OrderError::InvalidStatus);
    }
    if !(now >= order.expiry_ts || (caller.same_as(&order.creator) && order.status
        == Status::Open)) {
        return Err(OrderError::NotExpired);
    }
    order.status = Status::Cancelled;
    Ok(order.amount)
}

/// The creator or the helper contests a PaidLocal order, handing it to the
/// arbiter.
pub fn raise_dispute(order: &mut Order, caller: Identity) -> (r: Result<(), OrderError>)
    requires
        old(order).wf(),
    ensures
        final(order).wf(),
        match r {
            Ok(()) => dispute_check(*old(order), caller) is None && *final(order) == (Order {
                status: Status::Disputed,
                ..*old(order)
            }),
            Err(e) => dispute_check(*old(order), caller) == Some(e) && *final(order) == *old(order),
        },
{
    if order.status != Status::PaidLocal {
        return Err(OrderError::InvalidStatus);
    }
    if !(caller.same_as(&order.creator) || order.check_helper(&caller)) {
        return Err(OrderError::Unauthorized);
    }
    order.status = Status::Disputed;
    Ok(())
}

/// The arbiter settles a Disputed order, once: for the helper (paid out as a
/// release) or for the creator (full refund).
pub fn resolve_dispute(order: &mut Order, caller: Identity, pay_helper: bool, now: i64) -> (r:
    Result<Settlement, OrderError>)
    requires
        old(order).wf(),
    ensures
        final(order).wf(),
        match r {
            Ok(s) => {
                &&& resolve_check(*old(order), caller) is None
                &&& pay_helper ==> *final(order) == released(*old(order), now) && s
                    == Settlement::Paid(payout_of(old(order).amount, old(order).fee_bps))
                &&& !pay_helper ==> *final(order) == cancelled(*old(order)) && s
                    == Settlement::Refunded(old(order).amount)
            },
            Err(e) => resolve_check(*old(order), caller) == Some(e) && *final(order) == *old(order),
        },
{
    if order.status != Status::Disputed {
        return Err(OrderError::InvalidStatus);
    }
    if !caller.same_as(&order.arbiter) {
        return Err(OrderError::Unauthorized);
    }
    if pay_helper {
        let payout = split_amount(order.amount, order.fee_bps);
        order.status = Status::Released;
        order.released_at = Some(now);
        Ok(Settlement::Paid(payout))
    } else {
        order.status = Status::Cancelled;
        Ok(Settlement::Refunded(order.amount))
    }
}

} // verus!
