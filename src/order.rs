use vstd::prelude::*;
use vstd::utf8::encode_utf8;
use crate::identity::Identity;

verus! {

/// Fees are expressed in basis points: this many make the whole amount.
pub const BPS_DENOMINATOR: u16 = 10000;

/// Longest payment payload an order may carry, in UTF-8 bytes.
pub const MAX_QR_LEN: usize = 200;

/// Where an order stands in its lifecycle.
#[derive(Clone, Copy, Debug, PartialEq, Eq, Structural)]
pub enum Status {
    Open,
    Claimed,
    PaidLocal,
    Released,
    Cancelled,
    Disputed,
}

/// Why a transition was rejected.
#[derive(Clone, Copy, Debug, PartialEq, Eq, Structural)]
pub enum OrderError {
    InvalidAmount,
    InvalidFee,
    QRTooLong,
    InsufficientBalance,
    DuplicateOrder,
    InvalidStatus,
    Unauthorized,
    Expired,
    NotExpired,
}

/// One escrow agreement.
#[derive(Debug)]
pub struct Order {
    pub creator: Identity,
    pub helper: Option<Identity>,
    pub token_mint: Identity,
    pub amount: u64,
    pub status: Status,
    pub created_at: i64,
    pub expiry_ts: i64,
    pub paid_at: Option<i64>,
    pub released_at: Option<i64>,
    pub receipt_hash: Option<[u8; 32]>,
    pub fee_bps: u16,
    pub arbiter: Identity,
    pub nonce: u64,
    pub qr_string: String,
}

/// The two movements out of escrow when an order is released.
#[derive(Clone, Copy, Debug, PartialEq, Eq, Structural)]
pub struct Payout {
    /// Tokens credited to the helper.
    pub to_helper: u64,
    /// Tokens credited to the fee destination.
    pub fee: u64,
}

/// How a resolved dispute disposes of the escrow.
#[derive(Clone, Copy, Debug, PartialEq, Eq, Structural)]
pub enum Settlement {
    /// Paid out to the helper, less the fee.
    Paid(Payout),
    /// The whole amount goes back to the creator.
    Refunded(u64),
}

/// Length of a payload in UTF-8 code units, as `str::len` reports it.
pub open spec fn utf8_len(s: Seq<char>) -> usize {
    encode_utf8(s).len() as usize
}

/// The fee withheld on release: `amount * fee_bps / 10000`, rounded down.
pub open spec fn fee_of(amount: u64, fee_bps: u16) -> int {
    (amount as int * fee_bps as int) / (BPS_DENOMINATOR as int)
}

/// What a release hands out.
pub open spec fn payout_of(amount: u64, fee_bps: u16) -> Payout {
    Payout { to_helper: (amount - fee_of(amount, fee_bps)) as u64, fee: fee_of(amount, fee_bps) as u64 }
}

/// Released and Cancelled end an order's life.
pub open spec fn is_terminal(s: Status) -> bool {
    s is Released || s is Cancelled
}

impl Order {
    /// The record invariants that every transition preserves. A cancelled
    /// order keeps whatever helper and payment time it had.
    pub open spec fn wf(&self) -> bool {
        &&& self.amount > 0
        &&& self.fee_bps <= BPS_DENOMINATOR
        &&& utf8_len(self.qr_string@) <= MAX_QR_LEN
        &&& (self.status is Open ==> self.helper is None)
        &&& (self.status is Claimed || self.status is PaidLocal || self.status is Disputed
            || self.status is Released ==> self.helper is Some)
        &&& (self.status is Open || self.status is Claimed ==> self.paid_at is None)
        &&& (self.status is PaidLocal || self.status is Disputed || self.status is Released
            ==> self.paid_at is Some)
        &&& (self.released_at is Some <==> self.status is Released)
    }

    /// `who` is the counterparty that claimed this order.
    pub open spec fn is_helper(&self, who: Identity) -> bool {
        self.helper == Some(who)
    }

    /// `who` may release the escrow to the helper.
    pub open spec fn may_release(&self, who: Identity) -> bool {
        who == self.creator || who == self.arbiter
    }
}

impl Order {
    /// Whether a record read from storage meets the invariants.
    pub fn is_valid(&self) -> (r: bool)
        ensures
            r == self.wf(),
    {
        let paid = self.paid_at.is_some();
        let has_helper = self.helper.is_some();
        self.amount > 0 && self.fee_bps <= BPS_DENOMINATOR && self.qr_string.as_str().len()
            <= MAX_QR_LEN && match self.status {
            Status::Open => !has_helper && !paid,
            Status::Claimed => has_helper && !paid,
            Status::PaidLocal | Status::Disputed => has_helper && paid,
            Status::Released => has_helper && paid,
            Status::Cancelled => true,
        } && (self.released_at.is_some() == (self.status == Status::Released))
    }

    /// Whether `who` is the helper that claimed this order.
    pub fn check_helper(&self, who: &Identity) -> (r: bool)
        ensures
            r == self.is_helper(*who),
    {
        match &self.helper {
            Some(h) => h.same_as(who),
            None => false,
        }
    }

    /// Whether `who` may release this order's escrow.
    pub fn check_releaser(&self, who: &Identity) -> (r: bool)
        ensures
            r == self.may_release(*who),
    {
        who.same_as(&self.creator) || who.same_as(&self.arbiter)
    }
}

/// Computes the fee and the helper's share of `amount`; they add up to `amount`.
pub fn split_amount(amount: u64, fee_bps: u16) -> (r: Payout)
    requires
        fee_bps <= BPS_DENOMINATOR,
    ensures
        r == payout_of(amount, fee_bps),
        r.to_helper + r.fee == amount,
{
    proof {
        assert(amount as u128 * fee_bps as u128 <= u64::MAX as u128 * 10000) by (nonlinear_arith)
            requires
                fee_bps <= 10000,
        ;
    }
    let product: u128 = (amount as u128) * (fee_bps as u128);
    let fee_wide: u128 = product / (BPS_DENOMINATOR as u128);
    proof {
        assert(amount as int * fee_bps as int <= amount as int * 10000) by (nonlinear_arith)
            requires
                fee_bps <= 10000,
        ;
        assert(fee_wide <= amount) by (nonlinear_arith)
            requires
                fee_wide == product / 10000,
                product <= amount as int * 10000,
        ;
    }
    let fee: u64 = fee_wide as u64;
    Payout { to_helper: amount - fee, fee }
}

} // verus!
