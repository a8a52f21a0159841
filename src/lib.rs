//! Peer-to-peer escrow orders: one party locks a token amount, a helper settles
//! the matching payment off-chain, and the escrow is released or refunded
//! according to a verified lifecycle state machine.

mod identity;
mod order;
mod instructions;
mod laws;

pub use identity::Identity;
pub use order::{split_amount, Order, OrderError, Payout, Settlement, Status, BPS_DENOMINATOR, MAX_QR_LEN};
pub use instructions::{
    cancel, claim, create_request, mark_paid, raise_dispute, release, resolve_dispute,
    CreateRequest, MarkPaid,
};
pub use laws::{
    lemma_create_rejects_invalid, lemma_mark_paid_gate, lemma_release_conserves,
    lemma_release_only_once, lemma_terminal_is_final,
};
