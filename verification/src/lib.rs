//! A verified escrow engine for a freelance-payment lifecycle.
//!
//! A client deposits funds for a freelancer; the freelancer submits proof of
//! work; the client approves, disputes, or lets a timeout lapse; funds are
//! released in full to exactly one side. This crate holds the state machine,
//! the per-transition authorization checks, and the value-movement rules,
//! each with a verified contract. The storage substrate that persists records
//! and actually moves value is an external collaborator: callers hand the
//! engine the record, the caller's identity, the relevant balances and the
//! current time, and apply the returned effects.

pub mod errors;
pub mod events;
pub mod instructions;
pub mod laws;
pub mod state;
pub mod transitions;

pub use errors::EscrowError;
pub use instructions::{
    approve_submission, deposit_funds, initialize_escrow, initiate_dispute, refund_client,
    submit_work, withdraw_payment,
};
pub use events::{
    ClientRefunded, DisputeInitiated, EscrowInitialized, FundsDeposited, PaymentWithdrawn,
    SubmissionApproved, WorkSubmitted,
};
pub use state::{EscrowAccount, EscrowSlot, EscrowStatus, Pubkey};
