use vstd::prelude::*;
use crate::state::Pubkey;

verus! {

/// Emitted when a record is created: who engaged whom, for how much.
#[derive(Clone, Debug)]
pub struct EscrowInitialized {
    pub escrow_key: Pubkey,
    pub client: Pubkey,
    pub freelancer: Pubkey,
    pub amount: u64,
}

/// Emitted when the client funds the record.
#[derive(Clone, Debug)]
pub struct FundsDeposited {
    pub escrow_key: Pubkey,
    pub amount: u64,
}

/// Emitted when the freelancer submits proof of work.
#[derive(Clone, Debug)]
pub struct WorkSubmitted {
    pub escrow_key: Pubkey,
    pub freelancer: Pubkey,
    pub work_link: String,
}

/// Emitted when the client approves the submission.
#[derive(Clone, Debug)]
pub struct SubmissionApproved {
    pub escrow_key: Pubkey,
    pub client: Pubkey,
}

/// Emitted when the freelancer withdraws the payment and the record closes.
#[derive(Clone, Debug)]
pub struct PaymentWithdrawn {
    pub escrow_key: Pubkey,
    pub freelancer: Pubkey,
    pub amount: u64,
}

/// Emitted when the client raises a dispute.
#[derive(Clone, Debug)]
pub struct DisputeInitiated {
    pub escrow_key: Pubkey,
    pub initiator: Pubkey,
}

/// Emitted when the client is refunded and the record closes.
#[derive(Clone, Debug)]
pub struct ClientRefunded {
    pub escrow_key: Pubkey,
    pub client: Pubkey,
    pub amount: u64,
}

} // verus!
