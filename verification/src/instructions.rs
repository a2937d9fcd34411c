//! The seven operation handlers, one per state-machine transition. Each
//! validates authorization and preconditions before any mutation, so a
//! rejected call leaves the record and the balances exactly as they were.

pub mod approve_submission;
pub mod deposit_funds;
pub mod initialize_escrow;
pub mod initiate_dispute;
pub mod refund_client;
pub mod submit_work;
pub mod withdraw_payment;

pub use approve_submission::approve_submission;
pub use deposit_funds::deposit_funds;
pub use initialize_escrow::initialize_escrow;
pub use initiate_dispute::initiate_dispute;
pub use refund_client::refund_client;
pub use submit_work::submit_work;
pub use withdraw_payment::withdraw_payment;
