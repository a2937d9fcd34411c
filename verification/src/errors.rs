use vstd::prelude::*;

verus! {

/// The error taxonomy of the escrow engine. Every rejected operation surfaces
/// exactly one of these kinds; a rejection never mutates the record.
#[derive(Clone, Copy, PartialEq, Eq, Structural, Debug)]
pub enum EscrowError {
    /// The record's status does not admit the attempted transition.
    InvalidStatus,
    /// The caller is not the actor that owns the attempted transition.
    Unauthorized,
    /// The client's balance is below the escrow amount at deposit time.
    InsufficientFunds,
    /// A zero amount at creation, or timestamp arithmetic overflowed.
    InvalidAmount,
    /// The submitted work link is empty after trimming.
    InvalidWorkLink,
    /// The submitted work link exceeds the scalar-count or byte-length bound.
    WorkLinkTooLong,
    /// A transition was re-attempted on a record already past it.
    EscrowAlreadyComplete,
    /// The dispute timeout is outside the accepted range of days.
    InvalidTimeout,
}

} // verus!
