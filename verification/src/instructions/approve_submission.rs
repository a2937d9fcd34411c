use vstd::prelude::*;
use crate::errors::EscrowError;
use crate::events::SubmissionApproved;
use crate::state::{EscrowAccount, EscrowModel, EscrowStatus, Pubkey};
use crate::transitions::spec_approve;

verus! {

/// Marks the submitted work as accepted by the client. Only the stored
/// client may approve, and only a Submitted record; a rejected call changes
/// nothing. Approval moves no value: it makes the freelancer's withdrawal
/// possible.
pub fn approve_submission(
    record: &mut EscrowAccount,
    escrow_key: &Pubkey,
    signer: &Pubkey,
    now: i64,
) -> (res: Result<SubmissionApproved, EscrowError>)
    requires
        now > 0,
    ensures
        res matches Ok(ev) ==> {
            &&& spec_approve(old(record)@, signer@, now) == Ok::<_, EscrowError>(final(record)@)
            &&& ev.escrow_key@ == escrow_key@
            &&& ev.client@ == old(record)@.client
            &&& (old(record)@.wf() ==> final(record)@.wf())
        },
        res matches Err(e) ==> {
            &&& spec_approve(old(record)@, signer@, now) == Err::<EscrowModel, EscrowError>(e)
            &&& *final(record) == *old(record)
        },
{
    if !(*signer == record.client) {
        return Err(EscrowError::Unauthorized);
    }
    if !(record.status == EscrowStatus::Submitted) {
        return Err(EscrowError::InvalidStatus);
    }
    // Defense in depth against a closed record; a Submitted record is never
    // Complete, so the contract shows this guard cannot fire.
    if record.status == EscrowStatus::Complete {
        return Err(EscrowError::EscrowAlreadyComplete);
    }
    record.status = EscrowStatus::Approved;
    record.approved_at = now;
    let event = SubmissionApproved { escrow_key: *escrow_key, client: record.client };
    proof {
        let made = spec_approve(old(record)@, signer@, now);
        assert(made matches Ok(m) && m =~= record@);
    }
    Ok(event)
}

} // verus!
