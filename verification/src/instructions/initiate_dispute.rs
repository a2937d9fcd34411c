use vstd::prelude::*;
use crate::errors::EscrowError;
use crate::events::DisputeInitiated;
use crate::state::{EscrowAccount, EscrowModel, EscrowStatus, Pubkey};
use crate::transitions::spec_dispute;

verus! {

/// Freezes the record pending a refund decision. Only the stored client may
/// dispute - the freelancer has no dispute path - and only while the record
/// is Funded or Submitted; a rejected call changes nothing. The engine never
/// adjudicates a dispute: the only way out of Disputed is a refund.
pub fn initiate_dispute(
    record: &mut EscrowAccount,
    escrow_key: &Pubkey,
    signer: &Pubkey,
    now: i64,
) -> (res: Result<DisputeInitiated, EscrowError>)
    requires
        now > 0,
    ensures
        res matches Ok(ev) ==> {
            &&& spec_dispute(old(record)@, signer@, now) == Ok::<_, EscrowError>(final(record)@)
            &&& ev.escrow_key@ == escrow_key@
            &&& ev.initiator@ == old(record)@.client
            &&& (old(record)@.wf() ==> final(record)@.wf())
        },
        res matches Err(e) ==> {
            &&& spec_dispute(old(record)@, signer@, now) == Err::<EscrowModel, EscrowError>(e)
            &&& *final(record) == *old(record)
        },
{
    if !(*signer == record.client) {
        return Err(EscrowError::Unauthorized);
    }
    if !(record.status == EscrowStatus::Funded || record.status == EscrowStatus::Submitted) {
        return Err(EscrowError::InvalidStatus);
    }
    record.status = EscrowStatus::Disputed;
    record.disputed_at = now;
    let event = DisputeInitiated { escrow_key: *escrow_key, initiator: record.client };
    proof {
        let made = spec_dispute(old(record)@, signer@, now);
        assert(made matches Ok(m) && m =~= record@);
    }
    Ok(event)
}

} // verus!
