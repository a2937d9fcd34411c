use vstd::prelude::*;
use vstd::pervasive::unreached;
use crate::errors::EscrowError;
use crate::events::PaymentWithdrawn;
use crate::state::{EscrowModel, EscrowSlot, EscrowStatus, Pubkey};
use crate::transitions::spec_withdraw;

verus! {

/// Pays the freelancer and closes the record. Only the stored freelancer may
/// withdraw, and only from an Approved record; a rejected call changes
/// nothing. On success the slot's entire held balance - the escrow amount
/// plus any residue custodied with it - is added to the freelancer's balance,
/// the record reaches Complete, and the slot is gone: no record remains. The
/// caller must have room in the freelancer's balance for the payout, which
/// holds whenever the two balances come from one value supply.
pub fn withdraw_payment(
    slot: &mut Option<EscrowSlot>,
    escrow_key: &Pubkey,
    signer: &Pubkey,
    freelancer_lamports: &mut u64,
    now: i64,
) -> (res: Result<PaymentWithdrawn, EscrowError>)
    requires
        now > 0,
        *old(slot) is Some,
        (*old(slot))->Some_0.lamports + *old(freelancer_lamports) <= u64::MAX,
    ensures
        res matches Ok(ev) ==> {
            &&& spec_withdraw((*old(slot))->Some_0@, signer@, *old(freelancer_lamports), now)
                matches Ok(out) && out.1 == *final(freelancer_lamports)
            &&& *final(slot) is None
            &&& *final(freelancer_lamports) == *old(freelancer_lamports) + (*old(slot))->Some_0.lamports
            &&& ev.escrow_key@ == escrow_key@
            &&& ev.freelancer@ == (*old(slot))->Some_0.record@.freelancer
            &&& ev.amount == (*old(slot))->Some_0.record.amount
        },
        res matches Err(e) ==> {
            &&& spec_withdraw((*old(slot))->Some_0@, signer@, *old(freelancer_lamports), now)
                == Err::<(EscrowModel, u64), EscrowError>(e)
            &&& *final(slot) == *old(slot)
            &&& *final(freelancer_lamports) == *old(freelancer_lamports)
        },
{
    let mut s = match slot.take() {
        Some(s) => s,
        None => unreached(),
    };
    if !(*signer == s.record.freelancer) {
        *slot = Some(s);
        return Err(EscrowError::Unauthorized);
    }
    if !(s.record.status == EscrowStatus::Approved) {
        *slot = Some(s);
        return Err(EscrowError::InvalidStatus);
    }
    s.record.status = EscrowStatus::Complete;
    s.record.completed_at = now;
    let event = PaymentWithdrawn {
        escrow_key: *escrow_key,
        freelancer: s.record.freelancer,
        amount: s.record.amount,
    };
    *freelancer_lamports = *freelancer_lamports + s.lamports;
    Ok(event)
}

} // verus!
