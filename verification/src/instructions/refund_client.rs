use vstd::prelude::*;
use vstd::pervasive::unreached;
use crate::errors::EscrowError;
use crate::events::ClientRefunded;
use crate::state::{EscrowModel, EscrowSlot, EscrowStatus, Pubkey};
use crate::transitions::{spec_refund, SECONDS_PER_DAY};

verus! {

/// Returns the held funds to the client and closes the record. Only the
/// stored client may be refunded, and only from a Disputed record, or from a
/// Funded one once the grace period has elapsed - the safety valve against a
/// freelancer who never submits. The deadline is computed with checked
/// arithmetic: a funded record whose deadline would overflow the time type
/// is rejected as InvalidAmount before the status is consulted. A rejected
/// call changes nothing. On success the slot's entire held balance is added
/// to the client's balance, the record reaches Refunded, and the slot is
/// gone: no record remains. The caller must have room in the client's
/// balance for the refund, which holds whenever the two balances come from
/// one value supply.
pub fn refund_client(
    slot: &mut Option<EscrowSlot>,
    escrow_key: &Pubkey,
    signer: &Pubkey,
    client_lamports: &mut u64,
    now: i64,
) -> (res: Result<ClientRefunded, EscrowError>)
    requires
        now > 0,
        *old(slot) is Some,
        (*old(slot))->Some_0.lamports + *old(client_lamports) <= u64::MAX,
    ensures
        res matches Ok(ev) ==> {
            &&& spec_refund((*old(slot))->Some_0@, signer@, *old(client_lamports), now)
                matches Ok(out) && out.1 == *final(client_lamports)
            &&& *final(slot) is None
            &&& *final(client_lamports) == *old(client_lamports) + (*old(slot))->Some_0.lamports
            &&& ev.escrow_key@ == escrow_key@
            &&& ev.client@ == (*old(slot))->Some_0.record@.client
            &&& ev.amount == (*old(slot))->Some_0.record.amount
        },
        res matches Err(e) ==> {
            &&& spec_refund((*old(slot))->Some_0@, signer@, *old(client_lamports), now)
                == Err::<(EscrowModel, u64), EscrowError>(e)
            &&& *final(slot) == *old(slot)
            &&& *final(client_lamports) == *old(client_lamports)
        },
{
    let mut s = match slot.take() {
        Some(s) => s,
        None => unreached(),
    };
    if !(*signer == s.record.client) {
        *slot = Some(s);
        return Err(EscrowError::Unauthorized);
    }
    let timeout_seconds: i64 = (s.record.dispute_timeout_days as i64) * SECONDS_PER_DAY;
    let mut funding_timeout_passed = false;
    if s.record.funded_at > 0 {
        match s.record.funded_at.checked_add(timeout_seconds) {
            Some(deadline) => {
                funding_timeout_passed = now >= deadline;
            },
            None => {
                *slot = Some(s);
                return Err(EscrowError::InvalidAmount);
            },
        }
    }
    if !(s.record.status == EscrowStatus::Disputed || (s.record.status == EscrowStatus::Funded
        && funding_timeout_passed)) {
        *slot = Some(s);
        return Err(EscrowError::InvalidStatus);
    }
    s.record.status = EscrowStatus::Refunded;
    s.record.refunded_at = now;
    let event = ClientRefunded {
        escrow_key: *escrow_key,
        client: s.record.client,
        amount: s.record.amount,
    };
    *client_lamports = *client_lamports + s.lamports;
    Ok(event)
}

} // verus!
