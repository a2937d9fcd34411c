use vstd::prelude::*;
use crate::errors::EscrowError;
use crate::events::FundsDeposited;
use crate::state::{EscrowSlot, EscrowStatus, Pubkey};
use crate::transitions::spec_deposit;

verus! {

/// Moves the full escrow amount from the client's balance into the slot and
/// marks the record Funded. Only the stored client may deposit, only into a
/// Pending record, and only from a balance covering the amount; a rejected
/// call changes nothing. The caller must have room in the slot for the
/// deposit, which holds whenever the two balances come from one value supply.
pub fn deposit_funds(
    slot: &mut EscrowSlot,
    escrow_key: &Pubkey,
    signer: &Pubkey,
    client_lamports: &mut u64,
    now: i64,
) -> (res: Result<FundsDeposited, EscrowError>)
    requires
        now > 0,
        old(slot).lamports + *old(client_lamports) <= u64::MAX,
    ensures
        res matches Ok(ev) ==> {
            &&& spec_deposit(old(slot)@, signer@, *old(client_lamports), now)
                == Ok::<_, EscrowError>((final(slot)@, *final(client_lamports)))
            &&& ev.escrow_key@ == escrow_key@
            &&& ev.amount == old(slot).record.amount
            &&& final(slot).lamports + *final(client_lamports) == old(slot).lamports + *old(
                client_lamports,
            )
            &&& final(slot).lamports == old(slot).lamports + old(slot).record.amount
            &&& (old(slot).record@.wf() ==> final(slot).record@.wf())
        },
        res matches Err(e) ==> {
            &&& spec_deposit(old(slot)@, signer@, *old(client_lamports), now)
                == Err::<(crate::state::SlotModel, u64), EscrowError>(e)
            &&& *final(slot) == *old(slot)
            &&& *final(client_lamports) == *old(client_lamports)
        },
{
    if !(*signer == slot.record.client) {
        return Err(EscrowError::Unauthorized);
    }
    if !(slot.record.status == EscrowStatus::Pending) {
        return Err(EscrowError::InvalidStatus);
    }
    let amount = slot.record.amount;
    if *client_lamports < amount {
        return Err(EscrowError::InsufficientFunds);
    }
    *client_lamports = *client_lamports - amount;
    slot.lamports = slot.lamports + amount;
    slot.record.status = EscrowStatus::Funded;
    slot.record.funded_at = now;
    let event = FundsDeposited { escrow_key: *escrow_key, amount };
    proof {
        let made = spec_deposit(old(slot)@, signer@, *old(client_lamports), now);
        assert(made matches Ok(out) && out.0 =~= slot@ && out.1 == *client_lamports);
    }
    Ok(event)
}

} // verus!
