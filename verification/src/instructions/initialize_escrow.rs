use vstd::prelude::*;
use crate::errors::EscrowError;
use crate::events::EscrowInitialized;
use crate::state::{EscrowAccount, EscrowModel, EscrowSlot, EscrowStatus, Pubkey};
use crate::transitions::{spec_initialize, MAX_TIMEOUT_DAYS};

verus! {

/// Creates the escrow record for one client-freelancer engagement: a Pending
/// record holding the agreed amount and grace period, in a slot that does not
/// yet hold any value. The caller is the client; the substrate that derived
/// the slot's address supplies `escrow_key` and `bump`.
pub fn initialize_escrow(
    escrow_key: &Pubkey,
    client: &Pubkey,
    freelancer: &Pubkey,
    amount: u64,
    dispute_timeout_days: u8,
    bump: u8,
    now: i64,
) -> (res: Result<(EscrowSlot, EscrowInitialized), EscrowError>)
    requires
        now > 0,
    ensures
        res matches Ok(out) ==> {
            &&& spec_initialize(client@, freelancer@, amount, dispute_timeout_days, bump, now)
                == Ok::<EscrowModel, EscrowError>(out.0.record@)
            &&& out.0.lamports == 0
            &&& out.0.record@.wf()
            &&& out.1.escrow_key@ == escrow_key@
            &&& out.1.client@ == client@
            &&& out.1.freelancer@ == freelancer@
            &&& out.1.amount == amount
        },
        res matches Err(e) ==> spec_initialize(
            client@,
            freelancer@,
            amount,
            dispute_timeout_days,
            bump,
            now,
        ) == Err::<EscrowModel, EscrowError>(e),
{
    if amount == 0 {
        return Err(EscrowError::InvalidAmount);
    }
    if dispute_timeout_days < 1 || dispute_timeout_days > MAX_TIMEOUT_DAYS {
        return Err(EscrowError::InvalidTimeout);
    }
    let record = EscrowAccount {
        client: *client,
        freelancer: *freelancer,
        amount,
        status: EscrowStatus::Pending,
        work_link: String::new(),
        bump,
        created_at: now,
        funded_at: 0,
        submitted_at: 0,
        approved_at: 0,
        completed_at: 0,
        disputed_at: 0,
        refunded_at: 0,
        dispute_timeout_days,
    };
    let event = EscrowInitialized {
        escrow_key: *escrow_key,
        client: *client,
        freelancer: *freelancer,
        amount,
    };
    let slot = EscrowSlot { record, lamports: 0 };
    proof {
        let made = spec_initialize(client@, freelancer@, amount, dispute_timeout_days, bump, now);
        assert(made matches Ok(m) && m =~= slot.record@);
    }
    Ok((slot, event))
}

} // verus!
