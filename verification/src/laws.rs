use vstd::prelude::*;
use vstd::utf8::encode_utf8;
use crate::errors::EscrowError;
use crate::state::{EscrowModel, EscrowStatus, SlotModel};
use crate::transitions::{
    refund_deadline, spec_approve, spec_deposit, spec_dispute, spec_initialize, spec_refund,
    spec_submit_work, spec_withdraw, MAX_TIMEOUT_DAYS, MAX_WORK_LINK_BYTES, MAX_WORK_LINK_CHARS,
};

verus! {

/// For every valid request - a positive amount and a timeout within range -
/// creating a record and then depositing from a sufficient balance yields a
/// Funded record whose slot holds exactly the escrow amount, taken from the
/// client's balance.
pub proof fn lemma_initialize_then_deposit(
    client: Seq<u8>,
    freelancer: Seq<u8>,
    amount: u64,
    dispute_timeout_days: u8,
    bump: u8,
    created_now: i64,
    funded_now: i64,
    client_lamports: u64,
)
    requires
        amount > 0,
        1 <= dispute_timeout_days <= MAX_TIMEOUT_DAYS,
        client_lamports >= amount,
    ensures
        ({
            let created = spec_initialize(
                client,
                freelancer,
                amount,
                dispute_timeout_days,
                bump,
                created_now,
            );
            &&& created is Ok
            &&& {
                let funded = spec_deposit(
                    SlotModel { record: created->Ok_0, lamports: 0 },
                    client,
                    client_lamports,
                    funded_now,
                );
                &&& funded is Ok
                &&& funded->Ok_0.0.record.status == EscrowStatus::Funded
                &&& funded->Ok_0.0.lamports == amount
                &&& funded->Ok_0.1 == client_lamports - amount
            }
        }),
{
}

/// Every operation called with the right actor but the wrong prior status is
/// rejected as InvalidStatus. For work submission the claim holds of any link
/// that passes the text bounds, since a bad link is reported first; for a
/// refund it holds once neither refund path - dispute or elapsed timeout -
/// is open and the deadline arithmetic does not overflow, since those cases
/// are reported as their own kinds.
pub proof fn lemma_wrong_status_rejected(
    slot: SlotModel,
    trimmed: Seq<char>,
    client_lamports: u64,
    freelancer_lamports: u64,
    now: i64,
)
    requires
        0 < trimmed.len() <= MAX_WORK_LINK_CHARS,
        encode_utf8(trimmed).len() <= MAX_WORK_LINK_BYTES,
    ensures
        slot.record.status != EscrowStatus::Pending ==> spec_deposit(
            slot,
            slot.record.client,
            client_lamports,
            now,
        ) == Err::<(SlotModel, u64), EscrowError>(EscrowError::InvalidStatus),
        slot.record.status != EscrowStatus::Funded ==> spec_submit_work(
            slot.record,
            slot.record.freelancer,
            trimmed,
            now,
        ) == Err::<EscrowModel, EscrowError>(EscrowError::InvalidStatus),
        slot.record.status != EscrowStatus::Submitted ==> spec_approve(
            slot.record,
            slot.record.client,
            now,
        ) == Err::<EscrowModel, EscrowError>(EscrowError::InvalidStatus),
        !(slot.record.status == EscrowStatus::Funded || slot.record.status
            == EscrowStatus::Submitted) ==> spec_dispute(slot.record, slot.record.client, now)
            == Err::<EscrowModel, EscrowError>(EscrowError::InvalidStatus),
        slot.record.status != EscrowStatus::Approved ==> spec_withdraw(
            slot,
            slot.record.freelancer,
            freelancer_lamports,
            now,
        ) == Err::<(EscrowModel, u64), EscrowError>(EscrowError::InvalidStatus),
        (slot.record.status != EscrowStatus::Disputed && !(slot.record.status
            == EscrowStatus::Funded && slot.record.funded_at > 0 && now as int >= refund_deadline(
            slot.record,
        )) && !(slot.record.funded_at > 0 && refund_deadline(slot.record) > i64::MAX as int))
            ==> spec_refund(slot, slot.record.client, client_lamports, now) == Err::<
            (EscrowModel, u64),
            EscrowError,
        >(EscrowError::InvalidStatus),
{
}

/// Every operation called by an identity other than its authorized actor -
/// the stored client or the stored freelancer, per operation - is rejected
/// as Unauthorized, whatever the record's status and the other arguments.
pub proof fn lemma_unauthorized_rejected(
    slot: SlotModel,
    signer: Seq<u8>,
    trimmed: Seq<char>,
    client_lamports: u64,
    freelancer_lamports: u64,
    now: i64,
)
    ensures
        signer != slot.record.client ==> spec_deposit(slot, signer, client_lamports, now) == Err::<
            (SlotModel, u64),
            EscrowError,
        >(EscrowError::Unauthorized),
        signer != slot.record.freelancer ==> spec_submit_work(slot.record, signer, trimmed, now)
            == Err::<EscrowModel, EscrowError>(EscrowError::Unauthorized),
        signer != slot.record.client ==> spec_approve(slot.record, signer, now) == Err::<
            EscrowModel,
            EscrowError,
        >(EscrowError::Unauthorized),
        signer != slot.record.client ==> spec_dispute(slot.record, signer, now) == Err::<
            EscrowModel,
            EscrowError,
        >(EscrowError::Unauthorized),
        signer != slot.record.freelancer ==> spec_withdraw(slot, signer, freelancer_lamports, now)
            == Err::<(EscrowModel, u64), EscrowError>(EscrowError::Unauthorized),
        signer != slot.record.client ==> spec_refund(slot, signer, client_lamports, now) == Err::<
            (EscrowModel, u64),
            EscrowError,
        >(EscrowError::Unauthorized),
{
}

/// Every successful transition follows one edge of the lifecycle graph
/// forward - Pending to Funded to Submitted to Approved to Complete, with
/// the dispute and timeout branches into Disputed and Refunded - and no
/// operation ever moves a record back to an earlier state. In particular no
/// operation succeeds on a terminal record.
pub proof fn lemma_status_advances(
    slot: SlotModel,
    signer: Seq<u8>,
    trimmed: Seq<char>,
    client_lamports: u64,
    freelancer_lamports: u64,
    now: i64,
)
    ensures
        spec_deposit(slot, signer, client_lamports, now) matches Ok(out) ==> slot.record.status
            == EscrowStatus::Pending && out.0.record.status == EscrowStatus::Funded,
        spec_submit_work(slot.record, signer, trimmed, now) matches Ok(m) ==> slot.record.status
            == EscrowStatus::Funded && m.status == EscrowStatus::Submitted,
        spec_approve(slot.record, signer, now) matches Ok(m) ==> slot.record.status
            == EscrowStatus::Submitted && m.status == EscrowStatus::Approved,
        spec_dispute(slot.record, signer, now) matches Ok(m) ==> (slot.record.status
            == EscrowStatus::Funded || slot.record.status == EscrowStatus::Submitted) && m.status
            == EscrowStatus::Disputed,
        spec_withdraw(slot, signer, freelancer_lamports, now) matches Ok(out) ==> slot.record.status
            == EscrowStatus::Approved && out.0.status == EscrowStatus::Complete,
        spec_refund(slot, signer, client_lamports, now) matches Ok(out) ==> (slot.record.status
            == EscrowStatus::Disputed || slot.record.status == EscrowStatus::Funded) && out.0.status
            == EscrowStatus::Refunded,
{
}

/// The parties, the escrow amount, the grace period and the derivation tag
/// are fixed at creation: no transition of a well-formed record changes any
/// of them, and none resets a timestamp that an earlier transition set.
pub proof fn lemma_fixed_fields_never_change(m: EscrowModel, after: EscrowModel)
    requires
        m.wf(),
        ({
            ||| exists|signer: Seq<u8>, bal: u64, now: i64, l: u64|
                #[trigger] spec_deposit(SlotModel { record: m, lamports: l }, signer, bal, now)
                    matches Ok(out) && out.0.record == after
            ||| exists|signer: Seq<u8>, trimmed: Seq<char>, now: i64|
                #[trigger] spec_submit_work(m, signer, trimmed, now) matches Ok(r) && r == after
            ||| exists|signer: Seq<u8>, now: i64|
                #[trigger] spec_approve(m, signer, now) matches Ok(r) && r == after
            ||| exists|signer: Seq<u8>, now: i64|
                #[trigger] spec_dispute(m, signer, now) matches Ok(r) && r == after
            ||| exists|signer: Seq<u8>, bal: u64, now: i64, l: u64|
                #[trigger] spec_withdraw(SlotModel { record: m, lamports: l }, signer, bal, now)
                    matches Ok(out) && out.0 == after
            ||| exists|signer: Seq<u8>, bal: u64, now: i64, l: u64|
                #[trigger] spec_refund(SlotModel { record: m, lamports: l }, signer, bal, now)
                    matches Ok(out) && out.0 == after
        }),
    ensures
        after.client == m.client,
        after.freelancer == m.freelancer,
        after.amount == m.amount,
        after.dispute_timeout_days == m.dispute_timeout_days,
        after.bump == m.bump,
        after.created_at == m.created_at,
        m.funded_at != 0 ==> after.funded_at == m.funded_at,
        m.submitted_at != 0 ==> after.submitted_at == m.submitted_at,
        m.approved_at != 0 ==> after.approved_at == m.approved_at,
        m.completed_at != 0 ==> after.completed_at == m.completed_at,
        m.disputed_at != 0 ==> after.disputed_at == m.disputed_at,
        m.refunded_at != 0 ==> after.refunded_at == m.refunded_at,
{
}

/// A withdrawal by the stored freelancer from an Approved record always
/// succeeds, pays out the slot's entire held balance - not merely the
/// nominal amount - and closes the record as Complete.
pub proof fn lemma_withdraw_pays_in_full(slot: SlotModel, freelancer_lamports: u64, now: i64)
    requires
        slot.record.status == EscrowStatus::Approved,
        freelancer_lamports + slot.lamports <= u64::MAX,
    ensures
        ({
            let r = spec_withdraw(slot, slot.record.freelancer, freelancer_lamports, now);
            &&& r is Ok
            &&& r->Ok_0.0.status == EscrowStatus::Complete
            &&& r->Ok_0.1 == freelancer_lamports + slot.lamports
        }),
{
}

/// A refund by the stored client succeeds on a Disputed record at any time,
/// and on a Funded record once the grace period has elapsed, paying back the
/// slot's entire held balance; on a Funded record before the deadline it is
/// rejected as InvalidStatus. Stated for records whose deadline fits the
/// time type: a funded record whose deadline overflows is rejected as
/// InvalidAmount instead.
pub proof fn lemma_refund_conditions(slot: SlotModel, client_lamports: u64, now: i64)
    requires
        refund_deadline(slot.record) <= i64::MAX as int,
        client_lamports + slot.lamports <= u64::MAX,
    ensures
        slot.record.status == EscrowStatus::Disputed ==> ({
            let r = spec_refund(slot, slot.record.client, client_lamports, now);
            &&& r is Ok
            &&& r->Ok_0.0.status == EscrowStatus::Refunded
            &&& r->Ok_0.1 == client_lamports + slot.lamports
        }),
        (slot.record.status == EscrowStatus::Funded && slot.record.funded_at > 0 && now as int
            >= refund_deadline(slot.record)) ==> ({
            let r = spec_refund(slot, slot.record.client, client_lamports, now);
            &&& r is Ok
            &&& r->Ok_0.0.status == EscrowStatus::Refunded
            &&& r->Ok_0.1 == client_lamports + slot.lamports
        }),
        (slot.record.status == EscrowStatus::Funded && (now as int) < refund_deadline(slot.record))
            ==> spec_refund(slot, slot.record.client, client_lamports, now) == Err::<
            (EscrowModel, u64),
            EscrowError,
        >(EscrowError::InvalidStatus),
{
}

} // verus!
