use vstd::prelude::*;
use vstd::utf8::encode_utf8;
use crate::errors::EscrowError;
use crate::state::{EscrowModel, EscrowStatus, SlotModel};

verus! {

/// Upper bound on the work link, in Unicode scalar values.
pub const MAX_WORK_LINK_CHARS: usize = 200;

/// Upper bound on the work link, in UTF-8 bytes of the persisted form.
pub const MAX_WORK_LINK_BYTES: usize = 600;

/// Largest accepted dispute timeout, in days.
pub const MAX_TIMEOUT_DAYS: u8 = 90;

/// Seconds in one day; converts `dispute_timeout_days` to seconds.
pub const SECONDS_PER_DAY: i64 = 86400;

/// The moment from which the client may reclaim a funded record without a
/// dispute: funding time plus the grace period, as unbounded integers.
pub open spec fn refund_deadline(m: EscrowModel) -> int {
    m.funded_at as int + (m.dispute_timeout_days as int) * (SECONDS_PER_DAY as int)
}

/// Outcome of `initialize_escrow`: the record a valid request creates, or the
/// error that rejects an invalid one. Checks run in the order amount, then
/// timeout; a fresh record is Pending, unfunded, with an empty work link and
/// only its creation time set.
pub open spec fn spec_initialize(
    client: Seq<u8>,
    freelancer: Seq<u8>,
    amount: u64,
    dispute_timeout_days: u8,
    bump: u8,
    now: i64,
) -> Result<EscrowModel, EscrowError> {
    if amount == 0 {
        Err(EscrowError::InvalidAmount)
    } else if !(1 <= dispute_timeout_days <= MAX_TIMEOUT_DAYS) {
        Err(EscrowError::InvalidTimeout)
    } else {
        Ok(
            EscrowModel {
                client,
                freelancer,
                amount,
                status: EscrowStatus::Pending,
                work_link: Seq::<char>::empty(),
                bump,
                created_at: now,
                funded_at: 0,
                submitted_at: 0,
                approved_at: 0,
                completed_at: 0,
                disputed_at: 0,
                refunded_at: 0,
                dispute_timeout_days,
            },
        )
    }
}

/// Outcome of `deposit_funds` on a slot: only the stored client may deposit,
/// only into a Pending record, and only with a balance covering the amount.
/// On success the full amount moves from the client's balance into the slot
/// and the record becomes Funded. The sum is taken modulo u64; the executable
/// contract requires that it fits.
pub open spec fn spec_deposit(
    slot: SlotModel,
    signer: Seq<u8>,
    client_lamports: u64,
    now: i64,
) -> Result<(SlotModel, u64), EscrowError> {
    if signer != slot.record.client {
        Err(EscrowError::Unauthorized)
    } else if slot.record.status != EscrowStatus::Pending {
        Err(EscrowError::InvalidStatus)
    } else if client_lamports < slot.record.amount {
        Err(EscrowError::InsufficientFunds)
    } else {
        Ok(
            (
                SlotModel {
                    record: EscrowModel {
                        status: EscrowStatus::Funded,
                        funded_at: now,
                        ..slot.record
                    },
                    lamports: (slot.lamports + slot.record.amount) as u64,
                },
                (client_lamports - slot.record.amount) as u64,
            ),
        )
    }
}

/// Outcome of `submit_work`, given the link already trimmed of surrounding
/// whitespace. Only the stored freelancer may submit; the link must be
/// non-empty and within both bounds; the record must be Funded. The checks
/// run in that order, so a bad link is reported before a bad status.
pub open spec fn spec_submit_work(
    m: EscrowModel,
    signer: Seq<u8>,
    trimmed: Seq<char>,
    now: i64,
) -> Result<EscrowModel, EscrowError> {
    if signer != m.freelancer {
        Err(EscrowError::Unauthorized)
    } else if trimmed.len() == 0 {
        Err(EscrowError::InvalidWorkLink)
    } else if trimmed.len() > MAX_WORK_LINK_CHARS {
        Err(EscrowError::WorkLinkTooLong)
    } else if encode_utf8(trimmed).len() > MAX_WORK_LINK_BYTES {
        Err(EscrowError::WorkLinkTooLong)
    } else if m.status != EscrowStatus::Funded {
        Err(EscrowError::InvalidStatus)
    } else {
        Ok(
            EscrowModel {
                work_link: trimmed,
                status: EscrowStatus::Submitted,
                submitted_at: now,
                ..m
            },
        )
    }
}

/// Outcome of `approve_submission`: only the stored client, only on a
/// Submitted record.
pub open spec fn spec_approve(m: EscrowModel, signer: Seq<u8>, now: i64) -> Result<
    EscrowModel,
    EscrowError,
> {
    if signer != m.client {
        Err(EscrowError::Unauthorized)
    } else if m.status != EscrowStatus::Submitted {
        Err(EscrowError::InvalidStatus)
    } else {
        Ok(EscrowModel { status: EscrowStatus::Approved, approved_at: now, ..m })
    }
}

/// Outcome of `initiate_dispute`: only the stored client, and only while the
/// record is Funded or Submitted. The freelancer has no dispute path.
pub open spec fn spec_dispute(m: EscrowModel, signer: Seq<u8>, now: i64) -> Result<
    EscrowModel,
    EscrowError,
> {
    if signer != m.client {
        Err(EscrowError::Unauthorized)
    } else if !(m.status == EscrowStatus::Funded || m.status == EscrowStatus::Submitted) {
        Err(EscrowError::InvalidStatus)
    } else {
        Ok(EscrowModel { status: EscrowStatus::Disputed, disputed_at: now, ..m })
    }
}

/// Outcome of `withdraw_payment` on a slot: only the stored freelancer, only
/// on an Approved record. On success the record reaches Complete and the
/// slot's entire held balance, the amount plus any residue, is added to the
/// freelancer's balance; the caller closes the slot. The sum is taken modulo
/// u64; the executable contract requires that it fits.
pub open spec fn spec_withdraw(
    slot: SlotModel,
    signer: Seq<u8>,
    freelancer_lamports: u64,
    now: i64,
) -> Result<(EscrowModel, u64), EscrowError> {
    if signer != slot.record.freelancer {
        Err(EscrowError::Unauthorized)
    } else if slot.record.status != EscrowStatus::Approved {
        Err(EscrowError::InvalidStatus)
    } else {
        Ok(
            (
                EscrowModel { status: EscrowStatus::Complete, completed_at: now, ..slot.record },
                (freelancer_lamports + slot.lamports) as u64,
            ),
        )
    }
}

/// Outcome of `refund_client` on a slot: only the stored client; the record
/// must be Disputed, or Funded with the grace period elapsed. A funded
/// record whose deadline overflows the time type is rejected as
/// InvalidAmount before the status is consulted. On success the record
/// reaches Refunded and the slot's entire held balance is returned to the
/// client's balance; the caller closes the slot. The sum is taken modulo
/// u64; the executable contract requires that it fits.
pub open spec fn spec_refund(
    slot: SlotModel,
    signer: Seq<u8>,
    client_lamports: u64,
    now: i64,
) -> Result<(EscrowModel, u64), EscrowError> {
    let m = slot.record;
    if signer != m.client {
        Err(EscrowError::Unauthorized)
    } else if m.funded_at > 0 && refund_deadline(m) > i64::MAX as int {
        Err(EscrowError::InvalidAmount)
    } else if m.status == EscrowStatus::Disputed || (m.status == EscrowStatus::Funded
        && m.funded_at > 0 && now as int >= refund_deadline(m)) {
        Ok(
            (
                EscrowModel { status: EscrowStatus::Refunded, refunded_at: now, ..m },
                (client_lamports + slot.lamports) as u64,
            ),
        )
    } else {
        Err(EscrowError::InvalidStatus)
    }
}

} // verus!
