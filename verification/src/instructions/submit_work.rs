use vstd::prelude::*;
use vstd::string::StrSliceExecFns;
use vstd::utf8::encode_utf8;
use crate::errors::EscrowError;
use crate::events::WorkSubmitted;
use crate::state::{EscrowAccount, EscrowModel, EscrowStatus, Pubkey};
use crate::transitions::{spec_submit_work, MAX_WORK_LINK_BYTES, MAX_WORK_LINK_CHARS};

verus! {

/// The work link with leading and trailing whitespace removed, as
/// `str::trim` removes it. The result depends on the characters alone.
pub uninterp spec fn trim_of(s: Seq<char>) -> Seq<char>;

/// A Unicode scalar value encodes to at most four UTF-8 bytes, so a
/// sequence encodes to at most four bytes per scalar.
proof fn lemma_encode_utf8_len_bound(chars: Seq<char>)
    ensures
        encode_utf8(chars).len() <= 4 * chars.len(),
    decreases chars.len(),
{
    if chars.len() > 0 {
        lemma_encode_utf8_len_bound(chars.drop_first());
    }
}

/// Relies on str::trim: returns the slice with leading and trailing
/// whitespace removed.
#[verifier::external_body]
fn trim_str(s: &str) -> (r: &str)
    ensures
        r@ == trim_of(s@),
{
    s.trim()
}

/// Records the freelancer's proof of work and marks the record Submitted.
/// The link is trimmed of surrounding whitespace first and the trimmed form
/// is what is validated and stored: it must be non-empty, at most 200
/// Unicode scalar values, and at most 600 bytes in its persisted UTF-8 form.
/// Only the stored freelancer may submit, and only on a Funded record; a
/// rejected call changes nothing.
pub fn submit_work(
    record: &mut EscrowAccount,
    escrow_key: &Pubkey,
    signer: &Pubkey,
    work_link: String,
    now: i64,
) -> (res: Result<WorkSubmitted, EscrowError>)
    requires
        now > 0,
    ensures
        res matches Ok(ev) ==> {
            &&& spec_submit_work(old(record)@, signer@, trim_of(work_link@), now)
                == Ok::<_, EscrowError>(final(record)@)
            &&& ev.escrow_key@ == escrow_key@
            &&& ev.freelancer@ == old(record)@.freelancer
            &&& ev.work_link@ == trim_of(work_link@)
            &&& (old(record)@.wf() ==> final(record)@.wf())
        },
        res matches Err(e) ==> {
            &&& spec_submit_work(old(record)@, signer@, trim_of(work_link@), now)
                == Err::<EscrowModel, EscrowError>(e)
            &&& *final(record) == *old(record)
        },
{
    if !(*signer == record.freelancer) {
        return Err(EscrowError::Unauthorized);
    }
    let trimmed: String = trim_str(work_link.as_str()).to_owned();
    if trimmed.as_str().is_empty() {
        return Err(EscrowError::InvalidWorkLink);
    }
    if trimmed.as_str().unicode_len() > MAX_WORK_LINK_CHARS {
        return Err(EscrowError::WorkLinkTooLong);
    }
    proof {
        lemma_encode_utf8_len_bound(trimmed@);
    }
    if trimmed.as_str().len() > MAX_WORK_LINK_BYTES {
        return Err(EscrowError::WorkLinkTooLong);
    }
    if !(record.status == EscrowStatus::Funded) {
        return Err(EscrowError::InvalidStatus);
    }
    // Defense in depth against a closed record; a Funded record is never
    // Complete, so the contract shows this guard cannot fire.
    if record.status == EscrowStatus::Complete {
        return Err(EscrowError::EscrowAlreadyComplete);
    }
    let event = WorkSubmitted {
        escrow_key: *escrow_key,
        freelancer: record.freelancer,
        work_link: trimmed.clone(),
    };
    record.work_link = trimmed;
    record.status = EscrowStatus::Submitted;
    record.submitted_at = now;
    proof {
        let made = spec_submit_work(old(record)@, signer@, trim_of(work_link@), now);
        assert(made matches Ok(m) && m =~= record@);
    }
    Ok(event)
}

} // verus!
