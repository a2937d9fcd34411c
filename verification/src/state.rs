use vstd::prelude::*;
use vstd::utf8::encode_utf8;

verus! {

/// An opaque 32-byte public identifier: a party's key, or the address of the
/// escrow record's storage slot. The engine only ever compares these for
/// equality; it never looks inside.
#[derive(Clone, Copy, Debug)]
pub struct Pubkey {
    pub bytes: [u8; 32],
}

impl View for Pubkey {
    type V = Seq<u8>;

    open spec fn view(&self) -> Seq<u8> {
        self.bytes@
    }
}

impl PartialEq for Pubkey {
    fn eq(&self, other: &Pubkey) -> (r: bool) {
        let mut i: usize = 0;
        while i < 32
            invariant
                i <= 32,
                forall|j: int| 0 <= j < i ==> self.bytes@[j] == other.bytes@[j],
            decreases 32 - i,
        {
            if self.bytes[i] != other.bytes[i] {
                proof {
                    assert(self@[i as int] != other@[i as int]);
                }
                return false;
            }
            i = i + 1;
        }
        proof {
            assert(self@ =~= other@);
        }
        true
    }
}

impl vstd::std_specs::cmp::PartialEqSpecImpl for Pubkey {
    open spec fn obeys_eq_spec() -> bool {
        true
    }

    open spec fn eq_spec(&self, other: &Pubkey) -> bool {
        self@ == other@
    }
}

/// The lifecycle states of one escrow record. `Pending` is initial;
/// `Complete` and `Refunded` are terminal: the record is closed on reaching
/// them and exists no further.
#[derive(Clone, Copy, PartialEq, Eq, Structural, Debug)]
pub enum EscrowStatus {
    Pending,
    Funded,
    Submitted,
    Approved,
    Complete,
    Disputed,
    Refunded,
}

/// The persisted state of one client-freelancer engagement. `client`,
/// `freelancer`, `amount` and `dispute_timeout_days` are fixed at creation;
/// each timestamp is zero until its transition fires, then set exactly once.
#[derive(Clone, Debug)]
pub struct EscrowAccount {
    pub client: Pubkey,
    pub freelancer: Pubkey,
    pub amount: u64,
    pub status: EscrowStatus,
    pub work_link: String,
    pub bump: u8,
    pub created_at: i64,
    pub funded_at: i64,
    pub submitted_at: i64,
    pub approved_at: i64,
    pub completed_at: i64,
    pub disputed_at: i64,
    pub refunded_at: i64,
    pub dispute_timeout_days: u8,
}

/// The mathematical model of an [`EscrowAccount`]: keys as byte sequences and
/// the work link as a sequence of Unicode scalar values.
#[verifier::ext_equal]
pub ghost struct EscrowModel {
    pub client: Seq<u8>,
    pub freelancer: Seq<u8>,
    pub amount: u64,
    pub status: EscrowStatus,
    pub work_link: Seq<char>,
    pub bump: u8,
    pub created_at: i64,
    pub funded_at: i64,
    pub submitted_at: i64,
    pub approved_at: i64,
    pub completed_at: i64,
    pub disputed_at: i64,
    pub refunded_at: i64,
    pub dispute_timeout_days: u8,
}

impl View for EscrowAccount {
    type V = EscrowModel;

    open spec fn view(&self) -> EscrowModel {
        EscrowModel {
            client: self.client@,
            freelancer: self.freelancer@,
            amount: self.amount,
            status: self.status,
            work_link: self.work_link@,
            bump: self.bump,
            created_at: self.created_at,
            funded_at: self.funded_at,
            submitted_at: self.submitted_at,
            approved_at: self.approved_at,
            completed_at: self.completed_at,
            disputed_at: self.disputed_at,
            refunded_at: self.refunded_at,
            dispute_timeout_days: self.dispute_timeout_days,
        }
    }
}

/// The storage slot that holds a live escrow record together with the value
/// custodied for it. The held balance is the slot's own: it starts empty,
/// grows by the escrow amount at deposit, and is paid out in full when the
/// record is closed.
#[derive(Clone, Debug)]
pub struct EscrowSlot {
    pub record: EscrowAccount,
    pub lamports: u64,
}

/// The mathematical model of an [`EscrowSlot`].
#[verifier::ext_equal]
pub ghost struct SlotModel {
    pub record: EscrowModel,
    pub lamports: u64,
}

impl View for EscrowSlot {
    type V = SlotModel;

    open spec fn view(&self) -> SlotModel {
        SlotModel { record: self.record@, lamports: self.lamports }
    }
}

impl EscrowModel {
    /// Well-formedness of a record: creation-time bounds hold, every
    /// timestamp is non-negative and agrees with the status about which
    /// transitions have fired, and a stored work link respects both the
    /// scalar-count and the byte-length bound.
    pub open spec fn wf(self) -> bool {
        &&& self.client.len() == 32
        &&& self.freelancer.len() == 32
        &&& self.amount > 0
        &&& 1 <= self.dispute_timeout_days <= 90
        &&& self.created_at > 0
        &&& self.funded_at >= 0
        &&& self.submitted_at >= 0
        &&& self.approved_at >= 0
        &&& self.completed_at >= 0
        &&& self.disputed_at >= 0
        &&& self.refunded_at >= 0
        &&& match self.status {
            EscrowStatus::Pending => self.funded_at == 0 && self.submitted_at == 0
                && self.approved_at == 0 && self.completed_at == 0 && self.disputed_at == 0
                && self.refunded_at == 0,
            EscrowStatus::Funded => self.funded_at > 0 && self.submitted_at == 0
                && self.approved_at == 0 && self.completed_at == 0 && self.disputed_at == 0
                && self.refunded_at == 0,
            EscrowStatus::Submitted => self.funded_at > 0 && self.submitted_at > 0
                && self.approved_at == 0 && self.completed_at == 0 && self.disputed_at == 0
                && self.refunded_at == 0,
            EscrowStatus::Approved => self.funded_at > 0 && self.submitted_at > 0
                && self.approved_at > 0 && self.completed_at == 0 && self.disputed_at == 0
                && self.refunded_at == 0,
            EscrowStatus::Complete => self.funded_at > 0 && self.submitted_at > 0
                && self.approved_at > 0 && self.completed_at > 0 && self.disputed_at == 0
                && self.refunded_at == 0,
            EscrowStatus::Disputed => self.funded_at > 0 && self.disputed_at > 0
                && self.approved_at == 0 && self.completed_at == 0 && self.refunded_at == 0,
            EscrowStatus::Refunded => self.funded_at > 0 && self.refunded_at > 0
                && self.approved_at == 0 && self.completed_at == 0,
        }
        &&& (self.work_link.len() > 0 <==> self.submitted_at != 0)
        &&& (self.work_link.len() > 0 ==> self.work_link.len() <= 200
            && encode_utf8(self.work_link).len() <= 600)
    }
}

} // verus!
