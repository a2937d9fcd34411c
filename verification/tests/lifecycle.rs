use freelance_escrow::{
    approve_submission, deposit_funds, initialize_escrow, initiate_dispute, refund_client,
    submit_work, withdraw_payment, EscrowSlot, EscrowStatus, Pubkey,
};

fn key(b: u8) -> Pubkey {
    Pubkey { bytes: [b; 32] }
}

#[test]
fn initialize_then_deposit_funds_record() {
    let escrow = key(9);
    let client = key(1);
    let freelancer = key(2);
    let (mut slot, ev) = initialize_escrow(&escrow, &client, &freelancer, 1000, 30, 255, 1)
        .expect("valid request");
    assert!(ev.amount == 1000);
    assert!(ev.client == client);
    assert!(ev.freelancer == freelancer);
    assert!(slot.record.status == EscrowStatus::Pending);
    assert_eq!(slot.record.created_at, 1);
    assert_eq!(slot.record.funded_at, 0);
    assert_eq!(slot.lamports, 0);
    assert_eq!(slot.record.work_link, "");

    let mut client_lamports: u64 = 5000;
    let ev = deposit_funds(&mut slot, &escrow, &client, &mut client_lamports, 2)
        .expect("client has funds");
    assert_eq!(ev.amount, 1000);
    assert!(slot.record.status == EscrowStatus::Funded);
    assert_eq!(slot.lamports, 1000);
    assert_eq!(client_lamports, 4000);
    assert_eq!(slot.record.funded_at, 2);
}

#[test]
fn full_happy_path_pays_freelancer() {
    let escrow = key(9);
    let client = key(1);
    let freelancer = key(2);
    let (mut slot, _) =
        initialize_escrow(&escrow, &client, &freelancer, 1000, 30, 255, 1).unwrap();
    let mut client_lamports: u64 = 5000;
    deposit_funds(&mut slot, &escrow, &client, &mut client_lamports, 2).unwrap();
    let ev = submit_work(
        &mut slot.record,
        &escrow,
        &freelancer,
        String::from("https://x/y"),
        3,
    )
    .unwrap();
    assert_eq!(ev.work_link, "https://x/y");
    assert!(slot.record.status == EscrowStatus::Submitted);
    assert_eq!(slot.record.work_link, "https://x/y");
    approve_submission(&mut slot.record, &escrow, &client, 4).unwrap();
    assert!(slot.record.status == EscrowStatus::Approved);
    assert_eq!(slot.record.approved_at, 4);

    let mut freelancer_lamports: u64 = 7;
    let mut closing = Some(slot);
    let ev = withdraw_payment(&mut closing, &escrow, &freelancer, &mut freelancer_lamports, 5)
        .unwrap();
    assert_eq!(ev.amount, 1000);
    assert!(ev.freelancer == freelancer);
    assert_eq!(freelancer_lamports, 1007);
    assert!(closing.is_none());
    assert_eq!(client_lamports, 4000);
}

#[test]
fn dispute_then_refund_restores_client() {
    let escrow = key(9);
    let client = key(1);
    let freelancer = key(2);
    let (mut slot, _) =
        initialize_escrow(&escrow, &client, &freelancer, 1000, 30, 255, 1).unwrap();
    let mut client_lamports: u64 = 5000;
    deposit_funds(&mut slot, &escrow, &client, &mut client_lamports, 2).unwrap();
    assert_eq!(client_lamports, 4000);
    let ev = initiate_dispute(&mut slot.record, &escrow, &client, 3).unwrap();
    assert!(ev.initiator == client);
    assert!(slot.record.status == EscrowStatus::Disputed);
    assert_eq!(slot.record.disputed_at, 3);

    let mut closing = Some(slot);
    let ev = refund_client(&mut closing, &escrow, &client, &mut client_lamports, 4).unwrap();
    assert_eq!(ev.amount, 1000);
    assert!(ev.client == client);
    assert_eq!(client_lamports, 5000);
    assert!(closing.is_none());
}

#[test]
fn withdraw_pays_full_held_balance_including_residue() {
    let escrow = key(9);
    let client = key(1);
    let freelancer = key(2);
    let (mut slot, _) =
        initialize_escrow(&escrow, &client, &freelancer, 1000, 30, 255, 1).unwrap();
    let mut client_lamports: u64 = 5000;
    deposit_funds(&mut slot, &escrow, &client, &mut client_lamports, 2).unwrap();
    submit_work(&mut slot.record, &escrow, &freelancer, String::from("https://x/y"), 3).unwrap();
    approve_submission(&mut slot.record, &escrow, &client, 4).unwrap();
    // Value donated to the slot beyond the nominal amount is conveyed too.
    slot.lamports += 500;

    let mut freelancer_lamports: u64 = 0;
    let mut closing = Some(slot);
    let ev = withdraw_payment(&mut closing, &escrow, &freelancer, &mut freelancer_lamports, 5)
        .unwrap();
    assert_eq!(ev.amount, 1000);
    assert_eq!(freelancer_lamports, 1500);
    assert!(closing.is_none());
}

#[test]
fn refund_on_funded_record_obeys_the_deadline() {
    let escrow = key(9);
    let client = key(1);
    let freelancer = key(2);
    let deadline: i64 = 2 + 30 * 86400;
    let mut client_lamports: u64 = 5000;

    // Before the deadline the funded record cannot be reclaimed.
    let (mut slot, _) =
        initialize_escrow(&escrow, &client, &freelancer, 1000, 30, 255, 1).unwrap();
    deposit_funds(&mut slot, &escrow, &client, &mut client_lamports, 2).unwrap();
    let mut closing = Some(slot);
    let err = refund_client(&mut closing, &escrow, &client, &mut client_lamports, deadline - 1)
        .unwrap_err();
    assert_eq!(err, freelance_escrow::EscrowError::InvalidStatus);
    let slot = closing.expect("record still open");
    assert!(slot.record.status == EscrowStatus::Funded);
    assert_eq!(client_lamports, 4000);

    // From the deadline on, it can.
    let mut closing = Some(slot);
    let ev =
        refund_client(&mut closing, &escrow, &client, &mut client_lamports, deadline).unwrap();
    assert_eq!(ev.amount, 1000);
    assert_eq!(client_lamports, 5000);
    assert!(closing.is_none());
}

#[test]
fn refund_on_disputed_record_ignores_the_deadline() {
    let escrow = key(9);
    let client = key(1);
    let freelancer = key(2);
    let mut client_lamports: u64 = 5000;
    let (mut slot, _) =
        initialize_escrow(&escrow, &client, &freelancer, 1000, 90, 255, 1).unwrap();
    deposit_funds(&mut slot, &escrow, &client, &mut client_lamports, 2).unwrap();
    initiate_dispute(&mut slot.record, &escrow, &client, 3).unwrap();

    // Far before the 90-day deadline, yet refundable because disputed.
    let mut closing = Some(slot);
    refund_client(&mut closing, &escrow, &client, &mut client_lamports, 4).unwrap();
    assert_eq!(client_lamports, 5000);
    assert!(closing.is_none());
}

#[test]
fn dispute_works_from_submitted_too() {
    let escrow = key(9);
    let client = key(1);
    let freelancer = key(2);
    let mut client_lamports: u64 = 5000;
    let (mut slot, _) =
        initialize_escrow(&escrow, &client, &freelancer, 1000, 30, 255, 1).unwrap();
    deposit_funds(&mut slot, &escrow, &client, &mut client_lamports, 2).unwrap();
    submit_work(&mut slot.record, &escrow, &freelancer, String::from("https://x/y"), 3).unwrap();
    initiate_dispute(&mut slot.record, &escrow, &client, 4).unwrap();
    assert!(slot.record.status == EscrowStatus::Disputed);

    let mut closing = Some(slot);
    refund_client(&mut closing, &escrow, &client, &mut client_lamports, 5).unwrap();
    assert_eq!(client_lamports, 5000);
}

#[test]
fn slot_can_be_rebuilt_by_hand() {
    // The slot is plain data: a caller may persist and rehydrate it.
    let (slot, _) = initialize_escrow(&key(9), &key(1), &key(2), 42, 7, 3, 1).unwrap();
    let copy = EscrowSlot { record: slot.record.clone(), lamports: slot.lamports };
    assert!(copy.record.client == key(1));
    assert_eq!(copy.record.amount, 42);
    assert_eq!(copy.record.dispute_timeout_days, 7);
    assert_eq!(copy.record.bump, 3);
}
