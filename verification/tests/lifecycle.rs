//! End-to-end lifecycle scenarios, with the surrounding layer's bookkeeping
//! played by a tiny in-test ledger: three balances and the escrow vault.

use trustify::{
    accept_escrow, cancel_escrow, create_escrow, raise_dispute, release_funds, submit_work,
    EscrowStatus, Identity,
};

fn client() -> Identity {
    Identity { key: 10 }
}

fn freelancer() -> Identity {
    Identity { key: 20 }
}

/// The full happy path: create, accept, submit, release. The freelancer ends
/// up richer by the full amount and the vault ends up empty.
#[test]
fn full_completion_pays_the_freelancer() {
    let mut client_balance: u64 = 1_000;
    let mut freelancer_balance: u64 = 0;
    let mut vault: u64 = 0;

    let (mut escrow, created) =
        create_escrow(client(), 100, String::from("logo design"), 1, 1_700_000_000).unwrap();
    // The host performs the deposit the notification instructs.
    client_balance -= created.amount;
    vault += created.amount;
    assert_eq!(escrow.status, EscrowStatus::Open);
    assert_eq!(vault, 100);

    accept_escrow(&mut escrow, freelancer()).unwrap();
    assert_eq!(escrow.status, EscrowStatus::InProgress);
    assert_eq!(escrow.freelancer, Some(freelancer()));

    submit_work(&mut escrow, freelancer()).unwrap();
    assert_eq!(escrow.status, EscrowStatus::Submitted);

    let released = release_funds(&mut escrow, client(), freelancer()).unwrap();
    vault -= released.amount;
    freelancer_balance += released.amount;

    assert_eq!(escrow.status, EscrowStatus::Completed);
    assert_eq!(freelancer_balance, 100);
    assert_eq!(vault, 0);
    assert_eq!(client_balance, 900);
    assert_eq!(released.freelancer, freelancer());
    assert_eq!(released.amount, 100);
}

/// Cancellation before acceptance: the full deposit flows back, net zero for
/// the client.
#[test]
fn cancel_before_acceptance_refunds_the_client() {
    let mut client_balance: u64 = 500;
    let mut vault: u64 = 0;

    let (mut escrow, created) =
        create_escrow(client(), 50, String::from("unwanted job"), 2, 1_700_000_000).unwrap();
    client_balance -= created.amount;
    vault += created.amount;
    assert_eq!(client_balance, 450);

    let cancelled = cancel_escrow(&mut escrow, client()).unwrap();
    vault -= cancelled.refunded_amount;
    client_balance += cancelled.refunded_amount;

    assert_eq!(escrow.status, EscrowStatus::Cancelled);
    assert_eq!(cancelled.refunded_amount, 50);
    assert_eq!(client_balance, 500);
    assert_eq!(vault, 0);
    assert_eq!(escrow.freelancer, None);
}

/// A dispute freezes the record: the deposit stays in the vault and both
/// release and cancellation are rejected afterwards.
#[test]
fn dispute_freezes_the_record() {
    let mut vault: u64 = 0;

    let (mut escrow, created) =
        create_escrow(client(), 75, String::from("contested work"), 3, 1_700_000_000).unwrap();
    vault += created.amount;

    accept_escrow(&mut escrow, freelancer()).unwrap();
    let raised = raise_dispute(&mut escrow, client()).unwrap();
    assert_eq!(escrow.status, EscrowStatus::Disputed);
    assert_eq!(raised.raised_by, client());

    // No notification asked for a transfer, so the vault still holds it all.
    assert_eq!(vault, 75);

    assert!(release_funds(&mut escrow, client(), freelancer()).is_err());
    assert!(cancel_escrow(&mut escrow, client()).is_err());
    assert_eq!(escrow.status, EscrowStatus::Disputed);
}

/// The deliberate early-release path: the client may pay while the work is
/// still `InProgress`, before any submission.
#[test]
fn early_release_from_in_progress() {
    let (mut escrow, _) =
        create_escrow(client(), 30, String::from("quick fix"), 4, 1_700_000_000).unwrap();
    accept_escrow(&mut escrow, freelancer()).unwrap();

    let released = release_funds(&mut escrow, client(), freelancer()).unwrap();
    assert_eq!(escrow.status, EscrowStatus::Completed);
    assert_eq!(released.amount, 30);
}

/// The freelancer, not only the client, may raise the dispute, and may do so
/// from `Submitted` as well.
#[test]
fn freelancer_can_dispute_after_submission() {
    let (mut escrow, _) =
        create_escrow(client(), 60, String::from("contested work"), 5, 1_700_000_000).unwrap();
    accept_escrow(&mut escrow, freelancer()).unwrap();
    submit_work(&mut escrow, freelancer()).unwrap();

    let raised = raise_dispute(&mut escrow, freelancer()).unwrap();
    assert_eq!(escrow.status, EscrowStatus::Disputed);
    assert_eq!(raised.raised_by, freelancer());
}
