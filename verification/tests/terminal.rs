//! Terminal-state immutability: once a record is `Completed`, `Cancelled` or
//! `Disputed`, every further state-changing call fails and nothing moves.

use trustify::{
    accept_escrow, cancel_escrow, create_escrow, raise_dispute, release_funds, submit_work,
    Escrow, EscrowStatus, Identity,
};

fn client() -> Identity {
    Identity { key: 1 }
}

fn freelancer() -> Identity {
    Identity { key: 2 }
}

/// Fires every state-changing operation at the record, by both parties, and
/// demands that each one fails and leaves status and freelancer untouched.
fn assert_frozen(escrow: &mut Escrow) {
    let status_before = escrow.status;
    let freelancer_before = escrow.freelancer;
    for caller in [client(), freelancer()] {
        assert!(accept_escrow(escrow, caller).is_err());
        assert!(submit_work(escrow, caller).is_err());
        assert!(release_funds(escrow, caller, freelancer()).is_err());
        assert!(cancel_escrow(escrow, caller).is_err());
        assert!(raise_dispute(escrow, caller).is_err());
    }
    assert_eq!(escrow.status, status_before);
    assert_eq!(escrow.freelancer, freelancer_before);
}

#[test]
fn nothing_moves_after_release() {
    let (mut escrow, _) = create_escrow(client(), 100, String::from("done deal"), 1, 0).unwrap();
    accept_escrow(&mut escrow, freelancer()).unwrap();
    submit_work(&mut escrow, freelancer()).unwrap();
    release_funds(&mut escrow, client(), freelancer()).unwrap();

    assert_eq!(escrow.status, EscrowStatus::Completed);
    assert_frozen(&mut escrow);
}

#[test]
fn nothing_moves_after_cancellation() {
    let (mut escrow, _) = create_escrow(client(), 100, String::from("called off"), 2, 0).unwrap();
    cancel_escrow(&mut escrow, client()).unwrap();

    assert_eq!(escrow.status, EscrowStatus::Cancelled);
    assert_frozen(&mut escrow);
}

#[test]
fn nothing_moves_after_a_dispute() {
    let (mut escrow, _) = create_escrow(client(), 100, String::from("contested"), 3, 0).unwrap();
    accept_escrow(&mut escrow, freelancer()).unwrap();
    raise_dispute(&mut escrow, freelancer()).unwrap();

    assert_eq!(escrow.status, EscrowStatus::Disputed);
    assert_frozen(&mut escrow);
}
