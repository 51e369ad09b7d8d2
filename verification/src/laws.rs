//! Proof functions for the properties that hold across operations.
//!
//! Each law is stated over the specification-level transition function
//! `transition::step`, which every executable operation's contract ties its
//! outcome to, so the laws carry over to the executable operations.

use vstd::prelude::*;

use crate::state::{Escrow, EscrowError, EscrowStatus, Identity};
use crate::transition::{allowed_edge, run, step, Action};

verus! {

/// Custody conservation: at every observation point the deposited amount is
/// exactly accounted for — it sits in the escrow's custody location, or has
/// been paid to the freelancer, or has been refunded to the client, and those
/// three shares always sum to the amount. No other custody state exists.
pub proof fn lemma_custody_conservation(e: Escrow)
    ensures
        e.vault_holds() + e.paid_to_freelancer() + e.refunded_to_client() == e.amount,
{
}

/// Every accepted transition preserves the record invariants and the
/// immutable fields: the well-formedness predicate carries over, `client`,
/// `amount`, `escrow_id`, `created_at` and `description` never change, a
/// freelancer once set is never reset or reassigned, and no transition
/// re-enters `Open`.
pub proof fn lemma_step_preserves_invariants(e: Escrow, action: Action)
    requires
        e.wf(),
        step(e, action) is Ok,
    ensures
        ({
            let e2 = step(e, action)->Ok_0;
            &&& e2.wf()
            &&& e2.client == e.client
            &&& e2.amount == e.amount
            &&& e2.escrow_id == e.escrow_id
            &&& e2.created_at == e.created_at
            &&& e2.description == e.description
            &&& (e.freelancer is Some ==> e2.freelancer == e.freelancer)
            &&& e2.status != EscrowStatus::Open
        }),
{
}

/// Every accepted transition follows an edge of the status graph — status
/// only ever moves forward along `Open -> InProgress -> Submitted ->
/// Completed` and the branches to `Cancelled`, `Completed` and `Disputed`.
pub proof fn lemma_step_follows_graph(e: Escrow, action: Action)
    requires
        step(e, action) is Ok,
    ensures
        allowed_edge(e.status, (step(e, action)->Ok_0).status),
{
}

/// A record in a terminal state (`Completed`, `Cancelled` or `Disputed`)
/// rejects every further action, whoever calls.
pub proof fn lemma_terminal_states_are_final(e: Escrow, action: Action)
    requires
        e.status.is_terminal(),
    ensures
        step(e, action) is Err,
{
}

/// A record in a terminal state stays exactly as it is under any further
/// history: every action in the sequence is rejected and the record never
/// changes again.
pub proof fn lemma_terminal_states_persist(e: Escrow, actions: Seq<Action>)
    requires
        e.status.is_terminal(),
    ensures
        run(e, actions) == e,
    decreases actions.len(),
{
    if actions.len() > 0 {
        lemma_terminal_states_are_final(e, actions[0]);
        lemma_terminal_states_persist(e, actions.drop_first());
    }
}

/// No history ever returns a record to `Open`: once the record has left its
/// initial state, every later observation finds it elsewhere.
pub proof fn lemma_open_never_reentered(e: Escrow, actions: Seq<Action>)
    requires
        e.status != EscrowStatus::Open,
    ensures
        run(e, actions).status != EscrowStatus::Open,
    decreases actions.len(),
{
    if actions.len() > 0 {
        match step(e, actions[0]) {
            Ok(e2) => lemma_open_never_reentered(e2, actions.drop_first()),
            Err(_) => lemma_open_never_reentered(e, actions.drop_first()),
        }
    }
}

/// The record invariants hold at every observation point: whatever history
/// runs on a well-formed record, the result is well-formed, the immutable
/// fields never change, and a freelancer once set is never reset or
/// reassigned.
pub proof fn lemma_run_preserves_invariants(e: Escrow, actions: Seq<Action>)
    requires
        e.wf(),
    ensures
        ({
            let e2 = run(e, actions);
            &&& e2.wf()
            &&& e2.client == e.client
            &&& e2.amount == e.amount
            &&& e2.escrow_id == e.escrow_id
            &&& e2.created_at == e.created_at
            &&& e2.description == e.description
            &&& (e.freelancer is Some ==> e2.freelancer == e.freelancer)
        }),
    decreases actions.len(),
{
    if actions.len() > 0 {
        match step(e, actions[0]) {
            Ok(e2) => {
                lemma_step_preserves_invariants(e, actions[0]);
                lemma_run_preserves_invariants(e2, actions.drop_first());
            },
            Err(_) => lemma_run_preserves_invariants(e, actions.drop_first()),
        }
    }
}

/// Once funds are released, the record is final: a release followed by any
/// further state-changing call on the same record always fails, however many
/// calls have been attempted in between.
pub proof fn lemma_release_makes_record_final(
    e: Escrow,
    caller: Identity,
    freelancer: Identity,
    later: Seq<Action>,
    next: Action,
)
    requires
        step(e, Action::ReleaseFunds { caller, freelancer }) is Ok,
    ensures
        step(run(step(e, Action::ReleaseFunds { caller, freelancer })->Ok_0, later), next) is Err,
{
    let released = step(e, Action::ReleaseFunds { caller, freelancer })->Ok_0;
    lemma_terminal_states_persist(released, later);
    lemma_terminal_states_are_final(released, next);
}

/// Accepting twice always fails: after one acceptance, a second acceptance by
/// anyone fails with `InvalidStatus`, however many further calls have run in
/// between, because the record never returns to `Open`.
pub proof fn lemma_accept_twice_fails(
    e: Escrow,
    first: Identity,
    later: Seq<Action>,
    second: Identity,
)
    requires
        step(e, Action::Accept { caller: first }) is Ok,
    ensures
        step(
            run(step(e, Action::Accept { caller: first })->Ok_0, later),
            Action::Accept { caller: second },
        ) == Err::<Escrow, EscrowError>(EscrowError::InvalidStatus),
{
    lemma_open_never_reentered(step(e, Action::Accept { caller: first })->Ok_0, later);
}

/// Cancellation after acceptance always fails with `CannotCancelInProgress`,
/// whoever calls and however many further calls have run in between: an
/// accepted record never returns to `Open`, and cancellation is only legal
/// there.
pub proof fn lemma_cancel_after_accept_fails(
    e: Escrow,
    acceptor: Identity,
    later: Seq<Action>,
    canceller: Identity,
)
    requires
        step(e, Action::Accept { caller: acceptor }) is Ok,
    ensures
        step(
            run(step(e, Action::Accept { caller: acceptor })->Ok_0, later),
            Action::CancelEscrow { caller: canceller },
        ) == Err::<Escrow, EscrowError>(EscrowError::CannotCancelInProgress),
{
    lemma_open_never_reentered(step(e, Action::Accept { caller: acceptor })->Ok_0, later);
}

/// Cancellation before acceptance always succeeds and returns the full
/// amount to the client: on an `Open` record the client's cancellation is
/// accepted, the record ends `Cancelled`, the vault is emptied and the whole
/// deposit counts as refunded.
pub proof fn lemma_cancel_before_accept_succeeds(e: Escrow, canceller: Identity)
    requires
        e.wf(),
        e.status == EscrowStatus::Open,
        canceller == e.client,
    ensures
        ({
            let cancelled = step(e, Action::CancelEscrow { caller: canceller });
            &&& cancelled is Ok
            &&& cancelled->Ok_0.status == EscrowStatus::Cancelled
            &&& cancelled->Ok_0.refunded_to_client() == e.amount
            &&& cancelled->Ok_0.vault_holds() == 0
        }),
{
}

/// A record becomes `Disputed` only through `raise_dispute`, only from
/// `InProgress` or `Submitted`, and only at the hand of the client or the
/// accepted freelancer.
pub proof fn lemma_dispute_only_from_active_by_party(e: Escrow, action: Action)
    requires
        step(e, action) is Ok,
        (step(e, action)->Ok_0).status == EscrowStatus::Disputed,
    ensures
        e.status == EscrowStatus::InProgress || e.status == EscrowStatus::Submitted,
        action matches Action::RaiseDispute { caller } && (caller == e.client || e.freelancer
            == Some(caller)),
{
}

} // verus!
