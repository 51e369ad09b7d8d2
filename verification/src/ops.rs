//! The executable escrow operations.
//!
//! Each operation takes the record and the authenticated caller, applies one
//! transition, and returns the notification record on success or the exact
//! error — leaving the record untouched — on failure. Every contract ties the
//! outcome to the specification-level transition in `transition`.

use vstd::prelude::*;

use crate::events::{
    DisputeRaised, EscrowAccepted, EscrowCancelled, EscrowCreated, FundsReleased, WorkSubmitted,
};
use crate::state::{Escrow, EscrowError, EscrowStatus, Identity, MAX_DESCRIPTION_BYTES};
use crate::transition::{create_outcome, step, Action};

verus! {

/// A client creates and funds a new escrow: the amount must be positive and
/// the description bounded, and the fresh record starts `Open` with no
/// freelancer. The returned notification doubles as the deposit instruction:
/// the surrounding layer must move `amount` from the caller into the escrow's
/// custody location and keep the record only if that transfer commits.
pub fn create_escrow(
    caller: Identity,
    amount: u64,
    description: String,
    escrow_id: u64,
    created_at: i64,
) -> (r: Result<(Escrow, EscrowCreated), EscrowError>)
    ensures
        r is Ok <==> create_outcome(caller, amount, description, escrow_id, created_at) is Ok,
        r matches Ok((e, ev)) ==> {
            &&& create_outcome(caller, amount, description, escrow_id, created_at) == Ok::<
                Escrow,
                EscrowError,
            >(e)
            &&& e.wf()
            &&& e.client == caller
            &&& e.freelancer is None
            &&& e.amount == amount
            &&& amount > 0
            &&& e.status == EscrowStatus::Open
            &&& e.escrow_id == escrow_id
            &&& e.created_at == created_at
            &&& e.description == description
            &&& e.vault_holds() == amount
            &&& ev == (EscrowCreated { client: caller, escrow_id, amount, description })
        },
        r matches Err(err) ==> create_outcome(caller, amount, description, escrow_id, created_at)
            == Err::<Escrow, EscrowError>(err),
{
    if amount == 0 {
        return Err(EscrowError::InvalidAmount);
    }
    if description.as_str().as_bytes().len() > MAX_DESCRIPTION_BYTES {
        return Err(EscrowError::DescriptionTooLong);
    }
    let event_description = description.clone();
    let escrow = Escrow {
        client: caller,
        freelancer: None,
        amount,
        status: EscrowStatus::Open,
        escrow_id,
        created_at,
        description,
    };
    let event = EscrowCreated {
        client: caller,
        escrow_id,
        amount,
        description: event_description,
    };
    Ok((escrow, event))
}

/// A freelancer accepts an `Open` escrow: the record remembers the caller as
/// the freelancer and moves to `InProgress`. The client cannot accept its own
/// escrow. No value moves.
pub fn accept_escrow(escrow: &mut Escrow, caller: Identity) -> (r: Result<
    EscrowAccepted,
    EscrowError,
>)
    ensures
        r is Ok <==> (old(escrow).status == EscrowStatus::Open && caller != old(escrow).client),
        r is Ok ==> *final(escrow) == (Escrow {
            freelancer: Some(caller),
            status: EscrowStatus::InProgress,
            ..*old(escrow)
        }),
        r is Ok ==> r->Ok_0 == (EscrowAccepted {
            client: old(escrow).client,
            escrow_id: old(escrow).escrow_id,
            freelancer: caller,
        }),
        old(escrow).status != EscrowStatus::Open ==> r == Err::<EscrowAccepted, EscrowError>(
            EscrowError::InvalidStatus,
        ),
        old(escrow).status == EscrowStatus::Open && caller == old(escrow).client ==> r
            == Err::<EscrowAccepted, EscrowError>(EscrowError::ClientCannotBeFreelancer),
        r is Err ==> *final(escrow) == *old(escrow),
        r is Err ==> step(*old(escrow), Action::Accept { caller }) == Err::<Escrow, EscrowError>(
            r->Err_0,
        ),
        r is Ok ==> step(*old(escrow), Action::Accept { caller }) == Ok::<Escrow, EscrowError>(
            *final(escrow),
        ),
{
    if escrow.status != EscrowStatus::Open {
        return Err(EscrowError::InvalidStatus);
    }
    if caller == escrow.client {
        return Err(EscrowError::ClientCannotBeFreelancer);
    }
    escrow.freelancer = Some(caller);
    escrow.status = EscrowStatus::InProgress;
    Ok(EscrowAccepted { client: escrow.client, escrow_id: escrow.escrow_id, freelancer: caller })
}

/// The freelancer submits the finished work on an `InProgress` escrow: the
/// record moves to `Submitted`. Only the stored freelancer may submit. No
/// value moves.
pub fn submit_work(escrow: &mut Escrow, caller: Identity) -> (r: Result<
    WorkSubmitted,
    EscrowError,
>)
    ensures
        r is Ok <==> (old(escrow).status == EscrowStatus::InProgress && old(escrow).freelancer
            == Some(caller)),
        r is Ok ==> *final(escrow) == (Escrow {
            status: EscrowStatus::Submitted,
            ..*old(escrow)
        }),
        r is Ok ==> r->Ok_0 == (WorkSubmitted {
            client: old(escrow).client,
            escrow_id: old(escrow).escrow_id,
            freelancer: caller,
        }),
        old(escrow).status != EscrowStatus::InProgress ==> r == Err::<WorkSubmitted, EscrowError>(
            EscrowError::InvalidStatus,
        ),
        old(escrow).status == EscrowStatus::InProgress && old(escrow).freelancer != Some(caller)
            ==> r == Err::<WorkSubmitted, EscrowError>(EscrowError::UnauthorizedFreelancer),
        r is Err ==> *final(escrow) == *old(escrow),
        r is Err ==> step(*old(escrow), Action::SubmitWork { caller }) == Err::<
            Escrow,
            EscrowError,
        >(r->Err_0),
        r is Ok ==> step(*old(escrow), Action::SubmitWork { caller }) == Ok::<Escrow, EscrowError>(
            *final(escrow),
        ),
{
    if escrow.status != EscrowStatus::InProgress {
        return Err(EscrowError::InvalidStatus);
    }
    let authorized = match escrow.freelancer {
        Some(f) => f == caller,
        None => false,
    };
    if !authorized {
        return Err(EscrowError::UnauthorizedFreelancer);
    }
    escrow.status = EscrowStatus::Submitted;
    Ok(WorkSubmitted { client: escrow.client, escrow_id: escrow.escrow_id, freelancer: caller })
}

/// The client releases the deposit to the freelancer: legal from `Submitted`,
/// and — as a deliberate early-release path — already from `InProgress`, so
/// the client may pay before an explicit submission. The named recipient must
/// match the stored freelancer, a defense against impersonation. The record
/// moves to `Completed`, and the surrounding layer must move `amount` from
/// the escrow's custody location to the freelancer as one atomic step.
pub fn release_funds(escrow: &mut Escrow, caller: Identity, freelancer: Identity) -> (r: Result<
    FundsReleased,
    EscrowError,
>)
    ensures
        r is Ok <==> ((old(escrow).status == EscrowStatus::Submitted || old(escrow).status
            == EscrowStatus::InProgress) && caller == old(escrow).client && old(
            escrow,
        ).freelancer == Some(freelancer)),
        r is Ok ==> *final(escrow) == (Escrow {
            status: EscrowStatus::Completed,
            ..*old(escrow)
        }),
        r is Ok ==> r->Ok_0 == (FundsReleased {
            client: old(escrow).client,
            escrow_id: old(escrow).escrow_id,
            freelancer,
            amount: old(escrow).amount,
        }),
        r is Ok ==> final(escrow).vault_holds() == 0 && final(escrow).paid_to_freelancer() == old(
            escrow,
        ).amount,
        old(escrow).status != EscrowStatus::Submitted && old(escrow).status
            != EscrowStatus::InProgress ==> r == Err::<FundsReleased, EscrowError>(
            EscrowError::InvalidStatus,
        ),
        (old(escrow).status == EscrowStatus::Submitted || old(escrow).status
            == EscrowStatus::InProgress) && caller != old(escrow).client ==> r == Err::<
            FundsReleased,
            EscrowError,
        >(EscrowError::UnauthorizedClient),
        (old(escrow).status == EscrowStatus::Submitted || old(escrow).status
            == EscrowStatus::InProgress) && caller == old(escrow).client && old(
            escrow,
        ).freelancer != Some(freelancer) ==> r == Err::<FundsReleased, EscrowError>(
            EscrowError::InvalidFreelancer,
        ),
        r is Err ==> *final(escrow) == *old(escrow),
        r is Err ==> step(*old(escrow), Action::ReleaseFunds { caller, freelancer }) == Err::<
            Escrow,
            EscrowError,
        >(r->Err_0),
        r is Ok ==> step(*old(escrow), Action::ReleaseFunds { caller, freelancer }) == Ok::<
            Escrow,
            EscrowError,
        >(*final(escrow)),
{
    if escrow.status != EscrowStatus::Submitted && escrow.status != EscrowStatus::InProgress {
        return Err(EscrowError::InvalidStatus);
    }
    if caller != escrow.client {
        return Err(EscrowError::UnauthorizedClient);
    }
    let designated = match escrow.freelancer {
        Some(f) => f == freelancer,
        None => false,
    };
    if !designated {
        return Err(EscrowError::InvalidFreelancer);
    }
    let amount = escrow.amount;
    escrow.status = EscrowStatus::Completed;
    Ok(FundsReleased {
        client: escrow.client,
        escrow_id: escrow.escrow_id,
        freelancer,
        amount,
    })
}

/// The client cancels an escrow that no freelancer has accepted yet: the
/// record moves from `Open` to `Cancelled`, and the surrounding layer must
/// move the full deposit from the escrow's custody location back to the
/// client. Once a freelancer has accepted, cancellation fails with
/// `CannotCancelInProgress` whoever calls.
pub fn cancel_escrow(escrow: &mut Escrow, caller: Identity) -> (r: Result<
    EscrowCancelled,
    EscrowError,
>)
    ensures
        r is Ok <==> (old(escrow).status == EscrowStatus::Open && caller == old(escrow).client),
        r is Ok ==> *final(escrow) == (Escrow {
            status: EscrowStatus::Cancelled,
            ..*old(escrow)
        }),
        r is Ok ==> r->Ok_0 == (EscrowCancelled {
            client: old(escrow).client,
            escrow_id: old(escrow).escrow_id,
            refunded_amount: old(escrow).amount,
        }),
        r is Ok ==> final(escrow).vault_holds() == 0 && final(escrow).refunded_to_client() == old(
            escrow,
        ).amount,
        old(escrow).status != EscrowStatus::Open ==> r == Err::<EscrowCancelled, EscrowError>(
            EscrowError::CannotCancelInProgress,
        ),
        old(escrow).status == EscrowStatus::Open && caller != old(escrow).client ==> r == Err::<
            EscrowCancelled,
            EscrowError,
        >(EscrowError::UnauthorizedClient),
        r is Err ==> *final(escrow) == *old(escrow),
        r is Err ==> step(*old(escrow), Action::CancelEscrow { caller }) == Err::<
            Escrow,
            EscrowError,
        >(r->Err_0),
        r is Ok ==> step(*old(escrow), Action::CancelEscrow { caller }) == Ok::<
            Escrow,
            EscrowError,
        >(*final(escrow)),
{
    if escrow.status != EscrowStatus::Open {
        return Err(EscrowError::CannotCancelInProgress);
    }
    if caller != escrow.client {
        return Err(EscrowError::UnauthorizedClient);
    }
    let refunded_amount = escrow.amount;
    escrow.status = EscrowStatus::Cancelled;
    Ok(EscrowCancelled {
        client: escrow.client,
        escrow_id: escrow.escrow_id,
        refunded_amount,
    })
}

/// Either party freezes an `InProgress` or `Submitted` escrow in a dispute:
/// the record moves to `Disputed` and the deposit stays in custody. This core
/// models no resolution; `Disputed` is a terminal resting state awaiting an
/// out-of-band process.
pub fn raise_dispute(escrow: &mut Escrow, caller: Identity) -> (r: Result<
    DisputeRaised,
    EscrowError,
>)
    ensures
        r is Ok <==> ((old(escrow).status == EscrowStatus::InProgress || old(escrow).status
            == EscrowStatus::Submitted) && (caller == old(escrow).client || old(
            escrow,
        ).freelancer == Some(caller))),
        r is Ok ==> *final(escrow) == (Escrow { status: EscrowStatus::Disputed, ..*old(escrow) }),
        r is Ok ==> r->Ok_0 == (DisputeRaised {
            client: old(escrow).client,
            escrow_id: old(escrow).escrow_id,
            raised_by: caller,
        }),
        r is Ok ==> final(escrow).vault_holds() == old(escrow).amount,
        old(escrow).status != EscrowStatus::InProgress && old(escrow).status
            != EscrowStatus::Submitted ==> r == Err::<DisputeRaised, EscrowError>(
            EscrowError::InvalidStatus,
        ),
        (old(escrow).status == EscrowStatus::InProgress || old(escrow).status
            == EscrowStatus::Submitted) && caller != old(escrow).client && old(
            escrow,
        ).freelancer != Some(caller) ==> r == Err::<DisputeRaised, EscrowError>(
            EscrowError::UnauthorizedCaller,
        ),
        r is Err ==> *final(escrow) == *old(escrow),
        r is Err ==> step(*old(escrow), Action::RaiseDispute { caller }) == Err::<
            Escrow,
            EscrowError,
        >(r->Err_0),
        r is Ok ==> step(*old(escrow), Action::RaiseDispute { caller }) == Ok::<
            Escrow,
            EscrowError,
        >(*final(escrow)),
{
    if escrow.status != EscrowStatus::InProgress && escrow.status != EscrowStatus::Submitted {
        return Err(EscrowError::InvalidStatus);
    }
    let is_freelancer = match escrow.freelancer {
        Some(f) => f == caller,
        None => false,
    };
    if caller != escrow.client && !is_freelancer {
        return Err(EscrowError::UnauthorizedCaller);
    }
    escrow.status = EscrowStatus::Disputed;
    Ok(DisputeRaised { client: escrow.client, escrow_id: escrow.escrow_id, raised_by: caller })
}

} // verus!
