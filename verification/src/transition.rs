//! The escrow state machine as a specification-level transition function.
//!
//! `create_outcome` says what creation yields; `step` says, for every action
//! on an existing record, either the updated record or the exact error. The
//! executable operations in `ops` promise to agree with these functions, and
//! the laws in `laws` are proved about them.

use vstd::prelude::*;

use crate::state::{description_bytes, Escrow, EscrowError, EscrowStatus, Identity};
use crate::state::MAX_DESCRIPTION_BYTES;

verus! {

/// One state-changing action on an existing record, together with the
/// authenticated caller that requested it.
#[derive(Clone, Copy, PartialEq, Eq, Structural, Debug)]
pub enum Action {
    /// A freelancer accepts the escrow task.
    Accept { caller: Identity },
    /// The freelancer submits the finished work for review.
    SubmitWork { caller: Identity },
    /// The client releases the deposit to the named freelancer.
    ReleaseFunds { caller: Identity, freelancer: Identity },
    /// The client cancels the escrow before acceptance.
    CancelEscrow { caller: Identity },
    /// Either party freezes the escrow in a dispute.
    RaiseDispute { caller: Identity },
}

/// What creating an escrow yields: a fresh `Open` record owned by the caller,
/// or the exact validation error. The checks run in order: the amount first,
/// the description second.
pub open spec fn create_outcome(
    caller: Identity,
    amount: u64,
    description: String,
    escrow_id: u64,
    created_at: i64,
) -> Result<Escrow, EscrowError> {
    if amount == 0 {
        Err(EscrowError::InvalidAmount)
    } else if description_bytes(description@) > MAX_DESCRIPTION_BYTES {
        Err(EscrowError::DescriptionTooLong)
    } else {
        Ok(Escrow {
            client: caller,
            freelancer: None,
            amount,
            status: EscrowStatus::Open,
            escrow_id,
            created_at,
            description,
        })
    }
}

/// The transition graph: `Open -> InProgress -> Submitted -> Completed`, with
/// the side branches `Open -> Cancelled`, `InProgress -> Completed` (the
/// deliberate early-release path) and `{InProgress, Submitted} -> Disputed`.
/// Terminal states have no outgoing edge, and no edge re-enters `Open`.
pub open spec fn allowed_edge(from: EscrowStatus, to: EscrowStatus) -> bool {
    ||| (from == EscrowStatus::Open && (to == EscrowStatus::InProgress || to
        == EscrowStatus::Cancelled))
    ||| (from == EscrowStatus::InProgress && (to == EscrowStatus::Submitted || to
        == EscrowStatus::Completed || to == EscrowStatus::Disputed))
    ||| (from == EscrowStatus::Submitted && (to == EscrowStatus::Completed || to
        == EscrowStatus::Disputed))
}

/// What one action does to one record: the updated record, or the exact error
/// and no change. Status is always checked before authorization, so a caller
/// learns `InvalidStatus` (or `CannotCancelInProgress`) even when it would
/// also be unauthorized.
pub open spec fn step(e: Escrow, action: Action) -> Result<Escrow, EscrowError> {
    match action {
        Action::Accept { caller } => {
            if e.status != EscrowStatus::Open {
                Err(EscrowError::InvalidStatus)
            } else if caller == e.client {
                Err(EscrowError::ClientCannotBeFreelancer)
            } else {
                Ok(Escrow { freelancer: Some(caller), status: EscrowStatus::InProgress, ..e })
            }
        },
        Action::SubmitWork { caller } => {
            if e.status != EscrowStatus::InProgress {
                Err(EscrowError::InvalidStatus)
            } else if e.freelancer != Some(caller) {
                Err(EscrowError::UnauthorizedFreelancer)
            } else {
                Ok(Escrow { status: EscrowStatus::Submitted, ..e })
            }
        },
        Action::ReleaseFunds { caller, freelancer } => {
            if e.status != EscrowStatus::Submitted && e.status != EscrowStatus::InProgress {
                Err(EscrowError::InvalidStatus)
            } else if caller != e.client {
                Err(EscrowError::UnauthorizedClient)
            } else if e.freelancer != Some(freelancer) {
                Err(EscrowError::InvalidFreelancer)
            } else {
                Ok(Escrow { status: EscrowStatus::Completed, ..e })
            }
        },
        Action::CancelEscrow { caller } => {
            if e.status != EscrowStatus::Open {
                Err(EscrowError::CannotCancelInProgress)
            } else if caller != e.client {
                Err(EscrowError::UnauthorizedClient)
            } else {
                Ok(Escrow { status: EscrowStatus::Cancelled, ..e })
            }
        },
        Action::RaiseDispute { caller } => {
            if e.status != EscrowStatus::InProgress && e.status != EscrowStatus::Submitted {
                Err(EscrowError::InvalidStatus)
            } else if caller != e.client && e.freelancer != Some(caller) {
                Err(EscrowError::UnauthorizedCaller)
            } else {
                Ok(Escrow { status: EscrowStatus::Disputed, ..e })
            }
        },
    }
}

/// A whole history applied in order: every action the machine accepts updates
/// the record, and every rejected one leaves it unchanged — a failed
/// precondition check never mutates anything, so the host simply carries on
/// with the same record.
pub open spec fn run(e: Escrow, actions: Seq<Action>) -> Escrow
    decreases actions.len(),
{
    if actions.len() == 0 {
        e
    } else {
        match step(e, actions[0]) {
            Ok(e2) => run(e2, actions.drop_first()),
            Err(_) => run(e, actions.drop_first()),
        }
    }
}

} // verus!
