//! Notification records.
//!
//! Each successful operation returns one of these for the surrounding layer's
//! observers. The records that report a movement of value (`EscrowCreated`,
//! `FundsReleased`, `EscrowCancelled`) double as the transfer instruction the
//! surrounding layer must execute atomically with persisting the record.

use vstd::prelude::*;

use crate::state::Identity;

verus! {

/// A new escrow was created and funded. The surrounding layer must move
/// `amount` from `client` into the escrow's custody location, and keep the
/// record only if that transfer commits.
#[derive(Clone, PartialEq, Eq, Debug)]
pub struct EscrowCreated {
    pub client: Identity,
    pub escrow_id: u64,
    pub amount: u64,
    pub description: String,
}

/// A freelancer accepted the escrow task.
#[derive(Clone, Copy, PartialEq, Eq, Structural, Debug)]
pub struct EscrowAccepted {
    pub client: Identity,
    pub escrow_id: u64,
    pub freelancer: Identity,
}

/// The freelancer submitted the finished work for review.
#[derive(Clone, Copy, PartialEq, Eq, Structural, Debug)]
pub struct WorkSubmitted {
    pub client: Identity,
    pub escrow_id: u64,
    pub freelancer: Identity,
}

/// The client released the deposit. The surrounding layer must move `amount`
/// from the escrow's custody location to `freelancer` as one atomic step.
#[derive(Clone, Copy, PartialEq, Eq, Structural, Debug)]
pub struct FundsReleased {
    pub client: Identity,
    pub escrow_id: u64,
    pub freelancer: Identity,
    pub amount: u64,
}

/// The client cancelled before acceptance. The surrounding layer must move
/// `refunded_amount` from the escrow's custody location back to `client`.
#[derive(Clone, Copy, PartialEq, Eq, Structural, Debug)]
pub struct EscrowCancelled {
    pub client: Identity,
    pub escrow_id: u64,
    pub refunded_amount: u64,
}

/// A party froze the escrow in a dispute; the deposit stays in custody.
#[derive(Clone, Copy, PartialEq, Eq, Structural, Debug)]
pub struct DisputeRaised {
    pub client: Identity,
    pub escrow_id: u64,
    pub raised_by: Identity,
}

} // verus!
