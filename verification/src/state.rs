//! The escrow record, its states, its errors, and its invariants.

use vstd::prelude::*;

verus! {

/// The longest description, measured in encoded bytes, that a record accepts.
pub const MAX_DESCRIPTION_BYTES: usize = 200;

/// An authenticated party. The surrounding layer verifies signatures and hands
/// the core an already-authenticated identity; the core only compares
/// identities for equality, so a plain key models one.
#[derive(Clone, Copy, PartialEq, Eq, Structural, Debug)]
pub struct Identity {
    pub key: u64,
}

/// The state of one escrow agreement.
///
/// The lifecycle runs `Open -> InProgress -> Submitted -> Completed`, with the
/// side branches `Open -> Cancelled` and `{InProgress, Submitted} -> Disputed`.
/// `Completed`, `Cancelled` and `Disputed` are terminal.
#[derive(Clone, Copy, PartialEq, Eq, Structural, Debug)]
pub enum EscrowStatus {
    /// Created and funded; waiting for a freelancer.
    Open,
    /// A freelancer accepted; work in progress.
    InProgress,
    /// Work submitted; waiting for the client's approval.
    Submitted,
    /// Funds released to the freelancer.
    Completed,
    /// Cancelled by the client before acceptance; deposit refunded.
    Cancelled,
    /// A dispute was raised by either party; funds stay frozen in custody.
    Disputed,
}

impl EscrowStatus {
    /// A terminal state permits no further transition.
    pub open spec fn is_terminal(self) -> bool {
        self == EscrowStatus::Completed || self == EscrowStatus::Cancelled
            || self == EscrowStatus::Disputed
    }

    /// While the record is in one of these states the deposit sits in the
    /// escrow's custody location.
    pub open spec fn holds_funds(self) -> bool {
        self == EscrowStatus::Open || self == EscrowStatus::InProgress
            || self == EscrowStatus::Submitted || self == EscrowStatus::Disputed
    }
}

/// Every precondition violation yields its own variant, so callers can branch
/// on the cause.
#[derive(Clone, Copy, PartialEq, Eq, Structural, Debug)]
pub enum EscrowError {
    /// The escrow amount must be greater than zero.
    InvalidAmount,
    /// The description exceeds `MAX_DESCRIPTION_BYTES` encoded bytes.
    DescriptionTooLong,
    /// The record's current status does not permit this operation.
    InvalidStatus,
    /// The client cannot accept its own escrow.
    ClientCannotBeFreelancer,
    /// Only the accepted freelancer may perform this action.
    UnauthorizedFreelancer,
    /// Only the client may perform this action.
    UnauthorizedClient,
    /// The named recipient does not match the stored freelancer.
    InvalidFreelancer,
    /// An escrow can only be cancelled before a freelancer accepts it.
    CannotCancelInProgress,
    /// Only the client or the freelancer may perform this action.
    UnauthorizedCaller,
}

/// The number of bytes a description occupies once encoded.
pub open spec fn description_bytes(description: Seq<char>) -> nat {
    vstd::utf8::encode_utf8(description).len()
}

/// One escrow agreement, uniquely identified by `(client, escrow_id)`.
///
/// `client`, `amount`, `escrow_id`, `created_at` and `description` are set at
/// creation and never change; `freelancer` is set once, at acceptance.
#[derive(Clone, Debug)]
pub struct Escrow {
    /// The depositing party.
    pub client: Identity,
    /// The accepting party; `None` until a freelancer accepts.
    pub freelancer: Option<Identity>,
    /// The positive quantity of value held in custody.
    pub amount: u64,
    /// The current state.
    pub status: EscrowStatus,
    /// A caller-supplied disambiguator, part of the record's identity.
    pub escrow_id: u64,
    /// The creation timestamp; informational only.
    pub created_at: i64,
    /// A free-text note of bounded length.
    pub description: String,
}

impl Escrow {
    /// The record invariants: the amount is positive, the description is
    /// bounded, and the freelancer is unset exactly while the record is
    /// `Open` or was `Cancelled` before acceptance.
    pub open spec fn wf(self) -> bool {
        &&& self.amount > 0
        &&& description_bytes(self.description@) <= MAX_DESCRIPTION_BYTES
        &&& (self.freelancer is None <==> (self.status == EscrowStatus::Open
            || self.status == EscrowStatus::Cancelled))
    }

    /// How much the escrow's custody location holds: the full amount until
    /// the record reaches `Completed` or `Cancelled`, and nothing after.
    pub open spec fn vault_holds(self) -> u64 {
        if self.status.holds_funds() {
            self.amount
        } else {
            0
        }
    }

    /// How much has been paid out to the freelancer: the full amount once
    /// the record is `Completed`, and nothing before.
    pub open spec fn paid_to_freelancer(self) -> u64 {
        if self.status == EscrowStatus::Completed {
            self.amount
        } else {
            0
        }
    }

    /// How much has been refunded to the client: the full amount once the
    /// record is `Cancelled`, and nothing before.
    pub open spec fn refunded_to_client(self) -> u64 {
        if self.status == EscrowStatus::Cancelled {
            self.amount
        } else {
            0
        }
    }
}

} // verus!
