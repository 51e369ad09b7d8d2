//! A two-party escrow state machine.
//!
//! A client deposits a positive amount of value for a piece of work; a
//! freelancer accepts, performs and submits the work; the deposit then moves
//! to completion, cancellation, or a dispute freeze, depending on a bounded
//! sequence of authorized actions.
//!
//! The crate is the decision core only. It owns no storage, no signature
//! checking and no value transfer: every operation is a pure function of one
//! escrow record plus one pre-authenticated caller identity, and each
//! successful operation returns a notification record that tells the
//! surrounding layer which transfer (if any) it must perform.

pub mod events;
pub mod laws;
pub mod ops;
pub mod state;
pub mod transition;

pub use events::{
    DisputeRaised, EscrowAccepted, EscrowCancelled, EscrowCreated, FundsReleased, WorkSubmitted,
};
pub use ops::{
    accept_escrow, cancel_escrow, create_escrow, raise_dispute, release_funds, submit_work,
};
pub use state::{Escrow, EscrowError, EscrowStatus, Identity};
pub use transition::Action;
