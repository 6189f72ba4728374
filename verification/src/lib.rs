//! Approval checker assignment VRF criteria.
//!
//! Validators ("checkers") draw approval-check assignments for parachain
//! candidates from a verifiable random function: an assignment is
//! unpredictable before it is made, publicly verifiable afterwards, and its
//! timing (delay tranche) is tunable per criteria.  This crate holds the
//! criteria framework and the create / sign / verify / position pipeline;
//! the elliptic-curve VRF itself comes from `schnorrkel`, and transcripts
//! from `merlin`, both behind small trusted interfaces in `transcript` and
//! `vrf`.

use vstd::prelude::*;

pub mod transcript;
pub mod vrf;
pub mod context;
pub mod criteria;
pub mod assignment;

verus! {

/// Identifier of a parachain.
pub type ParaId = u32;

/// A delay "round number": assignments in tranche 0 check immediately,
/// later tranches only step in if too few checks arrived in time.
pub type DelayTranche = u32;

/// A validator identity: the 32 bytes of its sr25519 public key.
pub type ValidatorId = [u8; 32];

/// A 32-byte block hash.
pub type BlockHash = [u8; 32];

/// Failures of a single assignment evaluation.
#[derive(Clone, Copy, Debug, PartialEq, Eq)]
pub enum Error {
    /// Structural or cryptographic failure of the assignment itself.
    BadAssignment(&'static str),
    /// The supplied story does not support the requested criteria.
    BadStory(&'static str),
}

/// Result type of every fallible assignment operation.
pub type AssignmentResult<T> = Result<T, Error>;

} // verus!
