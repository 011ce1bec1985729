//! Collective decision making for a multi-party authority: a group of
//! registered members approves or rejects proposals by casting ballots,
//! with the outcome determined by a quorum threshold and a deadline.
//!
//! The heart of the crate is the vote-processing state machine in
//! [`vote`]: the ordered validations, lazy ballot-record creation, ballot
//! recording, and tally-driven status transition that run on every vote.
//! [`state`] holds the fixed-layout record codecs, [`addr`] the seed-based
//! address derivation, and [`laws`] the proved properties of the machine.

use vstd::prelude::*;

pub mod addr;
pub mod laws;
pub mod state;
pub mod vote;

verus! {

/// Every way a vote request can be rejected. The first failing check wins
/// and the records are left untouched.
#[derive(Clone, Copy, Debug, PartialEq, Eq, Structural)]
pub enum VoteError {
    /// The instruction payload is too short or carries the wrong opcode.
    MalformedInstruction,
    /// The voter did not sign the enclosing transaction.
    Unauthorized,
    /// A record that must be written was not declared writable.
    NotWritable,
    /// The submitted vote choice is outside the allowed set {1, 2, 3}.
    InvalidChoice,
    /// A supplied record is not owned by this program.
    WrongOwner,
    /// A record's bytes do not decode as the expected entity.
    MalformedRecord,
    /// The voter is not listed among the group's members.
    NotAMember,
    /// A claimed record address does not match its seed derivation.
    BadAddress,
    /// The proposal record carries a different proposal id than requested.
    ProposalMismatch,
    /// The proposal has already been finalized or cancelled.
    ProposalNotActive,
    /// The current time is past the proposal's expiry.
    ProposalExpired,
    /// The voter is a group member but not on the proposal's allow-list.
    NotEligible,
    /// The ballot record has its permission flag cleared.
    PermissionDenied,
    /// The voter's ballot slot is already filled.
    DuplicateVote,
}

} // verus!
