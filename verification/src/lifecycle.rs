//! The lifecycle of a bounty as one transition table.
//!
//! A bounty moves `Pending -> Submitted -> ChallengeWon | ChallengeLost ->
//! Won | Lost`, with the side path `ChallengeLost -> Disputed -> Won | Lost`.
//! `Call` names the five operations that act on an existing bounty, and the
//! functions here say for each call whether it is rejected and what it
//! leaves behind. They are assembled from the functions that the contracts of
//! the operations are stated with, so that a property proved of every call
//! holds of every operation.

use vstd::prelude::*;
use crate::dispute::{
    bounty_after_dispute, bounty_after_verdict, dispute_movements, dispute_rejection,
    resolve_rejection, state_after_verdict, verdict_movements,
};
use crate::errors::SeekError;
use crate::ledger::Movement;
use crate::resolution::{
    bounty_after_proposal, bounty_after_reveal, propose_rejection, reveal_rejection,
};
use crate::settlement::{
    bounty_after_finalize, finalize_movements, finalize_rejection, state_after_finalize,
};
use crate::state::{Bounty, GlobalState, Key};

verus! {

/// One call of an operation on an existing bounty, with its arguments.
pub enum Call {
    /// The authority reveals a mission; `digest` is the digest of the
    /// revealed identifier and salt.
    Reveal { caller: Key, mission_id: [u8; 32], digest: Seq<u8> },
    /// The authority proposes an outcome at `now`.
    Propose { caller: Key, success: bool, now: i64 },
    /// Anyone finalizes at `now` with the given jackpot draw.
    Finalize { now: i64, draw: Option<u64> },
    /// The player disputes at `now`.
    Dispute { caller: Key, now: i64 },
    /// The authority decides a dispute.
    Resolve { caller: Key, player_wins: bool },
}

/// Why a call is rejected, if it is.
pub open spec fn rejection(state: GlobalState, bounty: Bounty, call: Call) -> Option<SeekError> {
    match call {
        Call::Reveal { caller, mission_id, digest } => reveal_rejection(
            state,
            bounty,
            caller,
            digest,
        ),
        Call::Propose { caller, success, now } => propose_rejection(state, bounty, caller, now),
        Call::Finalize { now, draw } => finalize_rejection(state, bounty, now, draw),
        Call::Dispute { caller, now } => dispute_rejection(bounty, caller, now),
        Call::Resolve { caller, player_wins } => resolve_rejection(
            state,
            bounty,
            caller,
            player_wins,
        ),
    }
}

/// The bounty after a call: unchanged if the call is rejected.
pub open spec fn bounty_after(state: GlobalState, bounty: Bounty, call: Call) -> Bounty {
    if rejection(state, bounty, call) is Some {
        bounty
    } else {
        match call {
            Call::Reveal { caller, mission_id, digest } => bounty_after_reveal(bounty, mission_id),
            Call::Propose { caller, success, now } => bounty_after_proposal(bounty, success, now),
            Call::Finalize { now, draw } => bounty_after_finalize(state, bounty, draw),
            Call::Dispute { caller, now } => bounty_after_dispute(bounty, now),
            Call::Resolve { caller, player_wins } => bounty_after_verdict(bounty, player_wins),
        }
    }
}

/// The registry after a call: unchanged if the call is rejected.
pub open spec fn state_after(state: GlobalState, bounty: Bounty, call: Call) -> GlobalState {
    if rejection(state, bounty, call) is Some {
        state
    } else {
        match call {
            Call::Finalize { now, draw } => state_after_finalize(state, bounty, draw),
            Call::Resolve { caller, player_wins } => state_after_verdict(
                state,
                bounty,
                player_wins,
            ),
            _ => state,
        }
    }
}

/// The ledger movements of a call: none if the call is rejected.
pub open spec fn movements_of(state: GlobalState, bounty: Bounty, call: Call) -> Seq<Movement> {
    if rejection(state, bounty, call) is Some {
        Seq::empty()
    } else {
        match call {
            Call::Finalize { now, draw } => finalize_movements(state, bounty, draw),
            Call::Dispute { caller, now } => dispute_movements(bounty),
            Call::Resolve { caller, player_wins } => verdict_movements(bounty, player_wins),
            _ => Seq::empty(),
        }
    }
}

} // verus!
