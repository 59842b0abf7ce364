//! The oracle's two steps: revealing the mission and proposing an outcome.
//!
//! Both are reserved to the registry's authority. The reveal shows that the
//! mission was fixed before the hunt began; the proposal opens the challenge
//! window, after which the outcome can be finalized.

use vstd::prelude::*;
use crate::bytes::same_bytes;
use crate::commitment::{commitment_of, compute_commitment};
use crate::errors::SeekError;
use crate::events::{BountyResolutionProposed, MissionRevealed};
use crate::shares::CHALLENGE_PERIOD;
use crate::state::{Bounty, BountyStatus, GlobalState, Key};

verus! {

/// Whether a caller is the authority of the registry.
pub open spec fn is_authority(state: GlobalState, caller: Key) -> bool {
    caller@ == state.authority@
}

/// Why a reveal is rejected, if it is, given the digest of what is revealed.
/// The checks come in this order: the caller, the status, an earlier reveal,
/// the digest.
pub open spec fn reveal_rejection(
    state: GlobalState,
    bounty: Bounty,
    caller: Key,
    digest: Seq<u8>,
) -> Option<SeekError> {
    if !is_authority(state, caller) {
        Some(SeekError::Unauthorized)
    } else if !(bounty.status is Pending || bounty.status is Submitted) {
        Some(SeekError::BountyAlreadyResolved)
    } else if bounty.mission_revealed {
        Some(SeekError::MissionAlreadyRevealed)
    } else if digest != bounty.mission_commitment@ {
        Some(SeekError::InvalidMissionHash)
    } else {
        None
    }
}

/// The bounty after its mission was revealed.
pub open spec fn bounty_after_reveal(bounty: Bounty, mission_id: [u8; 32]) -> Bounty {
    Bounty { mission_id, mission_revealed: true, status: BountyStatus::Submitted, ..bounty }
}

/// What a reveal announces.
pub open spec fn reveal_event(bounty_key: Key, mission_id: [u8; 32]) -> MissionRevealed {
    MissionRevealed { bounty: bounty_key, mission_id, commitment_verified: true }
}

/// Reveals a mission whose digest the caller has already computed.
///
/// Rejected with `Unauthorized` unless the caller is the authority, with
/// `BountyAlreadyResolved` unless the bounty is pending or submitted, with
/// `MissionAlreadyRevealed` if a mission was revealed before, and with
/// `InvalidMissionHash` unless `digest` equals the stored commitment.
/// Otherwise the mission identifier is stored and the bounty is submitted.
/// A rejected call changes nothing.
pub fn reveal_with_digest(
    state: &GlobalState,
    bounty: &mut Bounty,
    bounty_key: &Key,
    caller: &Key,
    mission_id: [u8; 32],
    digest: &[u8; 32],
) -> (result: Result<MissionRevealed, SeekError>)
    ensures
        match reveal_rejection(*state, *old(bounty), *caller, digest@) {
            Some(e) => result == Err::<MissionRevealed, SeekError>(e) && *final(bounty) == *old(
                bounty,
            ),
            None => {
                &&& result == Ok::<MissionRevealed, SeekError>(
                    reveal_event(*bounty_key, mission_id),
                )
                &&& *final(bounty) == bounty_after_reveal(*old(bounty), mission_id)
            },
        },
{
    if !same_bytes(caller, &state.authority) {
        return Err(SeekError::Unauthorized);
    }
    match bounty.status {
        BountyStatus::Pending | BountyStatus::Submitted => {},
        _ => { return Err(SeekError::BountyAlreadyResolved); },
    }
    if bounty.mission_revealed {
        return Err(SeekError::MissionAlreadyRevealed);
    }
    if !same_bytes(digest, &bounty.mission_commitment) {
        return Err(SeekError::InvalidMissionHash);
    }
    bounty.mission_id = mission_id;
    bounty.mission_revealed = true;
    bounty.status = BountyStatus::Submitted;
    Ok(MissionRevealed { bounty: *bounty_key, mission_id, commitment_verified: true })
}

/// Reveals the mission of a bounty: the identifier and the salt must hash,
/// one after the other, to the commitment stored when the bet was accepted.
///
/// This is `reveal_with_digest` with the SHA-256 digest of the 64 bytes
/// `mission_id` followed by `salt`: the same rejections in the same order, with
/// `InvalidMissionHash` exactly when the caller, the status and the reveal
/// flag pass and that digest differs from the commitment.
pub fn reveal_mission(
    state: &GlobalState,
    bounty: &mut Bounty,
    bounty_key: &Key,
    caller: &Key,
    mission_id: [u8; 32],
    salt: [u8; 32],
) -> (result: Result<MissionRevealed, SeekError>)
    ensures
        match reveal_rejection(
            *state,
            *old(bounty),
            *caller,
            commitment_of(mission_id@, salt@),
        ) {
            Some(e) => result == Err::<MissionRevealed, SeekError>(e) && *final(bounty) == *old(
                bounty,
            ),
            None => {
                &&& result == Ok::<MissionRevealed, SeekError>(
                    reveal_event(*bounty_key, mission_id),
                )
                &&& *final(bounty) == bounty_after_reveal(*old(bounty), mission_id)
            },
        },
{
    let digest = compute_commitment(&mission_id, &salt);
    reveal_with_digest(state, bounty, bounty_key, caller, mission_id, &digest)
}

/// Why a proposal is rejected, if it is. The checks come in this order: the
/// caller, the reveal, the status, the end of the challenge window.
pub open spec fn propose_rejection(state: GlobalState, bounty: Bounty, caller: Key, now: i64) -> Option<
    SeekError,
> {
    if !is_authority(state, caller) {
        Some(SeekError::Unauthorized)
    } else if !bounty.mission_revealed {
        Some(SeekError::MissionNotRevealed)
    } else if !(bounty.status is Submitted) {
        Some(SeekError::BountyAlreadyResolved)
    } else if now + CHALLENGE_PERIOD > i64::MAX {
        Some(SeekError::MathOverflow)
    } else {
        None
    }
}

/// The bounty after an outcome was proposed at `now`.
pub open spec fn bounty_after_proposal(bounty: Bounty, success: bool, now: i64) -> Bounty {
    Bounty {
        resolved_at: now,
        challenge_ends_at: (now + CHALLENGE_PERIOD) as i64,
        proposed_win: success,
        status: if success {
            BountyStatus::ChallengeWon
        } else {
            BountyStatus::ChallengeLost
        },
        ..bounty
    }
}

/// What a proposal announces.
pub open spec fn proposal_event(bounty: Bounty, bounty_key: Key, success: bool, now: i64) -> BountyResolutionProposed {
    BountyResolutionProposed {
        bounty: bounty_key,
        player: bounty.player,
        proposed_win: success,
        challenge_ends_at: (now + CHALLENGE_PERIOD) as i64,
    }
}

/// Proposes the outcome of a bounty and opens its challenge window, which
/// closes 300 seconds after `now`.
///
/// Rejected with `Unauthorized` unless the caller is the authority, with
/// `MissionNotRevealed` before the reveal, with `BountyAlreadyResolved`
/// unless the bounty is submitted, and with `MathOverflow` if the end of the
/// window is past the last timestamp. Otherwise the bounty records `now`, the
/// end of the window and the outcome, and moves to `ChallengeWon` or
/// `ChallengeLost`. A rejected call changes nothing.
pub fn propose_resolution(
    state: &GlobalState,
    bounty: &mut Bounty,
    bounty_key: &Key,
    caller: &Key,
    success: bool,
    now: i64,
) -> (result: Result<BountyResolutionProposed, SeekError>)
    ensures
        match propose_rejection(*state, *old(bounty), *caller, now) {
            Some(e) => result == Err::<BountyResolutionProposed, SeekError>(e) && *final(bounty)
                == *old(bounty),
            None => {
                &&& result == Ok::<BountyResolutionProposed, SeekError>(
                    proposal_event(*old(bounty), *bounty_key, success, now),
                )
                &&& *final(bounty) == bounty_after_proposal(*old(bounty), success, now)
            },
        },
{
    if !same_bytes(caller, &state.authority) {
        return Err(SeekError::Unauthorized);
    }
    if !bounty.mission_revealed {
        return Err(SeekError::MissionNotRevealed);
    }
    match bounty.status {
        BountyStatus::Submitted => {},
        _ => { return Err(SeekError::BountyAlreadyResolved); },
    }
    let challenge_ends_at = match now.checked_add(CHALLENGE_PERIOD) {
        Some(at) => at,
        None => { return Err(SeekError::MathOverflow); },
    };
    bounty.resolved_at = now;
    bounty.challenge_ends_at = challenge_ends_at;
    bounty.proposed_win = success;
    bounty.status = if success {
        BountyStatus::ChallengeWon
    } else {
        BountyStatus::ChallengeLost
    };
    Ok(
        BountyResolutionProposed {
            bounty: *bounty_key,
            player: bounty.player,
            proposed_win: success,
            challenge_ends_at,
        },
    )
}

} // verus!
