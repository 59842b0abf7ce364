//! What each operation announces when it succeeds. The surrounding program
//! publishes these for indexers; nothing in this crate reads them back.

use vstd::prelude::*;
use crate::state::Key;

verus! {

/// A bet was accepted.
#[derive(Clone, Copy, Debug, PartialEq, Eq)]
pub struct BountyAccepted {
    pub player: Key,
    pub bounty: Key,
    pub bet_amount: u64,
    pub tier: u8,
    pub expires_at: i64,
}

/// A bounty was settled as won.
#[derive(Clone, Copy, Debug, PartialEq, Eq)]
pub struct BountyWon {
    pub player: Key,
    pub bounty: Key,
    pub payout: u64,
    pub singularity_won: bool,
    pub singularity_amount: u64,
}

/// A bounty was settled as lost and its stake divided.
#[derive(Clone, Copy, Debug, PartialEq, Eq)]
pub struct BountyLost {
    pub player: Key,
    pub bounty: Key,
    pub bet_amount: u64,
    pub house_share: u64,
    pub singularity_share: u64,
    pub burn_share: u64,
    pub protocol_share: u64,
}

/// The house received capital.
#[derive(Clone, Copy, Debug, PartialEq, Eq)]
pub struct HouseFunded {
    pub authority: Key,
    pub amount: u64,
    pub new_balance: u64,
}

/// A mission was revealed and matched its commitment.
#[derive(Clone, Copy, Debug, PartialEq, Eq)]
pub struct MissionRevealed {
    pub bounty: Key,
    pub mission_id: [u8; 32],
    pub commitment_verified: bool,
}

/// An outcome was proposed and the challenge window opened.
#[derive(Clone, Copy, Debug, PartialEq, Eq)]
pub struct BountyResolutionProposed {
    pub bounty: Key,
    pub player: Key,
    pub proposed_win: bool,
    pub challenge_ends_at: i64,
}

/// A proposed loss was contested.
#[derive(Clone, Copy, Debug, PartialEq, Eq)]
pub struct BountyDisputed {
    pub bounty: Key,
    pub player: Key,
    pub dispute_stake: u64,
}

/// A dispute was decided.
#[derive(Clone, Copy, Debug, PartialEq, Eq)]
pub struct DisputeResolved {
    pub bounty: Key,
    pub player: Key,
    pub player_won_dispute: bool,
    pub stake_returned: bool,
}

/// A bounty reached its final status after the challenge window.
#[derive(Clone, Copy, Debug, PartialEq, Eq)]
pub struct BountyFinalized {
    pub bounty: Key,
    pub player: Key,
    /// 1 for a win, 0 for a loss.
    pub final_status: u8,
}

/// The authority took funds out of the treasury.
#[derive(Clone, Copy, Debug, PartialEq, Eq)]
pub struct TreasuryWithdrawn {
    pub authority: Key,
    pub amount: u64,
    pub destination: Key,
}

} // verus!
