//! Verified core of the Seek wagering escrow.
//!
//! A player stakes one of three fixed bets on a mission. The stake rests in
//! the house vault until an oracle reveals the mission, proposes an outcome,
//! and the outcome is either finalized after a challenge window or disputed
//! and arbitrated. Every operation here is a pure transition on plain values:
//! it reads the registry and one bounty record, and either rejects the call
//! leaving both untouched, or commits new values and returns the ledger
//! movements and the notification that the surrounding program must carry out.

pub mod acceptance;
pub mod bytes;
pub mod commitment;
pub mod dispute;
pub mod errors;
pub mod events;
pub mod laws;
pub mod ledger;
pub mod lifecycle;
pub mod registry;
pub mod resolution;
pub mod settlement;
pub mod shares;
pub mod state;
pub mod tiers;

pub use crate::acceptance::accept_bounty;
pub use crate::commitment::compute_commitment;
pub use crate::dispute::{dispute_bounty, resolve_dispute};
pub use crate::errors::SeekError;
pub use crate::events::{
    BountyAccepted, BountyDisputed, BountyFinalized, BountyLost, BountyResolutionProposed,
    BountyWon, DisputeResolved, HouseFunded, MissionRevealed, TreasuryWithdrawn,
};
pub use crate::ledger::{Movement, Outcome, Party};
pub use crate::registry::{fund_house, initialize, withdraw_treasury};
pub use crate::resolution::{propose_resolution, reveal_mission, reveal_with_digest};
pub use crate::settlement::{finalize_bounty, finalize_with_draw, Settlement};
pub use crate::shares::{
    checked_share, jackpot_draw, split_loss, LossSplit, BPS_DENOMINATOR, BURN_SHARE_BPS,
    CHALLENGE_PERIOD, DISPUTE_STAKE_BPS, DISPUTE_WINDOW, HOUSE_SHARE_BPS, PROTOCOL_SHARE_BPS,
    SINGULARITY_ODDS, SINGULARITY_SHARE_BPS,
};
pub use crate::state::{Bounty, BountyStatus, GlobalState, Key};
pub use crate::tiers::{
    get_tier_duration, validate_bet_amount, TIER_1_BET, TIER_1_DURATION, TIER_2_BET,
    TIER_2_DURATION, TIER_3_BET, TIER_3_DURATION,
};
