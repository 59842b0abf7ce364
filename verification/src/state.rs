//! The persisted records: the global registry and one record per bounty.

use vstd::prelude::*;
use crate::shares::{dispute_stake_of, CHALLENGE_PERIOD};
use crate::tiers::{tier_duration, tier_for_bet};

verus! {

/// A 32-byte identity: a caller's key or the address of an account.
pub type Key = [u8; 32];

/// The registry of the protocol: who governs it, where its three vaults are,
/// and the running totals.
#[derive(Clone, Copy, Debug, PartialEq, Eq)]
pub struct GlobalState {
    /// The identity allowed to perform the privileged operations.
    pub authority: Key,
    /// Address of the house vault.
    pub house_vault: Key,
    /// Address of the jackpot vault.
    pub singularity_vault: Key,
    /// Address of the protocol treasury.
    pub protocol_treasury: Key,
    /// Tracked balance of the house.
    pub house_fund_balance: u64,
    /// Tracked balance of the jackpot pool.
    pub singularity_balance: u64,
    /// Everything burned so far.
    pub total_burned: u64,
    /// Bounties accepted so far.
    pub total_bounties_created: u64,
    /// Bounties that ended as won.
    pub total_bounties_won: u64,
    /// Bounties that ended as lost.
    pub total_bounties_lost: u64,
    /// Wins that took the jackpot.
    pub total_singularity_wins: u64,
    /// Bump seed of the registry's address.
    pub bump: u8,
}

impl GlobalState {
    /// Whether `later` keeps what never changes in a registry and has no
    /// counter below this one's.
    pub open spec fn precedes(self, later: GlobalState) -> bool {
        &&& later.authority == self.authority
        &&& later.house_vault == self.house_vault
        &&& later.singularity_vault == self.singularity_vault
        &&& later.protocol_treasury == self.protocol_treasury
        &&& later.bump == self.bump
        &&& later.total_burned >= self.total_burned
        &&& later.total_bounties_created >= self.total_bounties_created
        &&& later.total_bounties_won >= self.total_bounties_won
        &&& later.total_bounties_lost >= self.total_bounties_lost
        &&& later.total_singularity_wins >= self.total_singularity_wins
    }
}

/// Where a bounty stands in its lifecycle.
#[derive(Clone, Copy, Debug, PartialEq, Eq, Structural)]
pub enum BountyStatus {
    /// Accepted; the player is hunting.
    Pending,
    /// The mission has been revealed; an outcome is awaited.
    Submitted,
    /// A win was proposed and can still be challenged.
    ChallengeWon,
    /// A loss was proposed and can still be challenged.
    ChallengeLost,
    /// The player contested a proposed loss.
    Disputed,
    /// Final: the player won.
    Won,
    /// Final: the player lost.
    Lost,
    /// Final: withdrawn before the hunt began. No operation here enters it.
    Cancelled,
}

impl BountyStatus {
    /// How far along the lifecycle a status is. Every transition goes to a
    /// status of higher stage, but for a reveal that finds the bounty
    /// already submitted.
    pub open spec fn stage(self) -> int {
        match self {
            BountyStatus::Pending => 0,
            BountyStatus::Submitted => 1,
            BountyStatus::ChallengeWon => 2,
            BountyStatus::ChallengeLost => 2,
            BountyStatus::Disputed => 3,
            BountyStatus::Won => 4,
            BountyStatus::Lost => 4,
            BountyStatus::Cancelled => 4,
        }
    }

    /// Whether no operation leads out of this status.
    pub open spec fn is_final(self) -> bool {
        self is Won || self is Lost || self is Cancelled
    }
}

/// One accepted bet and everything that has happened to it.
#[derive(Clone, Copy, Debug, PartialEq, Eq)]
pub struct Bounty {
    /// The bettor.
    pub player: Key,
    /// Address of the registry this bounty belongs to.
    pub global_state: Key,
    /// The stake: one of the three tier amounts.
    pub bet_amount: u64,
    /// What a win pays: twice the stake.
    pub payout_amount: u64,
    /// When the bet was accepted.
    pub created_at: i64,
    /// When the hunt timer runs out.
    pub expires_at: i64,
    /// The lifecycle state.
    pub status: BountyStatus,
    /// The tier, 1 to 3.
    pub tier: u8,
    /// Whether this bounty took the jackpot.
    pub singularity_won: bool,
    /// Bump seed of the bounty's address.
    pub bump: u8,
    /// Digest of the mission identifier followed by a salt, fixed at creation.
    pub mission_commitment: [u8; 32],
    /// The mission identifier, once revealed.
    pub mission_id: [u8; 32],
    /// Whether the mission has been revealed.
    pub mission_revealed: bool,
    /// When an outcome was proposed.
    pub resolved_at: i64,
    /// When the challenge window closes.
    pub challenge_ends_at: i64,
    /// The proposed outcome.
    pub proposed_win: bool,
    /// Whether the player has contested the proposed loss.
    pub is_disputed: bool,
    /// What the player staked on the dispute.
    pub dispute_stake: u64,
    /// When the dispute was filed.
    pub disputed_at: i64,
}

impl Bounty {
    /// What is fixed when a bet is accepted: the stake is a tier amount, the
    /// payout is twice the stake, and the hunt timer is the tier's.
    pub open spec fn terms_valid(self) -> bool {
        &&& tier_for_bet(self.bet_amount) == Some(self.tier)
        &&& self.payout_amount == 2 * self.bet_amount
        &&& self.expires_at == self.created_at + tier_duration(self.tier)
    }

    /// Whether nothing has been recorded of a resolution yet.
    pub open spec fn unresolved(self) -> bool {
        &&& self.resolved_at == 0
        &&& self.challenge_ends_at == 0
        &&& !self.proposed_win
    }

    /// Whether nothing has been recorded of a dispute.
    pub open spec fn undisputed(self) -> bool {
        &&& !self.is_disputed
        &&& self.dispute_stake == 0
        &&& self.disputed_at == 0
    }

    /// Whether a dispute has been recorded as the dispute operation does.
    pub open spec fn dispute_recorded(self) -> bool {
        &&& self.is_disputed
        &&& self.dispute_stake == dispute_stake_of(self.bet_amount)
        &&& self.disputed_at < self.challenge_ends_at
        &&& !self.proposed_win
    }

    /// Whether a proposal has been recorded as the proposal operation does.
    pub open spec fn proposal_recorded(self) -> bool {
        self.challenge_ends_at == self.resolved_at + CHALLENGE_PERIOD
    }

    /// The invariant of a bounty record: its terms are valid and its fields
    /// agree with its status as the operations of this crate leave them.
    pub open spec fn wf(self) -> bool {
        &&& self.terms_valid()
        &&& match self.status {
            BountyStatus::Pending | BountyStatus::Cancelled => {
                &&& !self.mission_revealed
                &&& self.unresolved()
                &&& self.undisputed()
                &&& !self.singularity_won
            },
            BountyStatus::Submitted => {
                &&& self.mission_revealed
                &&& self.unresolved()
                &&& self.undisputed()
                &&& !self.singularity_won
            },
            BountyStatus::ChallengeWon => {
                &&& self.mission_revealed
                &&& self.proposal_recorded()
                &&& self.proposed_win
                &&& self.undisputed()
                &&& !self.singularity_won
            },
            BountyStatus::ChallengeLost => {
                &&& self.mission_revealed
                &&& self.proposal_recorded()
                &&& !self.proposed_win
                &&& self.undisputed()
                &&& !self.singularity_won
            },
            BountyStatus::Disputed => {
                &&& self.mission_revealed
                &&& self.proposal_recorded()
                &&& self.dispute_recorded()
                &&& !self.singularity_won
            },
            BountyStatus::Won => {
                &&& self.mission_revealed
                &&& self.proposal_recorded()
                &&& if self.proposed_win {
                    self.undisputed()
                } else {
                    self.dispute_recorded() && !self.singularity_won
                }
            },
            BountyStatus::Lost => {
                &&& self.mission_revealed
                &&& self.proposal_recorded()
                &&& !self.proposed_win
                &&& !self.singularity_won
                &&& (self.undisputed() || self.dispute_recorded())
            },
        }
    }

    /// Whether `later` is this bounty with nothing changed that is fixed at
    /// creation: the player, the registry, the terms and the commitment.
    pub open spec fn same_identity(self, later: Bounty) -> bool {
        &&& later.player == self.player
        &&& later.global_state == self.global_state
        &&& later.bet_amount == self.bet_amount
        &&& later.payout_amount == self.payout_amount
        &&& later.created_at == self.created_at
        &&& later.expires_at == self.expires_at
        &&& later.tier == self.tier
        &&& later.bump == self.bump
        &&& later.mission_commitment == self.mission_commitment
    }

    /// The stake of an open dispute, which rests in the house vault without
    /// being counted in the tracked house balance.
    pub open spec fn escrowed_stake(self) -> int {
        if self.status is Disputed {
            self.dispute_stake as int
        } else {
            0
        }
    }
}

} // verus!
