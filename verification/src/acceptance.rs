//! Accepting a bet: the start of a bounty.

use vstd::prelude::*;
use crate::errors::SeekError;
use crate::events::BountyAccepted;
use crate::ledger::{Movement, Outcome, Party};
use crate::state::{Bounty, BountyStatus, GlobalState, Key};
use crate::tiers::{get_tier_duration, tier_duration, tier_for_bet, validate_bet_amount};

verus! {

/// Why a bet is not accepted, if it is not: the amount is no tier amount, or
/// the expiry, the payout, the house balance or the bounty counter would
/// leave the 64-bit range.
pub open spec fn accept_rejection(state: GlobalState, bet_amount: u64, now: i64) -> Option<
    SeekError,
> {
    match tier_for_bet(bet_amount) {
        None => Some(SeekError::InvalidBetAmount),
        Some(tier) => {
            if now + tier_duration(tier) > i64::MAX {
                Some(SeekError::MathOverflow)
            } else if bet_amount * 2 > u64::MAX {
                Some(SeekError::MathOverflow)
            } else if state.house_fund_balance + bet_amount > u64::MAX {
                Some(SeekError::MathOverflow)
            } else if state.total_bounties_created + 1 > u64::MAX {
                Some(SeekError::MathOverflow)
            } else {
                None
            }
        },
    }
}

/// Whether `bounty` is the record of a bet that was just accepted: pending,
/// with the terms of its tier, the commitment as given, a zero mission
/// identifier, and nothing revealed, resolved or disputed.
pub open spec fn freshly_accepted(
    bounty: Bounty,
    player: Key,
    registry: Key,
    bump: u8,
    bet_amount: u64,
    mission_commitment: [u8; 32],
    now: i64,
) -> bool {
    &&& bounty.player == player
    &&& bounty.global_state == registry
    &&& bounty.bump == bump
    &&& bounty.bet_amount == bet_amount
    &&& bounty.payout_amount == bet_amount * 2
    &&& bounty.created_at == now
    &&& tier_for_bet(bet_amount) == Some(bounty.tier)
    &&& bounty.expires_at == now + tier_duration(bounty.tier)
    &&& bounty.status is Pending
    &&& bounty.mission_commitment == mission_commitment
    &&& forall|i: int| 0 <= i < 32 ==> bounty.mission_id@[i] == 0
    &&& !bounty.mission_revealed
    &&& bounty.unresolved()
    &&& bounty.undisputed()
    &&& !bounty.singularity_won
}

/// The registry after a bet was accepted.
pub open spec fn state_after_accept(state: GlobalState, bet_amount: u64) -> GlobalState {
    GlobalState {
        house_fund_balance: (state.house_fund_balance + bet_amount) as u64,
        total_bounties_created: (state.total_bounties_created + 1) as u64,
        ..state
    }
}

/// What accepting a bet moves: the stake, from the player to the house.
pub open spec fn accept_movements(bet_amount: u64) -> Seq<Movement> {
    seq![Movement::Transfer { from: Party::Player, to: Party::HouseVault, amount: bet_amount }]
}

/// What accepting a bet announces.
pub open spec fn accept_event(player: Key, bounty_key: Key, bet_amount: u64, now: i64) -> BountyAccepted {
    let tier = tier_for_bet(bet_amount)->0;
    BountyAccepted {
        player,
        bounty: bounty_key,
        bet_amount,
        tier,
        expires_at: (now + tier_duration(tier)) as i64,
    }
}

/// Accepts a bet of `player` at time `now` and creates its bounty record.
///
/// The bet must be one of the three tier amounts (`InvalidBetAmount`
/// otherwise). The new record is pending, pays twice the bet, expires when
/// the tier's timer runs out and stores the commitment as given. The registry
/// counts the bet into the house balance and one more bounty. The stake is to
/// be moved from the player to the house vault. `MathOverflow` is returned
/// when the expiry, the payout or one of the two registry totals would leave
/// its range. A rejected call leaves the registry as it was.
///
/// `registry` and `bounty_key` are the addresses of the registry and of the
/// new record, and `bump` the bump seed of the latter.
pub fn accept_bounty(
    state: &mut GlobalState,
    registry: &Key,
    player: &Key,
    bounty_key: &Key,
    bump: u8,
    bet_amount: u64,
    mission_commitment: [u8; 32],
    now: i64,
) -> (result: Result<(Bounty, Outcome<BountyAccepted>), SeekError>)
    ensures
        match accept_rejection(*old(state), bet_amount, now) {
            Some(e) => {
                &&& result matches Err(err)
                &&& err == e
                &&& *final(state) == *old(state)
            },
            None => {
                &&& result matches Ok((bounty, outcome))
                &&& freshly_accepted(
                    bounty,
                    *player,
                    *registry,
                    bump,
                    bet_amount,
                    mission_commitment,
                    now,
                )
                &&& bounty.wf()
                &&& outcome.event == accept_event(*player, *bounty_key, bet_amount, now)
                &&& outcome.movements@ == accept_movements(bet_amount)
                &&& *final(state) == state_after_accept(*old(state), bet_amount)
            },
        },
{
    let tier = match validate_bet_amount(bet_amount) {
        Ok(tier) => tier,
        Err(e) => { return Err(e); },
    };
    let duration = get_tier_duration(tier);
    let expires_at = match now.checked_add(duration) {
        Some(at) => at,
        None => { return Err(SeekError::MathOverflow); },
    };
    let payout_amount = match bet_amount.checked_mul(2) {
        Some(payout) => payout,
        None => { return Err(SeekError::MathOverflow); },
    };
    let house_after = match state.house_fund_balance.checked_add(bet_amount) {
        Some(balance) => balance,
        None => { return Err(SeekError::MathOverflow); },
    };
    let created_after = match state.total_bounties_created.checked_add(1) {
        Some(created) => created,
        None => { return Err(SeekError::MathOverflow); },
    };
    let bounty = Bounty {
        player: *player,
        global_state: *registry,
        bet_amount,
        payout_amount,
        created_at: now,
        expires_at,
        status: BountyStatus::Pending,
        tier,
        singularity_won: false,
        bump,
        mission_commitment,
        mission_id: [0u8; 32],
        mission_revealed: false,
        resolved_at: 0,
        challenge_ends_at: 0,
        proposed_win: false,
        is_disputed: false,
        dispute_stake: 0,
        disputed_at: 0,
    };
    let mut movements: Vec<Movement> = Vec::new();
    movements.push(
        Movement::Transfer { from: Party::Player, to: Party::HouseVault, amount: bet_amount },
    );
    assert(movements@ =~= accept_movements(bet_amount));
    state.house_fund_balance = house_after;
    state.total_bounties_created = created_after;
    let event = BountyAccepted { player: *player, bounty: *bounty_key, bet_amount, tier, expires_at };
    Ok((bounty, Outcome { event, movements }))
}

} // verus!
