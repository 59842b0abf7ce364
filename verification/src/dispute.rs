//! Contesting a proposed loss, and the authority's verdict.
//!
//! A player who disagrees with a proposed loss stakes half the bet before the
//! challenge window closes. The stake rests in the house vault without being
//! counted in the tracked house balance. If the authority sides with the
//! player, the house pays back the bet, the stake and one more bet; if not,
//! the stake is counted into the house balance.

use vstd::prelude::*;
use crate::bytes::same_bytes;
use crate::errors::SeekError;
use crate::events::{BountyDisputed, DisputeResolved};
use crate::ledger::{Movement, Outcome, Party};
use crate::resolution::is_authority;
use crate::shares::{checked_share, dispute_stake_of, share_overflows, DISPUTE_STAKE_BPS};
use crate::state::{Bounty, BountyStatus, GlobalState, Key};

verus! {

/// Why a dispute is rejected, if it is. The checks come in this order: the
/// caller, an earlier dispute, the status, the challenge window, the stake.
pub open spec fn dispute_rejection(bounty: Bounty, caller: Key, now: i64) -> Option<SeekError> {
    if caller@ != bounty.player@ {
        Some(SeekError::Unauthorized)
    } else if bounty.is_disputed {
        Some(SeekError::AlreadyDisputed)
    } else if !(bounty.status is ChallengeLost) {
        Some(SeekError::BountyNotPending)
    } else if now >= bounty.challenge_ends_at {
        Some(SeekError::ChallengePeriodEnded)
    } else if share_overflows(bounty.bet_amount, DISPUTE_STAKE_BPS) {
        Some(SeekError::MathOverflow)
    } else {
        None
    }
}

/// The bounty after its loss was disputed at `now`.
pub open spec fn bounty_after_dispute(bounty: Bounty, now: i64) -> Bounty {
    Bounty {
        is_disputed: true,
        dispute_stake: dispute_stake_of(bounty.bet_amount) as u64,
        disputed_at: now,
        status: BountyStatus::Disputed,
        ..bounty
    }
}

/// What a dispute moves: the stake, from the player to the house vault.
pub open spec fn dispute_movements(bounty: Bounty) -> Seq<Movement> {
    seq![
        Movement::Transfer {
            from: Party::Player,
            to: Party::HouseVault,
            amount: dispute_stake_of(bounty.bet_amount) as u64,
        },
    ]
}

/// What a dispute announces.
pub open spec fn dispute_event(bounty: Bounty, bounty_key: Key) -> BountyDisputed {
    BountyDisputed {
        bounty: bounty_key,
        player: bounty.player,
        dispute_stake: dispute_stake_of(bounty.bet_amount) as u64,
    }
}

/// Disputes a proposed loss at time `now`.
///
/// Rejected with `Unauthorized` unless the caller is the bounty's player,
/// with `AlreadyDisputed` if a dispute is recorded, with `BountyNotPending`
/// unless the bounty is in `ChallengeLost`, with `ChallengePeriodEnded` once
/// `now` has reached the end of the challenge window, and with `MathOverflow`
/// if the stake cannot be computed. Otherwise the bounty records the dispute
/// and a stake of half the bet, which is to be moved from the player to the
/// house vault. A rejected call changes nothing.
pub fn dispute_bounty(bounty: &mut Bounty, bounty_key: &Key, caller: &Key, now: i64) -> (result:
    Result<Outcome<BountyDisputed>, SeekError>)
    ensures
        match dispute_rejection(*old(bounty), *caller, now) {
            Some(e) => {
                &&& result matches Err(err)
                &&& err == e
                &&& *final(bounty) == *old(bounty)
            },
            None => {
                &&& result matches Ok(outcome)
                &&& outcome.event == dispute_event(*old(bounty), *bounty_key)
                &&& outcome.movements@ == dispute_movements(*old(bounty))
                &&& *final(bounty) == bounty_after_dispute(*old(bounty), now)
            },
        },
{
    if !same_bytes(caller, &bounty.player) {
        return Err(SeekError::Unauthorized);
    }
    if bounty.is_disputed {
        return Err(SeekError::AlreadyDisputed);
    }
    match bounty.status {
        BountyStatus::ChallengeLost => {},
        _ => { return Err(SeekError::BountyNotPending); },
    }
    if now >= bounty.challenge_ends_at {
        return Err(SeekError::ChallengePeriodEnded);
    }
    let dispute_stake = match checked_share(bounty.bet_amount, DISPUTE_STAKE_BPS) {
        Ok(stake) => stake,
        Err(e) => { return Err(e); },
    };
    let mut movements: Vec<Movement> = Vec::new();
    movements.push(
        Movement::Transfer { from: Party::Player, to: Party::HouseVault, amount: dispute_stake },
    );
    assert(movements@ =~= dispute_movements(*old(bounty)));
    bounty.is_disputed = true;
    bounty.dispute_stake = dispute_stake;
    bounty.disputed_at = now;
    bounty.status = BountyStatus::Disputed;
    let event = BountyDisputed { bounty: *bounty_key, player: bounty.player, dispute_stake };
    Ok(Outcome { event, movements })
}

/// What the house pays a player who wins a dispute: the bet, the stake, and
/// one more bet.
pub open spec fn dispute_refund(bounty: Bounty) -> int {
    bounty.bet_amount + bounty.dispute_stake + bounty.bet_amount
}

/// Why a verdict is rejected, if it is. After the caller and the status,
/// each case is a checked operation that leaves the 64-bit range; a house
/// balance below the refund is one of them.
pub open spec fn resolve_rejection(
    state: GlobalState,
    bounty: Bounty,
    caller: Key,
    player_wins: bool,
) -> Option<SeekError> {
    if !is_authority(state, caller) {
        Some(SeekError::Unauthorized)
    } else if !(bounty.status is Disputed) {
        Some(SeekError::NotDisputed)
    } else if player_wins {
        if dispute_refund(bounty) > u64::MAX {
            Some(SeekError::MathOverflow)
        } else if state.house_fund_balance < dispute_refund(bounty) {
            Some(SeekError::MathOverflow)
        } else if state.total_bounties_won + 1 > u64::MAX {
            Some(SeekError::MathOverflow)
        } else {
            None
        }
    } else {
        if state.house_fund_balance + bounty.dispute_stake > u64::MAX {
            Some(SeekError::MathOverflow)
        } else if state.total_bounties_lost + 1 > u64::MAX {
            Some(SeekError::MathOverflow)
        } else {
            None
        }
    }
}

/// The registry after a verdict.
pub open spec fn state_after_verdict(state: GlobalState, bounty: Bounty, player_wins: bool) -> GlobalState {
    if player_wins {
        GlobalState {
            house_fund_balance: (state.house_fund_balance - dispute_refund(bounty)) as u64,
            total_bounties_won: (state.total_bounties_won + 1) as u64,
            ..state
        }
    } else {
        GlobalState {
            house_fund_balance: (state.house_fund_balance + bounty.dispute_stake) as u64,
            total_bounties_lost: (state.total_bounties_lost + 1) as u64,
            ..state
        }
    }
}

/// The bounty after a verdict.
pub open spec fn bounty_after_verdict(bounty: Bounty, player_wins: bool) -> Bounty {
    Bounty {
        status: if player_wins {
            BountyStatus::Won
        } else {
            BountyStatus::Lost
        },
        ..bounty
    }
}

/// What a verdict moves: the refund from the house to the player if the
/// player wins, nothing if not.
pub open spec fn verdict_movements(bounty: Bounty, player_wins: bool) -> Seq<Movement> {
    if player_wins {
        seq![
            Movement::Transfer {
                from: Party::HouseVault,
                to: Party::Player,
                amount: dispute_refund(bounty) as u64,
            },
        ]
    } else {
        Seq::empty()
    }
}

/// What a verdict announces.
pub open spec fn verdict_event(bounty: Bounty, bounty_key: Key, player_wins: bool) -> DisputeResolved {
    DisputeResolved {
        bounty: bounty_key,
        player: bounty.player,
        player_won_dispute: player_wins,
        stake_returned: player_wins,
    }
}

/// Decides a dispute.
///
/// Rejected with `Unauthorized` unless the caller is the authority and with
/// `NotDisputed` unless the bounty is disputed. If the player wins, the house
/// pays bet, stake and one more bet; the tracked house balance drops by that
/// refund and the bounty is won. If not, the stake is added to the tracked
/// house balance and the bounty is lost. `MathOverflow` is returned when the
/// refund, a balance or a counter would leave the 64-bit range, which
/// includes a house balance below the refund. A rejected call changes nothing.
pub fn resolve_dispute(
    state: &mut GlobalState,
    bounty: &mut Bounty,
    bounty_key: &Key,
    caller: &Key,
    player_wins: bool,
) -> (result: Result<Outcome<DisputeResolved>, SeekError>)
    ensures
        match resolve_rejection(*old(state), *old(bounty), *caller, player_wins) {
            Some(e) => {
                &&& result matches Err(err)
                &&& err == e
                &&& *final(state) == *old(state)
                &&& *final(bounty) == *old(bounty)
            },
            None => {
                &&& result matches Ok(outcome)
                &&& outcome.event == verdict_event(*old(bounty), *bounty_key, player_wins)
                &&& outcome.movements@ == verdict_movements(*old(bounty), player_wins)
                &&& *final(state) == state_after_verdict(*old(state), *old(bounty), player_wins)
                &&& *final(bounty) == bounty_after_verdict(*old(bounty), player_wins)
            },
        },
{
    if !same_bytes(caller, &state.authority) {
        return Err(SeekError::Unauthorized);
    }
    match bounty.status {
        BountyStatus::Disputed => {},
        _ => { return Err(SeekError::NotDisputed); },
    }
    let mut movements: Vec<Movement> = Vec::new();
    if player_wins {
        let total_refund = match bounty.bet_amount.checked_add(bounty.dispute_stake) {
            Some(sum) => match sum.checked_add(bounty.bet_amount) {
                Some(refund) => refund,
                None => { return Err(SeekError::MathOverflow); },
            },
            None => { return Err(SeekError::MathOverflow); },
        };
        let house_after = match state.house_fund_balance.checked_sub(total_refund) {
            Some(balance) => balance,
            None => { return Err(SeekError::MathOverflow); },
        };
        let won_after = match state.total_bounties_won.checked_add(1) {
            Some(won) => won,
            None => { return Err(SeekError::MathOverflow); },
        };
        movements.push(
            Movement::Transfer {
                from: Party::HouseVault,
                to: Party::Player,
                amount: total_refund,
            },
        );
        state.house_fund_balance = house_after;
        state.total_bounties_won = won_after;
        bounty.status = BountyStatus::Won;
    } else {
        let house_after = match state.house_fund_balance.checked_add(bounty.dispute_stake) {
            Some(balance) => balance,
            None => { return Err(SeekError::MathOverflow); },
        };
        let lost_after = match state.total_bounties_lost.checked_add(1) {
            Some(lost) => lost,
            None => { return Err(SeekError::MathOverflow); },
        };
        state.house_fund_balance = house_after;
        state.total_bounties_lost = lost_after;
        bounty.status = BountyStatus::Lost;
    }
    assert(movements@ =~= verdict_movements(*old(bounty), player_wins));
    let event = DisputeResolved {
        bounty: *bounty_key,
        player: bounty.player,
        player_won_dispute: player_wins,
        stake_returned: player_wins,
    };
    Ok(Outcome { event, movements })
}

} // verus!
