//! Settling a bounty once its challenge window has closed.
//!
//! Anyone may finalize. A proposed win pays twice the stake out of the house
//! vault and draws for the jackpot; a proposed loss divides the stake between
//! house, jackpot pool, burn and treasury.

use vstd::prelude::*;
use crate::errors::SeekError;
use crate::events::{BountyFinalized, BountyLost, BountyWon};
use crate::ledger::{Movement, Outcome, Party};
use crate::shares::{
    jackpot_draw, jackpot_draw_of, loss_split_of, share_overflows, split_loss, LossSplit,
    HOUSE_SHARE_BPS,
};
use crate::state::{Bounty, BountyStatus, GlobalState, Key};

verus! {

/// How a bounty was settled.
#[derive(Clone, Copy, Debug, PartialEq, Eq)]
pub enum Settlement {
    /// The player was paid.
    Won(BountyWon),
    /// The stake was divided.
    Lost(BountyLost),
}

impl Settlement {
    /// The closing notification that follows a settlement.
    pub open spec fn finalized_spec(self) -> BountyFinalized {
        match self {
            Settlement::Won(won) => BountyFinalized {
                bounty: won.bounty,
                player: won.player,
                final_status: 1,
            },
            Settlement::Lost(lost) => BountyFinalized {
                bounty: lost.bounty,
                player: lost.player,
                final_status: 0,
            },
        }
    }

    /// The closing notification that follows a settlement: the same bounty
    /// and player, with status 1 for a win and 0 for a loss.
    pub fn finalized(&self) -> (closing: BountyFinalized)
        ensures
            closing == self.finalized_spec(),
    {
        match self {
            Settlement::Won(won) => BountyFinalized {
                bounty: won.bounty,
                player: won.player,
                final_status: 1,
            },
            Settlement::Lost(lost) => BountyFinalized {
                bounty: lost.bounty,
                player: lost.player,
                final_status: 0,
            },
        }
    }
}

/// Whether a draw takes the jackpot: it is zero and the pool is not empty.
pub open spec fn jackpot_hit(state: GlobalState, draw: u64) -> bool {
    draw == 0 && state.singularity_balance > 0
}

/// Why a win cannot be paid, if it cannot.
pub open spec fn win_rejection(state: GlobalState, bounty: Bounty, draw: Option<u64>) -> Option<
    SeekError,
> {
    if state.house_fund_balance < bounty.payout_amount {
        Some(SeekError::InsufficientHouseFunds)
    } else if draw is None {
        Some(SeekError::MathOverflow)
    } else if jackpot_hit(state, draw->0) && state.total_singularity_wins + 1 > u64::MAX {
        Some(SeekError::MathOverflow)
    } else if state.total_bounties_won + 1 > u64::MAX {
        Some(SeekError::MathOverflow)
    } else {
        None
    }
}

/// The registry after a win was paid.
pub open spec fn state_after_win(state: GlobalState, bounty: Bounty, draw: u64) -> GlobalState {
    let hit = jackpot_hit(state, draw);
    GlobalState {
        house_fund_balance: (state.house_fund_balance - bounty.payout_amount) as u64,
        singularity_balance: if hit {
            0
        } else {
            state.singularity_balance
        },
        total_singularity_wins: if hit {
            (state.total_singularity_wins + 1) as u64
        } else {
            state.total_singularity_wins
        },
        total_bounties_won: (state.total_bounties_won + 1) as u64,
        ..state
    }
}

/// The bounty after its win was paid.
pub open spec fn bounty_after_win(state: GlobalState, bounty: Bounty, draw: u64) -> Bounty {
    Bounty {
        status: BountyStatus::Won,
        singularity_won: bounty.singularity_won || jackpot_hit(state, draw),
        ..bounty
    }
}

/// What a win announces.
pub open spec fn win_event(state: GlobalState, bounty: Bounty, bounty_key: Key, draw: u64) -> BountyWon {
    BountyWon {
        player: bounty.player,
        bounty: bounty_key,
        payout: bounty.payout_amount,
        singularity_won: bounty.singularity_won || jackpot_hit(state, draw),
        singularity_amount: if jackpot_hit(state, draw) {
            state.singularity_balance
        } else {
            0
        },
    }
}

/// What a win moves: the payout from the house to the player and, on a
/// jackpot, the whole pool from the jackpot vault to the player.
pub open spec fn win_movements(state: GlobalState, bounty: Bounty, draw: u64) -> Seq<Movement> {
    let payout = Movement::Transfer {
        from: Party::HouseVault,
        to: Party::Player,
        amount: bounty.payout_amount,
    };
    if jackpot_hit(state, draw) {
        seq![
            payout,
            Movement::Transfer {
                from: Party::SingularityVault,
                to: Party::Player,
                amount: state.singularity_balance,
            },
        ]
    } else {
        seq![payout]
    }
}

/// Why a loss cannot be distributed, if it cannot. Each case is a checked
/// operation that leaves the 64-bit range.
pub open spec fn loss_rejection(state: GlobalState, bounty: Bounty) -> Option<SeekError> {
    let split = loss_split_of(bounty.bet_amount);
    if share_overflows(bounty.bet_amount, HOUSE_SHARE_BPS) {
        Some(SeekError::MathOverflow)
    } else if state.house_fund_balance < bounty.bet_amount {
        Some(SeekError::MathOverflow)
    } else if state.singularity_balance + split.singularity_share > u64::MAX {
        Some(SeekError::MathOverflow)
    } else if state.total_burned + split.burn_share > u64::MAX {
        Some(SeekError::MathOverflow)
    } else if state.total_bounties_lost + 1 > u64::MAX {
        Some(SeekError::MathOverflow)
    } else {
        None
    }
}

/// The registry after a loss was distributed: the house gives up the stake
/// and takes back its own share.
pub open spec fn state_after_loss(state: GlobalState, bounty: Bounty) -> GlobalState {
    let split = loss_split_of(bounty.bet_amount);
    GlobalState {
        house_fund_balance: (state.house_fund_balance - bounty.bet_amount
            + split.house_share) as u64,
        singularity_balance: (state.singularity_balance + split.singularity_share) as u64,
        total_burned: (state.total_burned + split.burn_share) as u64,
        total_bounties_lost: (state.total_bounties_lost + 1) as u64,
        ..state
    }
}

/// The bounty after its loss was distributed.
pub open spec fn bounty_after_loss(bounty: Bounty) -> Bounty {
    Bounty { status: BountyStatus::Lost, ..bounty }
}

/// What a loss announces.
pub open spec fn loss_event(bounty: Bounty, bounty_key: Key) -> BountyLost {
    let split = loss_split_of(bounty.bet_amount);
    BountyLost {
        player: bounty.player,
        bounty: bounty_key,
        bet_amount: bounty.bet_amount,
        house_share: split.house_share,
        singularity_share: split.singularity_share,
        burn_share: split.burn_share,
        protocol_share: split.protocol_share,
    }
}

/// What a loss moves out of the house vault: the jackpot share, the burn and
/// the treasury share, in this order.
pub open spec fn loss_movements(bounty: Bounty) -> Seq<Movement> {
    let split = loss_split_of(bounty.bet_amount);
    seq![
        Movement::Transfer {
            from: Party::HouseVault,
            to: Party::SingularityVault,
            amount: split.singularity_share,
        },
        Movement::Burn { from: Party::HouseVault, amount: split.burn_share },
        Movement::Transfer {
            from: Party::HouseVault,
            to: Party::ProtocolTreasury,
            amount: split.protocol_share,
        },
    ]
}

/// Whether a bounty is in one of the two states that await finalization.
pub open spec fn awaits_finalization(bounty: Bounty) -> bool {
    bounty.status is ChallengeWon || bounty.status is ChallengeLost
}

/// Why finalization is rejected, if it is. The checks come in this order:
/// the status, the challenge window, an open dispute, then what the win or
/// the loss itself requires.
pub open spec fn finalize_rejection(
    state: GlobalState,
    bounty: Bounty,
    now: i64,
    draw: Option<u64>,
) -> Option<SeekError> {
    if !awaits_finalization(bounty) {
        Some(SeekError::BountyNotPending)
    } else if now < bounty.challenge_ends_at {
        Some(SeekError::ChallengePeriodActive)
    } else if bounty.is_disputed {
        Some(SeekError::AlreadyDisputed)
    } else if bounty.proposed_win {
        win_rejection(state, bounty, draw)
    } else {
        loss_rejection(state, bounty)
    }
}

/// The registry after a finalization that was not rejected.
pub open spec fn state_after_finalize(state: GlobalState, bounty: Bounty, draw: Option<u64>) -> GlobalState {
    if bounty.proposed_win {
        state_after_win(state, bounty, draw->0)
    } else {
        state_after_loss(state, bounty)
    }
}

/// The bounty after a finalization that was not rejected.
pub open spec fn bounty_after_finalize(state: GlobalState, bounty: Bounty, draw: Option<u64>) -> Bounty {
    if bounty.proposed_win {
        bounty_after_win(state, bounty, draw->0)
    } else {
        bounty_after_loss(bounty)
    }
}

/// What a finalization that was not rejected announces.
pub open spec fn finalize_event(
    state: GlobalState,
    bounty: Bounty,
    bounty_key: Key,
    draw: Option<u64>,
) -> Settlement {
    if bounty.proposed_win {
        Settlement::Won(win_event(state, bounty, bounty_key, draw->0))
    } else {
        Settlement::Lost(loss_event(bounty, bounty_key))
    }
}

/// What a finalization that was not rejected moves.
pub open spec fn finalize_movements(state: GlobalState, bounty: Bounty, draw: Option<u64>) -> Seq<
    Movement,
> {
    if bounty.proposed_win {
        win_movements(state, bounty, draw->0)
    } else {
        loss_movements(bounty)
    }
}

/// Pays a win. The caller has checked status, window and dispute.
fn settle_win(
    state: &mut GlobalState,
    bounty: &mut Bounty,
    bounty_key: &Key,
    draw: Option<u64>,
) -> (result: Result<Outcome<Settlement>, SeekError>)
    ensures
        match win_rejection(*old(state), *old(bounty), draw) {
            Some(e) => {
                &&& result matches Err(err)
                &&& err == e
                &&& *final(state) == *old(state)
                &&& *final(bounty) == *old(bounty)
            },
            None => {
                &&& result matches Ok(outcome)
                &&& outcome.event == Settlement::Won(
                    win_event(*old(state), *old(bounty), *bounty_key, draw->0),
                )
                &&& outcome.movements@ == win_movements(*old(state), *old(bounty), draw->0)
                &&& *final(state) == state_after_win(*old(state), *old(bounty), draw->0)
                &&& *final(bounty) == bounty_after_win(*old(state), *old(bounty), draw->0)
            },
        },
{
    if state.house_fund_balance < bounty.payout_amount {
        return Err(SeekError::InsufficientHouseFunds);
    }
    let house_after = state.house_fund_balance - bounty.payout_amount;
    let roll = match draw {
        Some(roll) => roll,
        None => { return Err(SeekError::MathOverflow); },
    };
    let mut movements: Vec<Movement> = Vec::new();
    movements.push(
        Movement::Transfer {
            from: Party::HouseVault,
            to: Party::Player,
            amount: bounty.payout_amount,
        },
    );
    let mut jackpot_won: u64 = 0;
    let mut jackpot_wins = state.total_singularity_wins;
    let hit = roll == 0 && state.singularity_balance > 0;
    if hit {
        jackpot_won = state.singularity_balance;
        movements.push(
            Movement::Transfer {
                from: Party::SingularityVault,
                to: Party::Player,
                amount: jackpot_won,
            },
        );
        jackpot_wins = match state.total_singularity_wins.checked_add(1) {
            Some(wins) => wins,
            None => { return Err(SeekError::MathOverflow); },
        };
    }
    let won_after = match state.total_bounties_won.checked_add(1) {
        Some(won) => won,
        None => { return Err(SeekError::MathOverflow); },
    };
    assert(movements@ =~= win_movements(*old(state), *old(bounty), roll));

    state.house_fund_balance = house_after;
    if hit {
        state.singularity_balance = 0;
        bounty.singularity_won = true;
    }
    state.total_singularity_wins = jackpot_wins;
    state.total_bounties_won = won_after;
    bounty.status = BountyStatus::Won;
    let event = BountyWon {
        player: bounty.player,
        bounty: *bounty_key,
        payout: bounty.payout_amount,
        singularity_won: bounty.singularity_won,
        singularity_amount: jackpot_won,
    };
    Ok(Outcome { event: Settlement::Won(event), movements })
}

/// Distributes a loss. The caller has checked status, window and dispute.
fn settle_loss(state: &mut GlobalState, bounty: &mut Bounty, bounty_key: &Key) -> (result: Result<
    Outcome<Settlement>,
    SeekError,
>)
    ensures
        match loss_rejection(*old(state), *old(bounty)) {
            Some(e) => {
                &&& result matches Err(err)
                &&& err == e
                &&& *final(state) == *old(state)
                &&& *final(bounty) == *old(bounty)
            },
            None => {
                &&& result matches Ok(outcome)
                &&& outcome.event == Settlement::Lost(loss_event(*old(bounty), *bounty_key))
                &&& outcome.movements@ == loss_movements(*old(bounty))
                &&& *final(state) == state_after_loss(*old(state), *old(bounty))
                &&& *final(bounty) == bounty_after_loss(*old(bounty))
            },
        },
{
    let bet = bounty.bet_amount;
    let split: LossSplit = match split_loss(bet) {
        Ok(split) => split,
        Err(e) => { return Err(e); },
    };
    let house_after = match state.house_fund_balance.checked_sub(bet) {
        Some(rest) => match rest.checked_add(split.house_share) {
            Some(balance) => balance,
            None => { return Err(SeekError::MathOverflow); },
        },
        None => { return Err(SeekError::MathOverflow); },
    };
    let singularity_after = match state.singularity_balance.checked_add(split.singularity_share) {
        Some(balance) => balance,
        None => { return Err(SeekError::MathOverflow); },
    };
    let burned_after = match state.total_burned.checked_add(split.burn_share) {
        Some(total) => total,
        None => { return Err(SeekError::MathOverflow); },
    };
    let lost_after = match state.total_bounties_lost.checked_add(1) {
        Some(lost) => lost,
        None => { return Err(SeekError::MathOverflow); },
    };
    let mut movements: Vec<Movement> = Vec::new();
    movements.push(
        Movement::Transfer {
            from: Party::HouseVault,
            to: Party::SingularityVault,
            amount: split.singularity_share,
        },
    );
    movements.push(Movement::Burn { from: Party::HouseVault, amount: split.burn_share });
    movements.push(
        Movement::Transfer {
            from: Party::HouseVault,
            to: Party::ProtocolTreasury,
            amount: split.protocol_share,
        },
    );
    assert(movements@ =~= loss_movements(*old(bounty)));

    state.house_fund_balance = house_after;
    state.singularity_balance = singularity_after;
    state.total_burned = burned_after;
    state.total_bounties_lost = lost_after;
    bounty.status = BountyStatus::Lost;
    let event = BountyLost {
        player: bounty.player,
        bounty: *bounty_key,
        bet_amount: bet,
        house_share: split.house_share,
        singularity_share: split.singularity_share,
        burn_share: split.burn_share,
        protocol_share: split.protocol_share,
    };
    Ok(Outcome { event: Settlement::Lost(event), movements })
}

/// Finalizes a bounty with a jackpot draw supplied by the caller; `None`
/// stands for a draw that could not be made.
///
/// Rejected with `BountyNotPending` unless the bounty is in `ChallengeWon` or
/// `ChallengeLost`, with `ChallengePeriodActive` while `now` is before the end
/// of the challenge window, and with `AlreadyDisputed` if a dispute is
/// recorded. A proposed win then needs a house balance of at least the payout
/// (`InsufficientHouseFunds`) and a draw (`MathOverflow` without); it pays
/// the payout, and on draw zero with a pool that is not empty the whole pool.
/// A proposed loss divides the stake. A rejected call changes nothing.
pub fn finalize_with_draw(
    state: &mut GlobalState,
    bounty: &mut Bounty,
    bounty_key: &Key,
    now: i64,
    draw: Option<u64>,
) -> (result: Result<Outcome<Settlement>, SeekError>)
    ensures
        match finalize_rejection(*old(state), *old(bounty), now, draw) {
            Some(e) => {
                &&& result matches Err(err)
                &&& err == e
                &&& *final(state) == *old(state)
                &&& *final(bounty) == *old(bounty)
            },
            None => {
                &&& result matches Ok(outcome)
                &&& outcome.event == finalize_event(*old(state), *old(bounty), *bounty_key, draw)
                &&& outcome.movements@ == finalize_movements(*old(state), *old(bounty), draw)
                &&& *final(state) == state_after_finalize(*old(state), *old(bounty), draw)
                &&& *final(bounty) == bounty_after_finalize(*old(state), *old(bounty), draw)
            },
        },
{
    match bounty.status {
        BountyStatus::ChallengeWon | BountyStatus::ChallengeLost => {},
        _ => { return Err(SeekError::BountyNotPending); },
    }
    if now < bounty.challenge_ends_at {
        return Err(SeekError::ChallengePeriodActive);
    }
    if bounty.is_disputed {
        return Err(SeekError::AlreadyDisputed);
    }
    if bounty.proposed_win {
        settle_win(state, bounty, bounty_key, draw)
    } else {
        settle_loss(state, bounty, bounty_key)
    }
}

/// Finalizes a bounty, drawing for the jackpot from the slot counter and the
/// clock: the draw is `(slot + now) mod 500`.
///
/// This is `finalize_with_draw` with that draw: the same rejections in the
/// same order, the same new values, the same movements.
pub fn finalize_bounty(
    state: &mut GlobalState,
    bounty: &mut Bounty,
    bounty_key: &Key,
    now: i64,
    slot: u64,
) -> (result: Result<Outcome<Settlement>, SeekError>)
    ensures
        match finalize_rejection(*old(state), *old(bounty), now, jackpot_draw_of(slot, now)) {
            Some(e) => {
                &&& result matches Err(err)
                &&& err == e
                &&& *final(state) == *old(state)
                &&& *final(bounty) == *old(bounty)
            },
            None => {
                &&& result matches Ok(outcome)
                &&& outcome.event == finalize_event(
                    *old(state),
                    *old(bounty),
                    *bounty_key,
                    jackpot_draw_of(slot, now),
                )
                &&& outcome.movements@ == finalize_movements(
                    *old(state),
                    *old(bounty),
                    jackpot_draw_of(slot, now),
                )
                &&& *final(state) == state_after_finalize(
                    *old(state),
                    *old(bounty),
                    jackpot_draw_of(slot, now),
                )
                &&& *final(bounty) == bounty_after_finalize(
                    *old(state),
                    *old(bounty),
                    jackpot_draw_of(slot, now),
                )
            },
        },
{
    let draw = jackpot_draw(slot, now);
    finalize_with_draw(state, bounty, bounty_key, now, draw)
}

} // verus!
