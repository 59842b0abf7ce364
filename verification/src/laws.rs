//! What holds of the engine as a whole.
//!
//! Each proof function here states one property over the functions that the
//! contracts of the operations are stated with, and proves it for every
//! input.

use vstd::prelude::*;
use crate::acceptance::{accept_movements, accept_rejection, state_after_accept};
use crate::dispute::{bounty_after_dispute, dispute_rejection};
use crate::errors::SeekError;
use crate::ledger::{burned_by, Ledger, Movement, Party};
use crate::lifecycle::{bounty_after, movements_of, rejection, state_after, Call};
use crate::registry::{fund_movements, state_after_funding, withdraw_movements};
use crate::resolution::{
    bounty_after_proposal, bounty_after_reveal, is_authority, propose_rejection,
    reveal_rejection,
};
use crate::settlement::{
    bounty_after_finalize, finalize_movements, finalize_rejection, jackpot_hit, loss_movements,
    loss_rejection, state_after_finalize, win_movements, win_rejection,
};
use crate::shares::{
    dispute_stake_of, jackpot_draw_of, loss_split_of, share_overflows, timestamp_bits, LossSplit,
    HOUSE_SHARE_BPS, SINGULARITY_ODDS,
};
use crate::state::{Bounty, GlobalState, Key};
use crate::tiers::{tier_for_bet, TIER_1_BET};

verus! {

/// A list of one movement is carried out by carrying out that movement.
proof fn lemma_apply_one(ledger: Ledger, a: Movement)
    ensures
        ledger.apply_all(seq![a]) == ledger.apply(a),
        ledger.covers(seq![a]) == (ledger.balance(Ledger::debit_of(a).0) >= Ledger::debit_of(a).1),
{
    let s = seq![a];
    assert(s.drop_first() =~= Seq::<Movement>::empty());
    reveal_with_fuel(Ledger::apply_all, 2);
    reveal_with_fuel(Ledger::covers, 2);
}

/// A list is carried out by carrying out its first movement and then the
/// rest.
proof fn lemma_apply_cons(ledger: Ledger, a: Movement, rest: Seq<Movement>)
    ensures
        ledger.apply_all(seq![a] + rest) == ledger.apply(a).apply_all(rest),
        ledger.covers(seq![a] + rest) == (ledger.balance(Ledger::debit_of(a).0)
            >= Ledger::debit_of(a).1 && ledger.apply(a).covers(rest)),
{
    let s = seq![a] + rest;
    assert(s.drop_first() =~= rest);
    assert(s.first() == a);
}

/// Tokens are neither created nor destroyed but by a burn: whatever list of
/// movements the ledger carries out, what the five parties hold afterwards
/// is what they held before less what the list burns, and the burned total
/// grows by exactly that.
pub proof fn law_supply_changes_only_by_burning(ledger: Ledger, movements: Seq<Movement>)
    ensures
        ledger.apply_all(movements).supply() == ledger.supply() - burned_by(movements),
        ledger.apply_all(movements).burned == ledger.burned + burned_by(movements),
        burned_by(movements) >= 0,
    decreases movements.len(),
{
    if movements.len() > 0 {
        law_supply_changes_only_by_burning(
            ledger.apply(movements.first()),
            movements.drop_first(),
        );
    }
}

/// The house vault's holdings beyond what the books say it owes: the vault's
/// balance less the tracked house balance and the stake of an open dispute.
pub open spec fn house_surplus(ledger: Ledger, state: GlobalState, bounty: Bounty) -> int {
    ledger.house - state.house_fund_balance - bounty.escrowed_stake()
}

/// Whether the vaults hold at least what the books track: the jackpot vault
/// the tracked pool, the house vault the tracked house balance and the stake
/// of an open dispute.
pub open spec fn backed(ledger: Ledger, state: GlobalState, bounty: Bounty) -> bool {
    &&& ledger.singularity >= state.singularity_balance
    &&& house_surplus(ledger, state, bounty) >= 0
}

/// A call that is accepted moves the bounty forward and never back: the
/// stage of its status does not fall, and rises if the record was valid; the
/// bounty is never cancelled; what was fixed at creation, the commitment
/// included, stays as it was; and the registry keeps its identity with no
/// counter lower than before.
pub proof fn law_lifecycle_moves_forward(state: GlobalState, bounty: Bounty, call: Call)
    requires
        rejection(state, bounty, call) is None,
    ensures
        bounty_after(state, bounty, call).status.stage() >= bounty.status.stage(),
        bounty.wf() ==> bounty_after(state, bounty, call).status.stage() > bounty.status.stage(),
        !(bounty_after(state, bounty, call).status is Cancelled),
        bounty.same_identity(bounty_after(state, bounty, call)),
        state.precedes(state_after(state, bounty, call)),
{
}

/// A rejected call changes nothing and moves nothing.
pub proof fn law_rejected_call_changes_nothing(state: GlobalState, bounty: Bounty, call: Call)
    requires
        rejection(state, bounty, call) is Some,
    ensures
        bounty_after(state, bounty, call) == bounty,
        state_after(state, bounty, call) == state,
        movements_of(state, bounty, call) == Seq::<Movement>::empty(),
{
}

/// Every call, accepted or not, leaves a valid bounty record valid.
pub proof fn law_calls_keep_bounty_valid(state: GlobalState, bounty: Bounty, call: Call)
    requires
        bounty.wf(),
    ensures
        bounty_after(state, bounty, call).wf(),
{
}

/// A bounty that is won, lost or cancelled is settled for good: every call
/// on it is rejected.
pub proof fn law_final_status_is_final(state: GlobalState, bounty: Bounty, call: Call)
    requires
        bounty.status.is_final(),
    ensures
        rejection(state, bounty, call) is Some,
{
}

/// The tracked balances follow the vaults. When the ledger has carried out
/// the movements of a call, the jackpot vault has changed by what the
/// tracked pool changed by, the burned total by what the tracked burn
/// changed by, and the house vault holds no less beyond the books than
/// before.
pub proof fn law_books_follow_custody(
    ledger: Ledger,
    state: GlobalState,
    bounty: Bounty,
    call: Call,
)
    ensures
        ({
            let after = ledger.apply_all(movements_of(state, bounty, call));
            let state2 = state_after(state, bounty, call);
            let bounty2 = bounty_after(state, bounty, call);
            &&& after.singularity - ledger.singularity == state2.singularity_balance
                - state.singularity_balance
            &&& after.burned - ledger.burned == state2.total_burned - state.total_burned
            &&& house_surplus(after, state2, bounty2) >= house_surplus(ledger, state, bounty)
            &&& backed(ledger, state, bounty) ==> backed(after, state2, bounty2)
        }),
{
    let movements = movements_of(state, bounty, call);
    if rejection(state, bounty, call) is Some {
        assert(ledger.apply_all(movements) == ledger);
    } else {
        match call {
            Call::Finalize { now, draw } => {
                if bounty.proposed_win {
                    lemma_win_ledger(ledger, state, bounty, draw->0);
                } else {
                    lemma_loss_ledger(ledger, bounty);
                    law_loss_split_rounds_down(bounty.bet_amount);
                }
            },
            Call::Dispute { caller, now } => {
                lemma_apply_one(ledger, movements[0]);
                assert(movements =~= seq![movements[0]]);
            },
            Call::Resolve { caller, player_wins } => {
                if player_wins {
                    lemma_apply_one(ledger, movements[0]);
                    assert(movements =~= seq![movements[0]]);
                } else {
                    assert(ledger.apply_all(movements) == ledger);
                }
            },
            _ => {
                assert(ledger.apply_all(movements) == ledger);
            },
        }
    }
}

/// The ledger after the movements of a win.
proof fn lemma_win_ledger(ledger: Ledger, state: GlobalState, bounty: Bounty, draw: u64)
    ensures
        ({
            let after = ledger.apply_all(win_movements(state, bounty, draw));
            &&& after.house == ledger.house - bounty.payout_amount
            &&& after.burned == ledger.burned
            &&& after.treasury == ledger.treasury
            &&& after.authority == ledger.authority
            &&& jackpot_hit(state, draw) ==> after.singularity == ledger.singularity
                - state.singularity_balance && after.player == ledger.player
                + bounty.payout_amount + state.singularity_balance
            &&& !jackpot_hit(state, draw) ==> after.singularity == ledger.singularity
                && after.player == ledger.player + bounty.payout_amount
        }),
        ledger.covers(win_movements(state, bounty, draw)) == (ledger.house
            >= bounty.payout_amount && (jackpot_hit(state, draw) ==> ledger.singularity
            >= state.singularity_balance)),
{
    let movements = win_movements(state, bounty, draw);
    let payout = movements[0];
    if jackpot_hit(state, draw) {
        let pool = movements[1];
        assert(movements =~= seq![payout] + seq![pool]);
        lemma_apply_cons(ledger, payout, seq![pool]);
        lemma_apply_one(ledger.apply(payout), pool);
    } else {
        assert(movements =~= seq![payout]);
        lemma_apply_one(ledger, payout);
    }
}

/// The ledger after the movements of a loss.
proof fn lemma_loss_ledger(ledger: Ledger, bounty: Bounty)
    ensures
        ({
            let split = loss_split_of(bounty.bet_amount);
            let after = ledger.apply_all(loss_movements(bounty));
            &&& after.house == ledger.house - split.outflow()
            &&& after.singularity == ledger.singularity + split.singularity_share
            &&& after.burned == ledger.burned + split.burn_share
            &&& after.treasury == ledger.treasury + split.protocol_share
            &&& after.player == ledger.player
            &&& after.authority == ledger.authority
        }),
        ledger.covers(loss_movements(bounty)) == (ledger.house
            >= loss_split_of(bounty.bet_amount).outflow()),
{
    let movements = loss_movements(bounty);
    let a = movements[0];
    let b = movements[1];
    let c = movements[2];
    assert(movements =~= seq![a] + (seq![b] + seq![c]));
    lemma_apply_cons(ledger, a, seq![b] + seq![c]);
    lemma_apply_cons(ledger.apply(a), b, seq![c]);
    lemma_apply_one(ledger.apply(a).apply(b), c);
}

/// The division of a lost bet rounds every share down and keeps the rest in
/// the house: the four shares are each the stated part of the bet, together
/// they are at most the bet and fall short of it by less than four units,
/// and they are the whole bet when the bet is a multiple of twenty units.
pub proof fn law_loss_split_rounds_down(bet_amount: u64)
    requires
        !share_overflows(bet_amount, HOUSE_SHARE_BPS),
    ensures
        ({
            let split = loss_split_of(bet_amount);
            &&& split.house_share == (bet_amount * 7000) / 10000
            &&& split.singularity_share == (bet_amount * 1500) / 10000
            &&& split.burn_share == (bet_amount * 1000) / 10000
            &&& split.protocol_share == (bet_amount * 500) / 10000
            &&& split.total() <= bet_amount
            &&& bet_amount - split.total() < 4
            &&& bet_amount % 20 == 0 ==> split.total() == bet_amount
        }),
{
    let b = bet_amount as int;
    let house = (b * 7000) / 10000;
    let pool = (b * 1500) / 10000;
    let burn = (b * 1000) / 10000;
    let fee = (b * 500) / 10000;
    lemma_share_is_floor(b, 7000);
    lemma_share_is_floor(b, 1500);
    lemma_share_is_floor(b, 1000);
    lemma_share_is_floor(b, 500);
    assert(10000 * (house + pool + burn + fee) <= 10000 * b);
    assert(10000 * (house + pool + burn + fee) > 10000 * b - 40000);
    if b % 20 == 0 {
        let q = b / 20;
        assert(b == 20 * q);
        assert(b * 7000 == 10000 * (14 * q));
        assert(b * 1500 == 10000 * (3 * q));
        assert(b * 1000 == 10000 * (2 * q));
        assert(b * 500 == 10000 * q);
        assert(house == 14 * q);
        assert(pool == 3 * q);
        assert(burn == 2 * q);
        assert(fee == q);
    }
}

/// A share is the floor of the exact part.
proof fn lemma_share_is_floor(amount: int, bps: int)
    requires
        0 <= amount,
        0 <= bps,
    ensures
        10000 * ((amount * bps) / 10000) <= amount * bps < 10000 * ((amount * bps) / 10000)
            + 10000,
        0 <= (amount * bps) / 10000 <= amount * bps,
{
    let product = amount * bps;
    assert(product >= 0) by (nonlinear_arith)
        requires
            0 <= amount,
            0 <= bps,
            product == amount * bps,
    ;
    assert(product == 10000 * (product / 10000) + product % 10000);
}

/// The three tier amounts divide without remainder. A lost first-tier bet
/// of 100 tokens leaves 70 with the house, sends 15 to the jackpot pool,
/// burns 10 and sends 5 to the treasury.
pub proof fn law_tier_split_is_exact(bet_amount: u64)
    requires
        tier_for_bet(bet_amount) is Some,
    ensures
        !share_overflows(bet_amount, HOUSE_SHARE_BPS),
        loss_split_of(bet_amount).total() == bet_amount,
        bet_amount == TIER_1_BET ==> loss_split_of(bet_amount) == (LossSplit {
            house_share: 70_000_000_000,
            singularity_share: 15_000_000_000,
            burn_share: 10_000_000_000,
            protocol_share: 5_000_000_000,
        }),
{
}

/// A settlement never asks a vault for more than it holds. If the vaults
/// back the books, the ledger can carry out the movements of every accepted
/// call, given only that a disputing player holds the stake.
pub proof fn law_vaults_cover_settlements(
    ledger: Ledger,
    state: GlobalState,
    bounty: Bounty,
    call: Call,
)
    requires
        backed(ledger, state, bounty),
        call is Dispute ==> ledger.player >= dispute_stake_of(bounty.bet_amount),
    ensures
        ledger.covers(movements_of(state, bounty, call)),
{
    let movements = movements_of(state, bounty, call);
    if rejection(state, bounty, call) is None {
        match call {
            Call::Finalize { now, draw } => {
                if bounty.proposed_win {
                    lemma_win_ledger(ledger, state, bounty, draw->0);
                } else {
                    lemma_loss_ledger(ledger, bounty);
                    law_loss_split_rounds_down(bounty.bet_amount);
                }
            },
            Call::Dispute { caller, now } => {
                lemma_apply_one(ledger, movements[0]);
                assert(movements =~= seq![movements[0]]);
            },
            Call::Resolve { caller, player_wins } => {
                if player_wins {
                    lemma_apply_one(ledger, movements[0]);
                    assert(movements =~= seq![movements[0]]);
                }
            },
            _ => {},
        }
    }
}

/// Deposits are booked in full. Accepting a bet and funding the house each
/// move into the house vault exactly what they add to the tracked house
/// balance, and leave the registry with its identity and no counter lower
/// than before; a withdrawal from the treasury touches neither the house
/// vault nor the jackpot vault.
pub proof fn law_deposits_are_booked(ledger: Ledger, state: GlobalState, amount: u64, now: i64)
    ensures
        accept_rejection(state, amount, now) is None ==> {
            let after = ledger.apply_all(accept_movements(amount));
            &&& state.precedes(state_after_accept(state, amount))
            &&& state_after_accept(state, amount).total_bounties_created
                == state.total_bounties_created + 1
            &&& after.house - ledger.house == state_after_accept(state, amount).house_fund_balance
                - state.house_fund_balance
            &&& after.house - ledger.house == amount
            &&& after.player == ledger.player - amount
            &&& after.singularity == ledger.singularity
            &&& after.burned == ledger.burned
        },
        state.house_fund_balance + amount <= u64::MAX ==> {
            let after = ledger.apply_all(fund_movements(amount));
            &&& state.precedes(state_after_funding(state, amount))
            &&& after.house - ledger.house == state_after_funding(state, amount).house_fund_balance
                - state.house_fund_balance
            &&& after.authority == ledger.authority - amount
            &&& after.singularity == ledger.singularity
            &&& after.burned == ledger.burned
        },
        ({
            let after = ledger.apply_all(withdraw_movements(amount));
            &&& after.house == ledger.house
            &&& after.singularity == ledger.singularity
            &&& after.burned == ledger.burned
            &&& after.treasury == ledger.treasury - amount
            &&& after.authority == ledger.authority + amount
        }),
{
    lemma_apply_one(ledger, accept_movements(amount)[0]);
    assert(accept_movements(amount) =~= seq![accept_movements(amount)[0]]);
    lemma_apply_one(ledger, fund_movements(amount)[0]);
    assert(fund_movements(amount) =~= seq![fund_movements(amount)[0]]);
    lemma_apply_one(ledger, withdraw_movements(amount)[0]);
    assert(withdraw_movements(amount) =~= seq![withdraw_movements(amount)[0]]);
}

/// Only the three tier amounts are accepted: a bet is rejected as invalid
/// exactly when it is none of them, whatever the registry and the time.
pub proof fn law_only_tier_amounts_are_accepted(state: GlobalState, bet_amount: u64, now: i64)
    ensures
        accept_rejection(state, bet_amount, now) == Some(SeekError::InvalidBetAmount) <==> !(
        bet_amount == 100_000_000_000 || bet_amount == 200_000_000_000 || bet_amount
            == 300_000_000_000),
{
}

/// A mission is revealed once. A reveal is rejected for its digest exactly
/// when caller, status and reveal flag pass and the digest differs from the
/// commitment; and after a reveal that was accepted, every further reveal by
/// the authority is rejected as already revealed, whatever it shows.
pub proof fn law_mission_is_revealed_once(
    state: GlobalState,
    bounty: Bounty,
    caller: Key,
    mission_id: [u8; 32],
    digest: Seq<u8>,
    second_mission_id: [u8; 32],
    second_digest: Seq<u8>,
)
    ensures
        reveal_rejection(state, bounty, caller, digest) == Some(SeekError::InvalidMissionHash)
            <==> (is_authority(state, caller) && (bounty.status is Pending
            || bounty.status is Submitted) && !bounty.mission_revealed && digest
            != bounty.mission_commitment@),
        reveal_rejection(state, bounty, caller, digest) is None ==> reveal_rejection(
            state,
            bounty_after_reveal(bounty, mission_id),
            caller,
            second_digest,
        ) == Some(SeekError::MissionAlreadyRevealed),
{
}

/// An outcome cannot be finalized while it can still be challenged: after a
/// proposal that was accepted at `proposed_at`, finalizing at any time
/// before `proposed_at + 300` is rejected because the challenge period is
/// active, whatever the registry and the draw.
pub proof fn law_finalize_waits_for_window(
    state: GlobalState,
    bounty: Bounty,
    caller: Key,
    success: bool,
    proposed_at: i64,
    later_state: GlobalState,
    now: i64,
    draw: Option<u64>,
)
    requires
        propose_rejection(state, bounty, caller, proposed_at) is None,
        now < proposed_at + 300,
    ensures
        finalize_rejection(
            later_state,
            bounty_after_proposal(bounty, success, proposed_at),
            now,
            draw,
        ) == Some(SeekError::ChallengePeriodActive),
{
}

/// Once the window has closed, a proposed outcome that was not disputed is
/// finalized unless the money or the arithmetic forbid it. After a proposal
/// that was accepted at `proposed_at` on a bounty without a dispute,
/// finalizing at `proposed_at + 300` or later is rejected only for
/// insufficient house funds or for overflow. It is not rejected at all for a
/// bounty with valid terms when a draw was made, the tracked house balance
/// covers the payout of a win or the stake of a loss, and no total is within
/// one bet of its limit.
pub proof fn law_finalize_after_window(
    state: GlobalState,
    bounty: Bounty,
    caller: Key,
    success: bool,
    proposed_at: i64,
    later_state: GlobalState,
    now: i64,
    draw: Option<u64>,
)
    requires
        propose_rejection(state, bounty, caller, proposed_at) is None,
        !bounty.is_disputed,
        now >= proposed_at + 300,
    ensures
        ({
            let proposed = bounty_after_proposal(bounty, success, proposed_at);
            let verdict = finalize_rejection(later_state, proposed, now, draw);
            &&& verdict is None || verdict == Some(SeekError::InsufficientHouseFunds) || verdict
                == Some(SeekError::MathOverflow)
            &&& verdict == (if success {
                win_rejection(later_state, proposed, draw)
            } else {
                loss_rejection(later_state, proposed)
            })
            &&& (bounty.terms_valid() && draw is Some && later_state.house_fund_balance >= (
            if success {
                bounty.payout_amount
            } else {
                bounty.bet_amount
            }) && later_state.singularity_balance + bounty.bet_amount <= u64::MAX
                && later_state.total_burned + bounty.bet_amount <= u64::MAX
                && later_state.total_bounties_won < u64::MAX && later_state.total_bounties_lost
                < u64::MAX && later_state.total_singularity_wins < u64::MAX) ==> verdict is None
        }),
{
    if bounty.terms_valid() {
        law_tier_split_is_exact(bounty.bet_amount);
    }
}

/// A bounty is finalized once: after a finalization that was accepted, every
/// further finalization is rejected because the bounty is no longer pending,
/// whatever the registry, the time and the draw.
pub proof fn law_finalize_happens_once(
    state: GlobalState,
    bounty: Bounty,
    now: i64,
    draw: Option<u64>,
    later_state: GlobalState,
    later: i64,
    later_draw: Option<u64>,
)
    requires
        finalize_rejection(state, bounty, now, draw) is None,
    ensures
        finalize_rejection(
            later_state,
            bounty_after_finalize(state, bounty, draw),
            later,
            later_draw,
        ) == Some(SeekError::BountyNotPending),
{
}

/// The draw is a function of the slot, the time and the odds, and it alone
/// decides the jackpot. In a win that is accepted, a draw of zero with a
/// pool that is not empty moves the whole pool to the player, empties the
/// tracked pool, marks the bounty and counts one more jackpot; any other
/// draw leaves the pool, the mark and the count as they were and moves the
/// payout only.
pub proof fn law_jackpot_follows_draw(
    state: GlobalState,
    bounty: Bounty,
    now: i64,
    draw: Option<u64>,
    slot: u64,
)
    requires
        finalize_rejection(state, bounty, now, draw) is None,
        bounty.proposed_win,
    ensures
        draw is Some,
        ({
            let payout = Movement::Transfer {
                from: Party::HouseVault,
                to: Party::Player,
                amount: bounty.payout_amount,
            };
            let pool = Movement::Transfer {
                from: Party::SingularityVault,
                to: Party::Player,
                amount: state.singularity_balance,
            };
            let state2 = state_after_finalize(state, bounty, draw);
            let bounty2 = bounty_after_finalize(state, bounty, draw);
            let movements = finalize_movements(state, bounty, draw);
            if draw == Some(0u64) && state.singularity_balance > 0 {
                &&& movements == seq![payout, pool]
                &&& state2.singularity_balance == 0
                &&& state2.total_singularity_wins == state.total_singularity_wins + 1
                &&& bounty2.singularity_won
            } else {
                &&& movements == seq![payout]
                &&& state2.singularity_balance == state.singularity_balance
                &&& state2.total_singularity_wins == state.total_singularity_wins
                &&& bounty2.singularity_won == bounty.singularity_won
            }
        }),
        jackpot_draw_of(slot, now) matches Some(d) ==> d == (slot + timestamp_bits(now)) % (
        SINGULARITY_ODDS as int),
        jackpot_draw_of(slot, now) is None <==> slot + timestamp_bits(now) > u64::MAX,
{
}

/// Only an open challenge of a loss can be disputed. A dispute is accepted
/// exactly when the caller is the bounty's player, no dispute is recorded,
/// the bounty is in `ChallengeLost`, the time is before the end of the
/// challenge window and the stake can be computed.
pub proof fn law_dispute_needs_open_challenge(bounty: Bounty, caller: Key, now: i64)
    ensures
        dispute_rejection(bounty, caller, now) is None <==> (caller@ == bounty.player@
            && !bounty.is_disputed && bounty.status is ChallengeLost && now
            < bounty.challenge_ends_at && !share_overflows(bounty.bet_amount, 5000)),
        dispute_rejection(bounty, caller, now) is None ==> bounty.status is ChallengeLost && now
            < bounty.challenge_ends_at,
        caller@ == bounty.player@ && !bounty.is_disputed && !(bounty.status is ChallengeLost)
            ==> dispute_rejection(bounty, caller, now) == Some(SeekError::BountyNotPending),
        caller@ == bounty.player@ && !bounty.is_disputed && bounty.status is ChallengeLost && now
            >= bounty.challenge_ends_at ==> dispute_rejection(bounty, caller, now) == Some(
            SeekError::ChallengePeriodEnded,
        ),
{
}

/// A bounty is disputed once: after a dispute that was accepted, every
/// further dispute by the player is rejected as already disputed, whatever
/// the time.
pub proof fn law_dispute_happens_once(bounty: Bounty, caller: Key, now: i64, later: i64)
    requires
        dispute_rejection(bounty, caller, now) is None,
    ensures
        dispute_rejection(bounty_after_dispute(bounty, now), caller, later) == Some(
            SeekError::AlreadyDisputed,
        ),
{
}

/// The stakes of all open disputes among the bounties of a registry.
pub open spec fn escrowed_total(bounties: Seq<Bounty>) -> int
    decreases bounties.len(),
{
    if bounties.len() == 0 {
        0
    } else {
        escrowed_total(bounties.drop_last()) + bounties.last().escrowed_stake()
    }
}

/// Replacing one bounty changes the total by the difference of its stakes.
proof fn lemma_escrowed_total_update(bounties: Seq<Bounty>, index: int, bounty: Bounty)
    requires
        0 <= index < bounties.len(),
    ensures
        escrowed_total(bounties.update(index, bounty)) == escrowed_total(bounties)
            - bounties[index].escrowed_stake() + bounty.escrowed_stake(),
    decreases bounties.len(),
{
    let updated = bounties.update(index, bounty);
    if index == bounties.len() - 1 {
        assert(updated.drop_last() =~= bounties.drop_last());
    } else {
        assert(updated.drop_last() =~= bounties.drop_last().update(index, bounty));
        lemma_escrowed_total_update(bounties.drop_last(), index, bounty);
    }
}

/// The house vault backs every bounty at once. Take a registry with any
/// number of bounties whose house vault holds at least the tracked house
/// balance and the stakes of all open disputes, and whose jackpot vault holds
/// at least the tracked pool. After any call on any one of the bounties,
/// with its movements carried out, both still hold; and so they do after a
/// bet is accepted and joins the bounties, and after the house is funded.
pub proof fn law_house_backs_every_bounty(
    ledger: Ledger,
    state: GlobalState,
    bounties: Seq<Bounty>,
    index: int,
    call: Call,
    accepted: Bounty,
    amount: u64,
    now: i64,
)
    requires
        0 <= index < bounties.len(),
        ledger.house >= state.house_fund_balance + escrowed_total(bounties),
        ledger.singularity >= state.singularity_balance,
        accepted.status is Pending,
    ensures
        ({
            let bounty = bounties[index];
            let after = ledger.apply_all(movements_of(state, bounty, call));
            let state2 = state_after(state, bounty, call);
            let bounties2 = bounties.update(index, bounty_after(state, bounty, call));
            &&& after.house >= state2.house_fund_balance + escrowed_total(bounties2)
            &&& after.singularity >= state2.singularity_balance
        }),
        accept_rejection(state, amount, now) is None ==> {
            let after = ledger.apply_all(accept_movements(amount));
            let state2 = state_after_accept(state, amount);
            &&& after.house >= state2.house_fund_balance + escrowed_total(
                bounties.push(accepted),
            )
            &&& after.singularity >= state2.singularity_balance
        },
        state.house_fund_balance + amount <= u64::MAX ==> {
            let after = ledger.apply_all(fund_movements(amount));
            let state2 = state_after_funding(state, amount);
            &&& after.house >= state2.house_fund_balance + escrowed_total(bounties)
            &&& after.singularity >= state2.singularity_balance
        },
{
    let bounty = bounties[index];
    law_books_follow_custody(ledger, state, bounty, call);
    lemma_escrowed_total_update(bounties, index, bounty_after(state, bounty, call));
    law_deposits_are_booked(ledger, state, amount, now);
    assert(bounties.push(accepted).drop_last() =~= bounties);
}

/// A call on a bounty is rejected for the caller, the state, the reveal,
/// the digest, the challenge window, a dispute, the house funds or the
/// arithmetic, with one of the twelve errors listed here. The errors about
/// the bet amount, the mint, the hunt timer and the dispute stake never come
/// from a call on an existing bounty.
pub proof fn law_rejections_are_named(state: GlobalState, bounty: Bounty, call: Call)
    ensures
        match rejection(state, bounty, call) {
            None => true,
            Some(e) => e == SeekError::Unauthorized || e == SeekError::BountyNotPending || e
                == SeekError::BountyAlreadyResolved || e == SeekError::MissionAlreadyRevealed
                || e == SeekError::MissionNotRevealed || e == SeekError::InvalidMissionHash || e
                == SeekError::ChallengePeriodActive || e == SeekError::ChallengePeriodEnded || e
                == SeekError::AlreadyDisputed || e == SeekError::NotDisputed || e
                == SeekError::InsufficientHouseFunds || e == SeekError::MathOverflow,
        },
{
}

} // verus!
