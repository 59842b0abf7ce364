use seek_protocol::dispute::{dispute_bounty, resolve_dispute};
use seek_protocol::errors::SeekError;
use seek_protocol::events::{BountyDisputed, DisputeResolved};
use seek_protocol::ledger::{Movement, Party};
use seek_protocol::settlement::finalize_bounty;
use seek_protocol::state::{Bounty, BountyStatus, GlobalState};

const AUTHORITY: [u8; 32] = [7u8; 32];
const PLAYER: [u8; 32] = [9u8; 32];
const STRANGER: [u8; 32] = [8u8; 32];
const BOUNTY: [u8; 32] = [2u8; 32];

fn registry(house: u64) -> GlobalState {
    GlobalState {
        authority: AUTHORITY,
        house_vault: [3u8; 32],
        singularity_vault: [4u8; 32],
        protocol_treasury: [6u8; 32],
        house_fund_balance: house,
        singularity_balance: 0,
        total_burned: 0,
        total_bounties_created: 3,
        total_bounties_won: 1,
        total_bounties_lost: 1,
        total_singularity_wins: 0,
        bump: 254,
    }
}

// A second-tier bounty for which a loss was proposed at 2000.
fn challenged_loss() -> Bounty {
    Bounty {
        player: PLAYER,
        global_state: [1u8; 32],
        bet_amount: 200_000_000_000,
        payout_amount: 400_000_000_000,
        created_at: 1_000,
        expires_at: 1_300,
        status: BountyStatus::ChallengeLost,
        tier: 2,
        singularity_won: false,
        bump: 253,
        mission_commitment: [5u8; 32],
        mission_id: [11u8; 32],
        mission_revealed: true,
        resolved_at: 2_000,
        challenge_ends_at: 2_300,
        proposed_win: false,
        is_disputed: false,
        dispute_stake: 0,
        disputed_at: 0,
    }
}

fn disputed() -> Bounty {
    let mut bounty = challenged_loss();
    dispute_bounty(&mut bounty, &BOUNTY, &PLAYER, 2_100).unwrap();
    bounty
}

#[test]
fn dispute_stakes_half_the_bet() {
    let mut bounty = challenged_loss();
    let outcome = dispute_bounty(&mut bounty, &BOUNTY, &PLAYER, 2_100).unwrap();
    assert_eq!(
        outcome.event,
        BountyDisputed { bounty: BOUNTY, player: PLAYER, dispute_stake: 100_000_000_000 }
    );
    assert_eq!(
        outcome.movements,
        vec![Movement::Transfer {
            from: Party::Player,
            to: Party::HouseVault,
            amount: 100_000_000_000
        }]
    );
    let mut expected = challenged_loss();
    expected.is_disputed = true;
    expected.dispute_stake = 100_000_000_000;
    expected.disputed_at = 2_100;
    expected.status = BountyStatus::Disputed;
    assert_eq!(bounty, expected);
}

#[test]
fn dispute_twice_is_rejected() {
    let mut bounty = disputed();
    let before = bounty;
    let again = dispute_bounty(&mut bounty, &BOUNTY, &PLAYER, 2_101);
    assert_eq!(again, Err(SeekError::AlreadyDisputed));
    assert_eq!(bounty, before);
}

#[test]
fn dispute_at_window_end_is_rejected() {
    let mut bounty = challenged_loss();
    let result = dispute_bounty(&mut bounty, &BOUNTY, &PLAYER, 2_300);
    assert_eq!(result, Err(SeekError::ChallengePeriodEnded));
    let later = dispute_bounty(&mut bounty, &BOUNTY, &PLAYER, 9_999);
    assert_eq!(later, Err(SeekError::ChallengePeriodEnded));
    assert_eq!(bounty, challenged_loss());
    assert!(dispute_bounty(&mut bounty, &BOUNTY, &PLAYER, 2_299).is_ok());
}

#[test]
fn dispute_of_other_states_is_rejected() {
    for status in [
        BountyStatus::Pending,
        BountyStatus::Submitted,
        BountyStatus::ChallengeWon,
        BountyStatus::Disputed,
        BountyStatus::Won,
        BountyStatus::Lost,
        BountyStatus::Cancelled,
    ] {
        let mut bounty = challenged_loss();
        bounty.status = status;
        let before = bounty;
        let result = dispute_bounty(&mut bounty, &BOUNTY, &PLAYER, 2_100);
        assert_eq!(result, Err(SeekError::BountyNotPending));
        assert_eq!(bounty, before);
    }
}

#[test]
fn dispute_by_someone_else_is_rejected() {
    let mut bounty = challenged_loss();
    assert_eq!(
        dispute_bounty(&mut bounty, &BOUNTY, &STRANGER, 2_100),
        Err(SeekError::Unauthorized)
    );
    assert_eq!(
        dispute_bounty(&mut bounty, &BOUNTY, &AUTHORITY, 2_100),
        Err(SeekError::Unauthorized)
    );
    assert_eq!(bounty, challenged_loss());
}

#[test]
fn dispute_rejects_stake_overflow() {
    let mut bounty = challenged_loss();
    bounty.bet_amount = u64::MAX / 5000 + 1;
    let before = bounty;
    assert_eq!(dispute_bounty(&mut bounty, &BOUNTY, &PLAYER, 2_100), Err(SeekError::MathOverflow));
    assert_eq!(bounty, before);
}

#[test]
fn disputed_bounty_cannot_be_finalized() {
    let mut state = registry(1_000_000_000_000);
    let mut bounty = disputed();
    let before = bounty;
    let result = finalize_bounty(&mut state, &mut bounty, &BOUNTY, 5_000, 3);
    assert_eq!(result, Err(SeekError::BountyNotPending));
    assert_eq!(bounty, before);
    assert_eq!(state, registry(1_000_000_000_000));
}

#[test]
fn resolve_for_player_refunds_bet_stake_and_bonus() {
    let mut state = registry(1_000_000_000_000);
    let mut bounty = disputed();
    let outcome = resolve_dispute(&mut state, &mut bounty, &BOUNTY, &AUTHORITY, true).unwrap();
    assert_eq!(
        outcome.event,
        DisputeResolved {
            bounty: BOUNTY,
            player: PLAYER,
            player_won_dispute: true,
            stake_returned: true
        }
    );
    // 200 + 100 + 200 tokens.
    assert_eq!(
        outcome.movements,
        vec![Movement::Transfer {
            from: Party::HouseVault,
            to: Party::Player,
            amount: 500_000_000_000
        }]
    );
    let mut expected = registry(500_000_000_000);
    expected.total_bounties_won = 2;
    assert_eq!(state, expected);
    let mut won = disputed();
    won.status = BountyStatus::Won;
    assert_eq!(bounty, won);
}

#[test]
fn resolve_against_player_forfeits_stake() {
    let mut state = registry(1_000_000_000_000);
    let mut bounty = disputed();
    let outcome = resolve_dispute(&mut state, &mut bounty, &BOUNTY, &AUTHORITY, false).unwrap();
    assert_eq!(
        outcome.event,
        DisputeResolved {
            bounty: BOUNTY,
            player: PLAYER,
            player_won_dispute: false,
            stake_returned: false
        }
    );
    assert_eq!(outcome.movements, vec![]);
    let mut expected = registry(1_100_000_000_000);
    expected.total_bounties_lost = 2;
    assert_eq!(state, expected);
    let mut lost = disputed();
    lost.status = BountyStatus::Lost;
    assert_eq!(bounty, lost);
}

#[test]
fn resolve_twice_is_rejected() {
    for verdict in [true, false] {
        let mut state = registry(1_000_000_000_000);
        let mut bounty = disputed();
        resolve_dispute(&mut state, &mut bounty, &BOUNTY, &AUTHORITY, verdict).unwrap();
        let state_after = state;
        let bounty_after = bounty;
        let again = resolve_dispute(&mut state, &mut bounty, &BOUNTY, &AUTHORITY, !verdict);
        assert_eq!(again, Err(SeekError::NotDisputed));
        assert_eq!(state, state_after);
        assert_eq!(bounty, bounty_after);
    }
}

#[test]
fn resolve_without_dispute_is_rejected() {
    let mut state = registry(1_000_000_000_000);
    let mut bounty = challenged_loss();
    let result = resolve_dispute(&mut state, &mut bounty, &BOUNTY, &AUTHORITY, true);
    assert_eq!(result, Err(SeekError::NotDisputed));
    assert_eq!(bounty, challenged_loss());
    assert_eq!(state, registry(1_000_000_000_000));
}

#[test]
fn resolve_by_stranger_is_rejected() {
    let mut state = registry(1_000_000_000_000);
    let mut bounty = disputed();
    assert_eq!(
        resolve_dispute(&mut state, &mut bounty, &BOUNTY, &PLAYER, true),
        Err(SeekError::Unauthorized)
    );
    assert_eq!(
        resolve_dispute(&mut state, &mut bounty, &BOUNTY, &STRANGER, false),
        Err(SeekError::Unauthorized)
    );
    assert_eq!(bounty, disputed());
    assert_eq!(state, registry(1_000_000_000_000));
}

#[test]
fn resolve_for_player_needs_tracked_funds() {
    let mut state = registry(499_999_999_999);
    let mut bounty = disputed();
    let result = resolve_dispute(&mut state, &mut bounty, &BOUNTY, &AUTHORITY, true);
    assert_eq!(result, Err(SeekError::MathOverflow));
    assert_eq!(state, registry(499_999_999_999));
    assert_eq!(bounty, disputed());
    let mut enough = registry(500_000_000_000);
    assert!(resolve_dispute(&mut enough, &mut bounty, &BOUNTY, &AUTHORITY, true).is_ok());
    assert_eq!(enough.house_fund_balance, 0);
}

#[test]
fn resolve_rejects_refund_overflow() {
    let mut state = registry(u64::MAX);
    let mut bounty = disputed();
    bounty.bet_amount = u64::MAX / 2;
    bounty.dispute_stake = 2;
    let before = bounty;
    let result = resolve_dispute(&mut state, &mut bounty, &BOUNTY, &AUTHORITY, true);
    assert_eq!(result, Err(SeekError::MathOverflow));
    assert_eq!(bounty, before);
    assert_eq!(state, registry(u64::MAX));
}

#[test]
fn resolve_against_player_rejects_balance_overflow() {
    let mut state = registry(u64::MAX - 99_999_999_999);
    let mut bounty = disputed();
    let result = resolve_dispute(&mut state, &mut bounty, &BOUNTY, &AUTHORITY, false);
    assert_eq!(result, Err(SeekError::MathOverflow));
    assert_eq!(state, registry(u64::MAX - 99_999_999_999));
    assert_eq!(bounty, disputed());
}
