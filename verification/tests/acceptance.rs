use seek_protocol::acceptance::accept_bounty;
use seek_protocol::errors::SeekError;
use seek_protocol::events::BountyAccepted;
use seek_protocol::ledger::{Movement, Party};
use seek_protocol::registry::initialize;
use seek_protocol::state::{Bounty, BountyStatus, GlobalState};

fn fresh() -> GlobalState {
    initialize([7u8; 32], [3u8; 32], [4u8; 32], [6u8; 32], 254)
}

const REGISTRY: [u8; 32] = [1u8; 32];
const PLAYER: [u8; 32] = [9u8; 32];
const BOUNTY: [u8; 32] = [2u8; 32];
const COMMITMENT: [u8; 32] = [5u8; 32];

#[test]
fn accept_first_tier() {
    let mut state = fresh();
    let (bounty, outcome) =
        accept_bounty(&mut state, &REGISTRY, &PLAYER, &BOUNTY, 253, 100_000_000_000, COMMITMENT, 1_000)
            .unwrap();
    assert_eq!(
        bounty,
        Bounty {
            player: PLAYER,
            global_state: REGISTRY,
            bet_amount: 100_000_000_000,
            payout_amount: 200_000_000_000,
            created_at: 1_000,
            expires_at: 1_600,
            status: BountyStatus::Pending,
            tier: 1,
            singularity_won: false,
            bump: 253,
            mission_commitment: COMMITMENT,
            mission_id: [0u8; 32],
            mission_revealed: false,
            resolved_at: 0,
            challenge_ends_at: 0,
            proposed_win: false,
            is_disputed: false,
            dispute_stake: 0,
            disputed_at: 0,
        }
    );
    assert_eq!(
        outcome.event,
        BountyAccepted {
            player: PLAYER,
            bounty: BOUNTY,
            bet_amount: 100_000_000_000,
            tier: 1,
            expires_at: 1_600
        }
    );
    assert_eq!(
        outcome.movements,
        vec![Movement::Transfer {
            from: Party::Player,
            to: Party::HouseVault,
            amount: 100_000_000_000
        }]
    );
    let mut expected = fresh();
    expected.house_fund_balance = 100_000_000_000;
    expected.total_bounties_created = 1;
    assert_eq!(state, expected);
}

#[test]
fn accept_second_and_third_tier() {
    let mut state = fresh();
    let (second, _) =
        accept_bounty(&mut state, &REGISTRY, &PLAYER, &BOUNTY, 1, 200_000_000_000, COMMITMENT, 50).unwrap();
    assert_eq!(second.tier, 2);
    assert_eq!(second.expires_at, 350);
    assert_eq!(second.payout_amount, 400_000_000_000);
    let (third, _) =
        accept_bounty(&mut state, &REGISTRY, &PLAYER, &BOUNTY, 1, 300_000_000_000, COMMITMENT, 50).unwrap();
    assert_eq!(third.tier, 3);
    assert_eq!(third.expires_at, 170);
    assert_eq!(third.payout_amount, 600_000_000_000);
    assert_eq!(state.house_fund_balance, 500_000_000_000);
    assert_eq!(state.total_bounties_created, 2);
}

#[test]
fn accept_rejects_amount_between_tiers() {
    let mut state = fresh();
    let result =
        accept_bounty(&mut state, &REGISTRY, &PLAYER, &BOUNTY, 1, 150_000_000_000, COMMITMENT, 1_000);
    assert_eq!(result, Err(SeekError::InvalidBetAmount));
    assert_eq!(state, fresh());
}

#[test]
fn accept_rejects_every_other_amount() {
    for amount in [0u64, 1, 100, 99_999_999_999, 100_000_000_001, 400_000_000_000, u64::MAX] {
        let mut state = fresh();
        let result = accept_bounty(&mut state, &REGISTRY, &PLAYER, &BOUNTY, 1, amount, COMMITMENT, 0);
        assert_eq!(result, Err(SeekError::InvalidBetAmount));
        assert_eq!(state, fresh());
    }
}

#[test]
fn accept_rejects_expiry_overflow() {
    let mut state = fresh();
    let result = accept_bounty(
        &mut state,
        &REGISTRY,
        &PLAYER,
        &BOUNTY,
        1,
        100_000_000_000,
        COMMITMENT,
        i64::MAX - 599,
    );
    assert_eq!(result, Err(SeekError::MathOverflow));
    assert_eq!(state, fresh());
    let (bounty, _) = accept_bounty(
        &mut state,
        &REGISTRY,
        &PLAYER,
        &BOUNTY,
        1,
        100_000_000_000,
        COMMITMENT,
        i64::MAX - 600,
    )
    .unwrap();
    assert_eq!(bounty.expires_at, i64::MAX);
}

#[test]
fn accept_rejects_house_balance_overflow() {
    let mut state = fresh();
    state.house_fund_balance = u64::MAX - 99_999_999_999;
    let before = state;
    let result =
        accept_bounty(&mut state, &REGISTRY, &PLAYER, &BOUNTY, 1, 100_000_000_000, COMMITMENT, 0);
    assert_eq!(result, Err(SeekError::MathOverflow));
    assert_eq!(state, before);
}

#[test]
fn accept_rejects_counter_overflow() {
    let mut state = fresh();
    state.total_bounties_created = u64::MAX;
    let before = state;
    let result =
        accept_bounty(&mut state, &REGISTRY, &PLAYER, &BOUNTY, 1, 100_000_000_000, COMMITMENT, 0);
    assert_eq!(result, Err(SeekError::MathOverflow));
    assert_eq!(state, before);
}

#[test]
fn accept_takes_negative_time() {
    let mut state = fresh();
    let (bounty, _) =
        accept_bounty(&mut state, &REGISTRY, &PLAYER, &BOUNTY, 1, 300_000_000_000, COMMITMENT, -1_000)
            .unwrap();
    assert_eq!(bounty.created_at, -1_000);
    assert_eq!(bounty.expires_at, -880);
}
