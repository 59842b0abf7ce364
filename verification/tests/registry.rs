use seek_protocol::errors::SeekError;
use seek_protocol::events::{HouseFunded, TreasuryWithdrawn};
use seek_protocol::ledger::{Movement, Party};
use seek_protocol::registry::{fund_house, initialize, withdraw_treasury};
use seek_protocol::state::GlobalState;

fn authority() -> [u8; 32] {
    [7u8; 32]
}

fn stranger() -> [u8; 32] {
    let mut key = [7u8; 32];
    key[31] = 8;
    key
}

fn fresh() -> GlobalState {
    initialize(authority(), [3u8; 32], [4u8; 32], [6u8; 32], 254)
}

#[test]
fn initialize_sets_keys_and_zeroes_totals() {
    let state = fresh();
    assert_eq!(
        state,
        GlobalState {
            authority: [7u8; 32],
            house_vault: [3u8; 32],
            singularity_vault: [4u8; 32],
            protocol_treasury: [6u8; 32],
            house_fund_balance: 0,
            singularity_balance: 0,
            total_burned: 0,
            total_bounties_created: 0,
            total_bounties_won: 0,
            total_bounties_lost: 0,
            total_singularity_wins: 0,
            bump: 254,
        }
    );
}

#[test]
fn fund_house_adds_to_balance() {
    let mut state = fresh();
    let outcome = fund_house(&mut state, &authority(), 500_000_000_000).unwrap();
    assert_eq!(state.house_fund_balance, 500_000_000_000);
    assert_eq!(
        outcome.event,
        HouseFunded { authority: authority(), amount: 500_000_000_000, new_balance: 500_000_000_000 }
    );
    assert_eq!(
        outcome.movements,
        vec![Movement::Transfer {
            from: Party::Authority,
            to: Party::HouseVault,
            amount: 500_000_000_000
        }]
    );
    let again = fund_house(&mut state, &authority(), 1).unwrap();
    assert_eq!(again.event.new_balance, 500_000_000_001);
    assert_eq!(state.house_fund_balance, 500_000_000_001);
}

#[test]
fn fund_house_touches_nothing_else() {
    let mut state = fresh();
    fund_house(&mut state, &authority(), 42).unwrap();
    let mut expected = fresh();
    expected.house_fund_balance = 42;
    assert_eq!(state, expected);
}

#[test]
fn fund_house_rejects_stranger() {
    let mut state = fresh();
    let result = fund_house(&mut state, &stranger(), 10);
    assert_eq!(result, Err(SeekError::Unauthorized));
    assert_eq!(state, fresh());
}

#[test]
fn fund_house_rejects_overflow() {
    let mut state = fresh();
    state.house_fund_balance = u64::MAX - 5;
    let before = state;
    assert_eq!(fund_house(&mut state, &authority(), 6), Err(SeekError::MathOverflow));
    assert_eq!(state, before);
    assert!(fund_house(&mut state, &authority(), 5).is_ok());
    assert_eq!(state.house_fund_balance, u64::MAX);
}

#[test]
fn fund_house_accepts_zero() {
    let mut state = fresh();
    let outcome = fund_house(&mut state, &authority(), 0).unwrap();
    assert_eq!(state, fresh());
    assert_eq!(outcome.movements.len(), 1);
}

#[test]
fn withdraw_treasury_moves_to_authority() {
    let state = fresh();
    let destination = [12u8; 32];
    let outcome = withdraw_treasury(&state, &authority(), &destination, 5_000_000_000).unwrap();
    assert_eq!(
        outcome.event,
        TreasuryWithdrawn { authority: authority(), amount: 5_000_000_000, destination }
    );
    assert_eq!(
        outcome.movements,
        vec![Movement::Transfer {
            from: Party::ProtocolTreasury,
            to: Party::Authority,
            amount: 5_000_000_000
        }]
    );
}

#[test]
fn withdraw_treasury_rejects_stranger() {
    let state = fresh();
    let result = withdraw_treasury(&state, &stranger(), &[12u8; 32], 1);
    assert_eq!(result, Err(SeekError::Unauthorized));
}
