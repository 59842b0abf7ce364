use seek_protocol::acceptance::accept_bounty;
use seek_protocol::commitment::compute_commitment;
use seek_protocol::dispute::{dispute_bounty, resolve_dispute};
use seek_protocol::errors::SeekError;
use seek_protocol::ledger::{Movement, Party};
use seek_protocol::registry::{fund_house, initialize, withdraw_treasury};
use seek_protocol::resolution::{propose_resolution, reveal_mission};
use seek_protocol::settlement::finalize_bounty;
use seek_protocol::state::{BountyStatus, GlobalState};

const AUTHORITY: [u8; 32] = [7u8; 32];
const REGISTRY: [u8; 32] = [1u8; 32];
const PLAYER: [u8; 32] = [9u8; 32];
const BOUNTY: [u8; 32] = [2u8; 32];
const MISSION: [u8; 32] = [42u8; 32];
const SALT: [u8; 32] = [99u8; 32];

// Balances of the parties, kept the way a token ledger would keep them.
#[derive(Clone, Copy, Debug, PartialEq, Eq)]
struct Books {
    player: u64,
    authority: u64,
    house: u64,
    pool: u64,
    treasury: u64,
    burned: u64,
}

impl Books {
    fn slot(&mut self, party: Party) -> &mut u64 {
        match party {
            Party::Player => &mut self.player,
            Party::Authority => &mut self.authority,
            Party::HouseVault => &mut self.house,
            Party::SingularityVault => &mut self.pool,
            Party::ProtocolTreasury => &mut self.treasury,
        }
    }

    fn carry_out(&mut self, movements: &[Movement]) {
        for movement in movements {
            match *movement {
                Movement::Transfer { from, to, amount } => {
                    *self.slot(from) = self.slot(from).checked_sub(amount).unwrap();
                    *self.slot(to) += amount;
                }
                Movement::Burn { from, amount } => {
                    *self.slot(from) = self.slot(from).checked_sub(amount).unwrap();
                    self.burned += amount;
                }
            }
        }
    }

    fn supply(&self) -> u64 {
        self.player + self.authority + self.house + self.pool + self.treasury
    }
}

fn start() -> (GlobalState, Books) {
    let mut state = initialize(AUTHORITY, [3u8; 32], [4u8; 32], [6u8; 32], 254);
    let mut books = Books {
        player: 1_000_000_000_000,
        authority: 5_000_000_000_000,
        house: 0,
        pool: 0,
        treasury: 0,
        burned: 0,
    };
    let funded = fund_house(&mut state, &AUTHORITY, 2_000_000_000_000).unwrap();
    books.carry_out(&funded.movements);
    (state, books)
}

#[test]
fn lost_bounty_from_accept_to_finalize() {
    let (mut state, mut books) = start();
    let commitment = compute_commitment(&MISSION, &SALT);
    let (mut bounty, accepted) =
        accept_bounty(&mut state, &REGISTRY, &PLAYER, &BOUNTY, 253, 100_000_000_000, commitment, 10_000)
            .unwrap();
    books.carry_out(&accepted.movements);
    let house_after_accept = state.house_fund_balance;
    let pool_before = state.singularity_balance;
    let burned_before = state.total_burned;
    assert_eq!(house_after_accept, 2_100_000_000_000);

    reveal_mission(&state, &mut bounty, &BOUNTY, &AUTHORITY, MISSION, SALT).unwrap();
    assert_eq!(bounty.status, BountyStatus::Submitted);
    propose_resolution(&state, &mut bounty, &BOUNTY, &AUTHORITY, false, 10_400).unwrap();
    assert_eq!(bounty.status, BountyStatus::ChallengeLost);

    assert_eq!(
        finalize_bounty(&mut state, &mut bounty, &BOUNTY, 10_699, 1).unwrap_err(),
        SeekError::ChallengePeriodActive
    );
    let settled = finalize_bounty(&mut state, &mut bounty, &BOUNTY, 10_701, 1).unwrap();
    books.carry_out(&settled.movements);

    assert_eq!(bounty.status, BountyStatus::Lost);
    assert_eq!(house_after_accept - state.house_fund_balance, 30_000_000_000);
    assert_eq!(state.singularity_balance - pool_before, 15_000_000_000);
    assert_eq!(state.total_burned - burned_before, 10_000_000_000);
    assert_eq!(state.total_bounties_lost, 1);
    assert_eq!(state.total_bounties_created, 1);

    assert_eq!(books.house, state.house_fund_balance);
    assert_eq!(books.pool, state.singularity_balance);
    assert_eq!(books.burned, state.total_burned);
    assert_eq!(books.treasury, 5_000_000_000);
    assert_eq!(books.supply() + books.burned, 6_000_000_000_000);

    assert_eq!(
        finalize_bounty(&mut state, &mut bounty, &BOUNTY, 10_702, 1).unwrap_err(),
        SeekError::BountyNotPending
    );
}

#[test]
fn won_bounty_pays_twice_the_bet() {
    let (mut state, mut books) = start();
    let commitment = compute_commitment(&MISSION, &SALT);
    let (mut bounty, accepted) =
        accept_bounty(&mut state, &REGISTRY, &PLAYER, &BOUNTY, 253, 300_000_000_000, commitment, 10_000)
            .unwrap();
    books.carry_out(&accepted.movements);
    reveal_mission(&state, &mut bounty, &BOUNTY, &AUTHORITY, MISSION, SALT).unwrap();
    propose_resolution(&state, &mut bounty, &BOUNTY, &AUTHORITY, true, 10_100).unwrap();
    let settled = finalize_bounty(&mut state, &mut bounty, &BOUNTY, 10_400, 7).unwrap();
    books.carry_out(&settled.movements);
    assert_eq!(bounty.status, BountyStatus::Won);
    assert_eq!(books.player, 1_300_000_000_000);
    assert_eq!(state.house_fund_balance, 1_700_000_000_000);
    assert_eq!(books.house, state.house_fund_balance);
    assert_eq!(books.supply(), 6_000_000_000_000);
    assert_eq!(books.burned, 0);
}

#[test]
fn jackpot_built_by_losses_goes_to_a_winner() {
    let (mut state, mut books) = start();
    let commitment = compute_commitment(&MISSION, &SALT);
    // Two losses feed the pool.
    for round in 0..2 {
        let (mut bounty, accepted) = accept_bounty(
            &mut state,
            &REGISTRY,
            &PLAYER,
            &BOUNTY,
            253,
            200_000_000_000,
            commitment,
            round * 1_000,
        )
        .unwrap();
        books.carry_out(&accepted.movements);
        reveal_mission(&state, &mut bounty, &BOUNTY, &AUTHORITY, MISSION, SALT).unwrap();
        propose_resolution(&state, &mut bounty, &BOUNTY, &AUTHORITY, false, round * 1_000 + 10).unwrap();
        let settled =
            finalize_bounty(&mut state, &mut bounty, &BOUNTY, round * 1_000 + 310, 1).unwrap();
        books.carry_out(&settled.movements);
    }
    assert_eq!(state.singularity_balance, 60_000_000_000);
    assert_eq!(books.pool, 60_000_000_000);
    // A win whose draw is zero takes it all: 2490 + 10 = 2500.
    let (mut bounty, accepted) =
        accept_bounty(&mut state, &REGISTRY, &PLAYER, &BOUNTY, 253, 100_000_000_000, commitment, 2_000)
            .unwrap();
    books.carry_out(&accepted.movements);
    reveal_mission(&state, &mut bounty, &BOUNTY, &AUTHORITY, MISSION, SALT).unwrap();
    propose_resolution(&state, &mut bounty, &BOUNTY, &AUTHORITY, true, 2_100).unwrap();
    let player_before = books.player;
    let settled = finalize_bounty(&mut state, &mut bounty, &BOUNTY, 2_490, 10).unwrap();
    books.carry_out(&settled.movements);
    assert!(bounty.singularity_won);
    assert_eq!(state.singularity_balance, 0);
    assert_eq!(books.pool, 0);
    assert_eq!(books.player - player_before, 260_000_000_000);
    assert_eq!(state.total_singularity_wins, 1);
    assert_eq!(books.house, state.house_fund_balance);
    assert_eq!(books.burned, state.total_burned);
    assert_eq!(books.supply() + books.burned, 6_000_000_000_000);
}

#[test]
fn dispute_won_by_player() {
    let (mut state, mut books) = start();
    let commitment = compute_commitment(&MISSION, &SALT);
    let (mut bounty, accepted) =
        accept_bounty(&mut state, &REGISTRY, &PLAYER, &BOUNTY, 253, 100_000_000_000, commitment, 0).unwrap();
    books.carry_out(&accepted.movements);
    reveal_mission(&state, &mut bounty, &BOUNTY, &AUTHORITY, MISSION, SALT).unwrap();
    propose_resolution(&state, &mut bounty, &BOUNTY, &AUTHORITY, false, 100).unwrap();
    let staked = dispute_bounty(&mut bounty, &BOUNTY, &PLAYER, 200).unwrap();
    books.carry_out(&staked.movements);
    // The stake is in the vault and not in the tracked balance.
    assert_eq!(books.house, state.house_fund_balance + 50_000_000_000);
    let verdict = resolve_dispute(&mut state, &mut bounty, &BOUNTY, &AUTHORITY, true).unwrap();
    books.carry_out(&verdict.movements);
    assert_eq!(bounty.status, BountyStatus::Won);
    // Paid 100 + 50, received 100 + 50 + 100.
    assert_eq!(books.player, 1_100_000_000_000);
    assert_eq!(state.house_fund_balance, 1_850_000_000_000);
    assert!(books.house >= state.house_fund_balance);
    assert_eq!(books.supply(), 6_000_000_000_000);
}

#[test]
fn dispute_lost_by_player() {
    let (mut state, mut books) = start();
    let commitment = compute_commitment(&MISSION, &SALT);
    let (mut bounty, accepted) =
        accept_bounty(&mut state, &REGISTRY, &PLAYER, &BOUNTY, 253, 100_000_000_000, commitment, 0).unwrap();
    books.carry_out(&accepted.movements);
    reveal_mission(&state, &mut bounty, &BOUNTY, &AUTHORITY, MISSION, SALT).unwrap();
    propose_resolution(&state, &mut bounty, &BOUNTY, &AUTHORITY, false, 100).unwrap();
    let staked = dispute_bounty(&mut bounty, &BOUNTY, &PLAYER, 200).unwrap();
    books.carry_out(&staked.movements);
    let verdict = resolve_dispute(&mut state, &mut bounty, &BOUNTY, &AUTHORITY, false).unwrap();
    books.carry_out(&verdict.movements);
    assert_eq!(bounty.status, BountyStatus::Lost);
    assert_eq!(books.player, 850_000_000_000);
    assert_eq!(state.house_fund_balance, 2_150_000_000_000);
    assert_eq!(books.house, state.house_fund_balance);
    assert_eq!(books.supply(), 6_000_000_000_000);
}

#[test]
fn treasury_withdrawal_leaves_the_books_alone() {
    let (mut state, mut books) = start();
    let commitment = compute_commitment(&MISSION, &SALT);
    let (mut bounty, accepted) =
        accept_bounty(&mut state, &REGISTRY, &PLAYER, &BOUNTY, 253, 100_000_000_000, commitment, 0).unwrap();
    books.carry_out(&accepted.movements);
    reveal_mission(&state, &mut bounty, &BOUNTY, &AUTHORITY, MISSION, SALT).unwrap();
    propose_resolution(&state, &mut bounty, &BOUNTY, &AUTHORITY, false, 100).unwrap();
    let settled = finalize_bounty(&mut state, &mut bounty, &BOUNTY, 400, 1).unwrap();
    books.carry_out(&settled.movements);
    let before = state;
    let withdrawn = withdraw_treasury(&state, &AUTHORITY, &[12u8; 32], 5_000_000_000).unwrap();
    books.carry_out(&withdrawn.movements);
    assert_eq!(state, before);
    assert_eq!(books.treasury, 0);
    assert_eq!(books.authority, 3_005_000_000_000);
    assert_eq!(books.house, state.house_fund_balance);
}

#[test]
fn status_never_moves_back() {
    fn stage(status: BountyStatus) -> u8 {
        match status {
            BountyStatus::Pending => 0,
            BountyStatus::Submitted => 1,
            BountyStatus::ChallengeWon | BountyStatus::ChallengeLost => 2,
            BountyStatus::Disputed => 3,
            BountyStatus::Won | BountyStatus::Lost | BountyStatus::Cancelled => 4,
        }
    }
    let (mut state, _) = start();
    let commitment = compute_commitment(&MISSION, &SALT);
    let (mut bounty, _) =
        accept_bounty(&mut state, &REGISTRY, &PLAYER, &BOUNTY, 253, 100_000_000_000, commitment, 0).unwrap();
    let mut seen = vec![stage(bounty.status)];
    reveal_mission(&state, &mut bounty, &BOUNTY, &AUTHORITY, MISSION, SALT).unwrap();
    seen.push(stage(bounty.status));
    propose_resolution(&state, &mut bounty, &BOUNTY, &AUTHORITY, false, 100).unwrap();
    seen.push(stage(bounty.status));
    dispute_bounty(&mut bounty, &BOUNTY, &PLAYER, 200).unwrap();
    seen.push(stage(bounty.status));
    resolve_dispute(&mut state, &mut bounty, &BOUNTY, &AUTHORITY, false).unwrap();
    seen.push(stage(bounty.status));
    assert_eq!(seen, vec![0, 1, 2, 3, 4]);
    assert_eq!(bounty.mission_commitment, commitment);
    // Nothing moves a settled bounty.
    let settled = bounty;
    assert!(reveal_mission(&state, &mut bounty, &BOUNTY, &AUTHORITY, MISSION, SALT).is_err());
    assert!(propose_resolution(&state, &mut bounty, &BOUNTY, &AUTHORITY, true, 300).is_err());
    assert!(finalize_bounty(&mut state, &mut bounty, &BOUNTY, 10_000, 1).is_err());
    assert!(dispute_bounty(&mut bounty, &BOUNTY, &PLAYER, 250).is_err());
    assert!(resolve_dispute(&mut state, &mut bounty, &BOUNTY, &AUTHORITY, true).is_err());
    assert_eq!(bounty, settled);
}
