//! Setting up the registry, funding the house, and drawing on the treasury.

use vstd::prelude::*;
use crate::bytes::same_bytes;
use crate::errors::SeekError;
use crate::events::{HouseFunded, TreasuryWithdrawn};
use crate::ledger::{Movement, Outcome, Party};
use crate::resolution::is_authority;
use crate::state::{GlobalState, Key};

verus! {

/// Creates the registry: the authority, the addresses of the three vaults,
/// the bump seed, and every balance and counter at zero.
pub fn initialize(
    authority: Key,
    house_vault: Key,
    singularity_vault: Key,
    protocol_treasury: Key,
    bump: u8,
) -> (state: GlobalState)
    ensures
        state == (GlobalState {
            authority,
            house_vault,
            singularity_vault,
            protocol_treasury,
            house_fund_balance: 0,
            singularity_balance: 0,
            total_burned: 0,
            total_bounties_created: 0,
            total_bounties_won: 0,
            total_bounties_lost: 0,
            total_singularity_wins: 0,
            bump,
        }),
{
    GlobalState {
        authority,
        house_vault,
        singularity_vault,
        protocol_treasury,
        house_fund_balance: 0,
        singularity_balance: 0,
        total_burned: 0,
        total_bounties_created: 0,
        total_bounties_won: 0,
        total_bounties_lost: 0,
        total_singularity_wins: 0,
        bump,
    }
}

/// Why funding is rejected, if it is.
pub open spec fn fund_rejection(state: GlobalState, caller: Key, amount: u64) -> Option<SeekError> {
    if !is_authority(state, caller) {
        Some(SeekError::Unauthorized)
    } else if state.house_fund_balance + amount > u64::MAX {
        Some(SeekError::MathOverflow)
    } else {
        None
    }
}

/// The registry after the house was funded.
pub open spec fn state_after_funding(state: GlobalState, amount: u64) -> GlobalState {
    GlobalState { house_fund_balance: (state.house_fund_balance + amount) as u64, ..state }
}

/// What funding moves: the amount, from the authority to the house vault.
pub open spec fn fund_movements(amount: u64) -> Seq<Movement> {
    seq![Movement::Transfer { from: Party::Authority, to: Party::HouseVault, amount }]
}

/// Adds capital to the house.
///
/// Rejected with `Unauthorized` unless the caller is the authority, and with
/// `MathOverflow` if the tracked house balance would leave the 64-bit range.
/// Otherwise the tracked house balance grows by `amount`, which is to be
/// moved from the authority to the house vault. A rejected call changes
/// nothing.
pub fn fund_house(state: &mut GlobalState, caller: &Key, amount: u64) -> (result: Result<
    Outcome<HouseFunded>,
    SeekError,
>)
    ensures
        match fund_rejection(*old(state), *caller, amount) {
            Some(e) => {
                &&& result matches Err(err)
                &&& err == e
                &&& *final(state) == *old(state)
            },
            None => {
                &&& result matches Ok(outcome)
                &&& outcome.event == (HouseFunded {
                    authority: *caller,
                    amount,
                    new_balance: (old(state).house_fund_balance + amount) as u64,
                })
                &&& outcome.movements@ == fund_movements(amount)
                &&& *final(state) == state_after_funding(*old(state), amount)
            },
        },
{
    if !same_bytes(caller, &state.authority) {
        return Err(SeekError::Unauthorized);
    }
    let house_after = match state.house_fund_balance.checked_add(amount) {
        Some(balance) => balance,
        None => { return Err(SeekError::MathOverflow); },
    };
    let mut movements: Vec<Movement> = Vec::new();
    movements.push(Movement::Transfer { from: Party::Authority, to: Party::HouseVault, amount });
    assert(movements@ =~= fund_movements(amount));
    state.house_fund_balance = house_after;
    let event = HouseFunded { authority: *caller, amount, new_balance: house_after };
    Ok(Outcome { event, movements })
}

/// What a withdrawal moves: the amount, from the treasury to the authority.
pub open spec fn withdraw_movements(amount: u64) -> Seq<Movement> {
    seq![Movement::Transfer { from: Party::ProtocolTreasury, to: Party::Authority, amount }]
}

/// Takes funds out of the protocol treasury for the authority.
///
/// Rejected with `Unauthorized` unless the caller is the authority.
/// Otherwise `amount` is to be moved from the treasury to the authority's
/// token account at `destination`. The registry is only read: the treasury
/// is a pool of its own and no tracked balance changes.
pub fn withdraw_treasury(state: &GlobalState, caller: &Key, destination: &Key, amount: u64) -> (result:
    Result<Outcome<TreasuryWithdrawn>, SeekError>)
    ensures
        !is_authority(*state, *caller) ==> {
            &&& result matches Err(err)
            &&& err == SeekError::Unauthorized
        },
        is_authority(*state, *caller) ==> {
            &&& result matches Ok(outcome)
            &&& outcome.event == (TreasuryWithdrawn {
                authority: *caller,
                amount,
                destination: *destination,
            })
            &&& outcome.movements@ == withdraw_movements(amount)
        },
{
    if !same_bytes(caller, &state.authority) {
        return Err(SeekError::Unauthorized);
    }
    let mut movements: Vec<Movement> = Vec::new();
    movements.push(
        Movement::Transfer { from: Party::ProtocolTreasury, to: Party::Authority, amount },
    );
    assert(movements@ =~= withdraw_movements(amount));
    let event = TreasuryWithdrawn { authority: *caller, amount, destination: *destination };
    Ok(Outcome { event, movements })
}

} // verus!
