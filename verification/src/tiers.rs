//! The three bet tiers and the hunt timer that belongs to each.

use vstd::prelude::*;
use crate::errors::SeekError;

verus! {

/// Bet of the first tier, in the token's smallest unit (nine decimals).
pub const TIER_1_BET: u64 = 100_000_000_000;

/// Bet of the second tier.
pub const TIER_2_BET: u64 = 200_000_000_000;

/// Bet of the third tier.
pub const TIER_3_BET: u64 = 300_000_000_000;

/// Seconds a first-tier hunt may take.
pub const TIER_1_DURATION: i64 = 600;

/// Seconds a second-tier hunt may take.
pub const TIER_2_DURATION: i64 = 300;

/// Seconds a third-tier hunt may take.
pub const TIER_3_DURATION: i64 = 120;

/// The tier that a bet belongs to, if it is one of the three tier amounts.
pub open spec fn tier_for_bet(bet_amount: u64) -> Option<u8> {
    if bet_amount == TIER_1_BET {
        Some(1u8)
    } else if bet_amount == TIER_2_BET {
        Some(2u8)
    } else if bet_amount == TIER_3_BET {
        Some(3u8)
    } else {
        None
    }
}

/// The bet of a tier; zero for a number that names no tier.
pub open spec fn bet_for_tier(tier: u8) -> u64 {
    if tier == 1 {
        TIER_1_BET
    } else if tier == 2 {
        TIER_2_BET
    } else if tier == 3 {
        TIER_3_BET
    } else {
        0
    }
}

/// The hunt timer of a tier. A number that names no tier gets the first
/// tier's timer.
pub open spec fn tier_duration(tier: u8) -> i64 {
    if tier == 2 {
        TIER_2_DURATION
    } else if tier == 3 {
        TIER_3_DURATION
    } else {
        TIER_1_DURATION
    }
}

/// Accepts exactly the three tier amounts and returns the tier, 1 to 3.
/// Any other amount is rejected with `InvalidBetAmount`.
pub fn validate_bet_amount(bet_amount: u64) -> (result: Result<u8, SeekError>)
    ensures
        result == match tier_for_bet(bet_amount) {
            Some(tier) => Ok::<u8, SeekError>(tier),
            None => Err::<u8, SeekError>(SeekError::InvalidBetAmount),
        },
{
    if bet_amount == TIER_1_BET {
        Ok(1)
    } else if bet_amount == TIER_2_BET {
        Ok(2)
    } else if bet_amount == TIER_3_BET {
        Ok(3)
    } else {
        Err(SeekError::InvalidBetAmount)
    }
}

/// Seconds that a hunt of the given tier may take: 600, 300 and 120 for the
/// tiers 1, 2 and 3, and 600 for any other number.
pub fn get_tier_duration(tier: u8) -> (duration: i64)
    ensures
        duration == tier_duration(tier),
{
    if tier == 2 {
        TIER_2_DURATION
    } else if tier == 3 {
        TIER_3_DURATION
    } else {
        TIER_1_DURATION
    }
}

} // verus!
