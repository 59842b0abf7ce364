//! Basis-point arithmetic: how a lost bet is divided, what a dispute costs,
//! and how the jackpot is drawn.
//!
//! Every share is `amount * bps / 10000`, rounded down. A lost bet is divided
//! four ways; what rounding leaves over is never moved and so stays in the
//! house vault.

use vstd::prelude::*;
use crate::errors::SeekError;

verus! {

/// One hundred percent, in basis points.
pub const BPS_DENOMINATOR: u64 = 10000;

/// Part of a lost bet that the house keeps.
pub const HOUSE_SHARE_BPS: u64 = 7000;

/// Part of a lost bet that feeds the jackpot pool.
pub const SINGULARITY_SHARE_BPS: u64 = 1500;

/// Part of a lost bet that is burned.
pub const BURN_SHARE_BPS: u64 = 1000;

/// Part of a lost bet that goes to the protocol treasury.
pub const PROTOCOL_SHARE_BPS: u64 = 500;

/// A win takes the jackpot when its draw, a number below this, is zero.
pub const SINGULARITY_ODDS: u64 = 500;

/// Seconds during which a proposed outcome can be disputed.
pub const CHALLENGE_PERIOD: i64 = 300;

/// Part of the bet that a player must stake to dispute a loss.
pub const DISPUTE_STAKE_BPS: u64 = 5000;

/// Seconds allowed for filing a dispute after a resolution. No operation
/// reads it: a dispute is bound by the challenge period alone.
pub const DISPUTE_WINDOW: i64 = 600;

/// `bps` basis points of `amount`, rounded down.
pub open spec fn share_of(amount: u64, bps: u64) -> int {
    (amount * bps) / 10000
}

/// Whether the product behind a share leaves the 64-bit range.
pub open spec fn share_overflows(amount: u64, bps: u64) -> bool {
    amount * bps > u64::MAX
}

/// The four parts of a lost bet.
#[derive(Clone, Copy, Debug, PartialEq, Eq)]
pub struct LossSplit {
    /// Stays in the house vault.
    pub house_share: u64,
    /// Moves to the jackpot vault.
    pub singularity_share: u64,
    /// Is burned.
    pub burn_share: u64,
    /// Moves to the protocol treasury.
    pub protocol_share: u64,
}

/// The split of a lost bet, as a mathematical value.
pub open spec fn loss_split_of(bet_amount: u64) -> LossSplit {
    LossSplit {
        house_share: share_of(bet_amount, HOUSE_SHARE_BPS) as u64,
        singularity_share: share_of(bet_amount, SINGULARITY_SHARE_BPS) as u64,
        burn_share: share_of(bet_amount, BURN_SHARE_BPS) as u64,
        protocol_share: share_of(bet_amount, PROTOCOL_SHARE_BPS) as u64,
    }
}

impl LossSplit {
    /// What leaves the house vault: everything but the house's own share.
    pub open spec fn outflow(self) -> int {
        self.singularity_share + self.burn_share + self.protocol_share
    }

    /// The four shares together.
    pub open spec fn total(self) -> int {
        self.house_share + self.outflow()
    }
}

/// `bps` basis points of `amount`, rounded down; `MathOverflow` when
/// `amount * bps` does not fit in 64 bits.
pub fn checked_share(amount: u64, bps: u64) -> (result: Result<u64, SeekError>)
    ensures
        share_overflows(amount, bps) ==> result == Err::<u64, SeekError>(SeekError::MathOverflow),
        !share_overflows(amount, bps) ==> result == Ok::<u64, SeekError>(
            share_of(amount, bps) as u64,
        ),
        !share_overflows(amount, bps) ==> share_of(amount, bps) <= u64::MAX,
{
    match amount.checked_mul(bps) {
        Some(product) => Ok(product / BPS_DENOMINATOR),
        None => Err(SeekError::MathOverflow),
    }
}

/// Divides a lost bet into 70% house, 15% jackpot, 10% burn and 5% treasury,
/// each rounded down. Fails with `MathOverflow` exactly when the largest
/// product, `bet_amount * 7000`, does not fit in 64 bits.
pub fn split_loss(bet_amount: u64) -> (result: Result<LossSplit, SeekError>)
    ensures
        share_overflows(bet_amount, HOUSE_SHARE_BPS) ==> result == Err::<LossSplit, SeekError>(
            SeekError::MathOverflow,
        ),
        !share_overflows(bet_amount, HOUSE_SHARE_BPS) ==> result == Ok::<LossSplit, SeekError>(
            loss_split_of(bet_amount),
        ),
{
    let house_share = match checked_share(bet_amount, HOUSE_SHARE_BPS) {
        Ok(share) => share,
        Err(e) => { return Err(e); },
    };
    let singularity_share = match checked_share(bet_amount, SINGULARITY_SHARE_BPS) {
        Ok(share) => share,
        Err(e) => { return Err(e); },
    };
    let burn_share = match checked_share(bet_amount, BURN_SHARE_BPS) {
        Ok(share) => share,
        Err(e) => { return Err(e); },
    };
    let protocol_share = match checked_share(bet_amount, PROTOCOL_SHARE_BPS) {
        Ok(share) => share,
        Err(e) => { return Err(e); },
    };
    Ok(LossSplit { house_share, singularity_share, burn_share, protocol_share })
}

/// The stake that disputing a loss costs: half the bet, rounded down.
pub open spec fn dispute_stake_of(bet_amount: u64) -> int {
    share_of(bet_amount, DISPUTE_STAKE_BPS)
}

/// A timestamp read as an unsigned 64-bit number: itself from the epoch on,
/// and its two's-complement bit pattern before.
pub open spec fn timestamp_bits(now: i64) -> int {
    if now >= 0 {
        now as int
    } else {
        now + 0x1_0000_0000_0000_0000
    }
}

/// The jackpot draw for a slot and a timestamp: their sum modulo the odds.
/// There is no draw when the sum leaves the 64-bit range.
pub open spec fn jackpot_draw_of(slot: u64, now: i64) -> Option<u64> {
    if slot + timestamp_bits(now) > u64::MAX {
        None
    } else {
        Some(((slot + timestamp_bits(now)) % (SINGULARITY_ODDS as int)) as u64)
    }
}

/// Draws for the jackpot from the slot counter and the clock. The draw is
/// `(slot + now) mod 500`, where `now` counts as an unsigned number, and is
/// `None` when the sum does not fit in 64 bits.
pub fn jackpot_draw(slot: u64, now: i64) -> (draw: Option<u64>)
    ensures
        draw == jackpot_draw_of(slot, now),
        draw matches Some(d) ==> d < SINGULARITY_ODDS,
{
    let bits: u64 = if now >= 0 {
        now as u64
    } else {
        u64::MAX - ((-(now + 1)) as u64)
    };
    match slot.checked_add(bits) {
        Some(sum) => Some(sum % SINGULARITY_ODDS),
        None => None,
    }
}

} // verus!
