//! The reasons for which an operation is rejected.

use vstd::prelude::*;

verus! {

/// Why an operation was rejected. A rejected operation changes nothing.
#[derive(Clone, Copy, Debug, PartialEq, Eq, Structural)]
pub enum SeekError {
    /// The bet is not one of the three tier amounts.
    InvalidBetAmount,
    /// The bounty is not in the state this operation starts from.
    BountyNotPending,
    /// The bounty has moved past the state this operation starts from.
    BountyAlreadyResolved,
    /// The hunt timer has run out.
    BountyExpired,
    /// The hunt timer has not run out yet.
    BountyNotExpired,
    /// The house cannot cover the payout.
    InsufficientHouseFunds,
    /// A checked addition, subtraction or multiplication left the 64-bit range.
    MathOverflow,
    /// A token account is not of the protocol's mint.
    InvalidMint,
    /// The caller does not hold the role the operation asks for.
    Unauthorized,
    /// The revealed mission and salt do not hash to the commitment.
    InvalidMissionHash,
    /// The mission of this bounty was revealed before.
    MissionAlreadyRevealed,
    /// An outcome was proposed before the mission was revealed.
    MissionNotRevealed,
    /// The challenge window is still open.
    ChallengePeriodActive,
    /// The challenge window has closed.
    ChallengePeriodEnded,
    /// The time allowed for filing a dispute has passed.
    DisputeWindowExpired,
    /// The bounty was disputed before.
    AlreadyDisputed,
    /// The stake offered for a dispute is not the required one.
    InvalidDisputeStake,
    /// The bounty is not under dispute.
    NotDisputed,
    /// The bounty is still inside its challenge window.
    StillInChallengePeriod,
}

} // verus!
