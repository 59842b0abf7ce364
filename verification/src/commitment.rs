//! The commit-reveal binding between a bounty and its mission.
//!
//! When a bet is accepted the caller supplies the SHA-256 digest of the
//! mission identifier followed by a secret salt. Revealing the mission later
//! means showing an identifier and a salt with that digest.

use vstd::prelude::*;
use crate::bytes::concat_32;

verus! {

/// The SHA-256 digest of a byte string.
pub uninterp spec fn sha256(data: Seq<u8>) -> Seq<u8>;

/// The digest that commits to a mission identifier under a salt.
pub open spec fn commitment_of(mission_id: Seq<u8>, salt: Seq<u8>) -> Seq<u8> {
    sha256(mission_id + salt)
}

/// Calls `solana_program::hash::hash` on the 64 bytes and takes the digest out
/// with `Hash::to_bytes`. Trusted: the result is the SHA-256 digest of the
/// input, which this crate names `sha256` and does not define.
#[verifier::external_body]
fn sha256_digest(input: &[u8; 64]) -> (digest: [u8; 32])
    ensures
        digest@ == sha256(input@),
{
    solana_program::hash::hash(input).to_bytes()
}

/// Computes the commitment to a mission identifier under a salt.
pub fn compute_commitment(mission_id: &[u8; 32], salt: &[u8; 32]) -> (digest: [u8; 32])
    ensures
        digest@ == commitment_of(mission_id@, salt@),
{
    let block = concat_32(mission_id, salt);
    sha256_digest(&block)
}

} // verus!
