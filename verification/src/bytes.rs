//! Comparing and joining the 32-byte values that stand for keys and digests.

use vstd::prelude::*;

verus! {

/// Whether two 32-byte values are the same.
pub fn same_bytes(a: &[u8; 32], b: &[u8; 32]) -> (same: bool)
    ensures
        same == (a@ == b@),
{
    let mut i: usize = 0;
    while i < 32
        invariant
            i <= 32,
            forall|j: int| 0 <= j < i ==> a@[j] == b@[j],
        decreases 32 - i,
    {
        if a[i] != b[i] {
            return false;
        }
        i += 1;
    }
    assert(a@ =~= b@);
    true
}

/// Two 32-byte values, one after the other, as one block of 64 bytes.
pub fn concat_32(first: &[u8; 32], second: &[u8; 32]) -> (block: [u8; 64])
    ensures
        block@ == first@ + second@,
{
    let mut block = [0u8; 64];
    let mut i: usize = 0;
    while i < 32
        invariant
            i <= 32,
            forall|j: int| 0 <= j < i ==> block@[j] == first@[j],
            forall|j: int| 0 <= j < i ==> block@[32 + j] == second@[j],
        decreases 32 - i,
    {
        block[i] = first[i];
        block[i + 32] = second[i];
        i += 1;
    }
    assert(block@ =~= first@ + second@);
    block
}

} // verus!
