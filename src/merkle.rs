use vstd::prelude::*;

verus! {

/// The longest inclusion proof that can be folded: each level reads one bit
/// of the 32-bit leaf index.
pub const MAX_PROOF_DEPTH: usize = 32;

/// The root that `proof` rebuilds from `leaf` at position `index`.
pub uninterp spec fn merkle_root_of(leaf: [u8; 32], proof: Seq<[u8; 32]>, index: u32) -> [u8; 32];

/// Relies on spl_concurrent_merkle_tree::hash::recompute, which hashes the
/// leaf with each sibling of the proof in turn (keccak, the side chosen by the
/// index's bit for that level); the result depends on its arguments alone, and
/// an empty proof leaves the leaf as it is. It shifts the index by the level,
/// so the proof may hold at most 32 siblings.
#[verifier::external_body]
pub(crate) fn recompute_root(leaf: [u8; 32], proof: &Vec<[u8; 32]>, index: u32) -> (r: [u8; 32])
    requires
        proof@.len() <= MAX_PROOF_DEPTH,
    ensures
        r == merkle_root_of(leaf, proof@, index),
        proof@.len() == 0 ==> r == leaf,
{
    spl_concurrent_merkle_tree::hash::recompute(leaf, proof.as_slice(), index)
}

/// Compares two 32-byte hashes.
pub fn same_hash(a: &[u8; 32], b: &[u8; 32]) -> (r: bool)
    ensures
        r == (*a == *b),
{
    let mut i: usize = 0;
    while i < 32
        invariant
            0 <= i <= 32,
            forall|j: int| 0 <= j < i ==> a[j] == b[j],
        decreases 32 - i,
    {
        if a[i] != b[i] {
            return false;
        }
        i = i + 1;
    }
    assert(*a =~= *b);
    true
}

/// Whether `h` is among `hashes`.
pub fn contains_hash(hashes: &Vec<[u8; 32]>, h: &[u8; 32]) -> (r: bool)
    ensures
        r == hashes@.contains(*h),
{
    let mut i: usize = 0;
    while i < hashes.len()
        invariant
            0 <= i <= hashes@.len(),
            forall|j: int| 0 <= j < i ==> hashes@[j] != *h,
        decreases hashes@.len() - i,
    {
        if same_hash(&hashes[i], h) {
            return true;
        }
        i = i + 1;
    }
    false
}

} // verus!
