use vstd::prelude::*;
use crate::model::{Identity, SwarmError, SwarmView, SubmitWorkView, REWARD};
use crate::registry::init_outcome;
use crate::settlement::{reconstruction, proof_accepted, submission_outcome};

verus! {

/// Initializing the same slot twice: the second call fails with
/// `AlreadyInitialized` and leaves the state that the first call produced.
pub proof fn lemma_initialize_twice_rejected(
    slot: Option<SwarmView>,
    authority: Identity,
    merkle_tree: Identity,
    authority2: Identity,
    merkle_tree2: Identity,
)
    ensures
        ({
            let (first, _) = init_outcome(slot, authority, merkle_tree);
            let (second, r) = init_outcome(first, authority2, merkle_tree2);
            &&& r == Err::<(), SwarmError>(SwarmError::AlreadyInitialized)
            &&& second == first
        }),
{
}

/// On an active swarm, a proof that does not rebuild the claimed root from
/// the data hash is refused with `InvalidProof`, and nothing changes.
pub proof fn lemma_invalid_proof_rejected(
    ctx: SubmitWorkView,
    root: [u8; 32],
    data_hash: [u8; 32],
    proof: Seq<[u8; 32]>,
    index: u32,
    timestamp: i64,
)
    requires
        ctx.swarm.active,
        reconstruction(data_hash, proof, index) != Some(root),
    ensures
        submission_outcome(ctx, root, data_hash, proof, index, timestamp) == (
            ctx,
            Err::<crate::model::WorkVerified, SwarmError>(SwarmError::InvalidProof),
        ),
{
}

/// A successful settlement keeps the sum of the two balances, taking exactly
/// the reward from the vault and giving exactly the reward to the worker.
pub proof fn lemma_conservation(
    ctx: SubmitWorkView,
    root: [u8; 32],
    data_hash: [u8; 32],
    proof: Seq<[u8; 32]>,
    index: u32,
    timestamp: i64,
)
    ensures
        ({
            let (after, r) = submission_outcome(ctx, root, data_hash, proof, index, timestamp);
            r is Ok ==> {
                &&& after.vault_balance + after.worker_balance == ctx.vault_balance + ctx.worker_balance
                &&& ctx.vault_balance - after.vault_balance == REWARD
                &&& after.worker_balance - ctx.worker_balance == REWARD
            }
        }),
{
}

/// An inactive swarm refuses every claim with `SwarmInactive`, whatever the
/// proof, and nothing changes.
pub proof fn lemma_inactive_rejected(
    ctx: SubmitWorkView,
    root: [u8; 32],
    data_hash: [u8; 32],
    proof: Seq<[u8; 32]>,
    index: u32,
    timestamp: i64,
)
    requires
        !ctx.swarm.active,
    ensures
        submission_outcome(ctx, root, data_hash, proof, index, timestamp) == (
            ctx,
            Err::<crate::model::WorkVerified, SwarmError>(SwarmError::SwarmInactive),
        ),
{
}

/// A successful settlement yields one event, naming the calling worker, the
/// submitted data hash and the given time.
pub proof fn lemma_event_matches_claim(
    ctx: SubmitWorkView,
    root: [u8; 32],
    data_hash: [u8; 32],
    proof: Seq<[u8; 32]>,
    index: u32,
    timestamp: i64,
)
    ensures
        ({
            let (_, r) = submission_outcome(ctx, root, data_hash, proof, index, timestamp);
            r matches Ok(e) ==> {
                &&& e.worker == ctx.worker
                &&& e.hash == data_hash
                &&& e.timestamp == timestamp
            }
        }),
{
}

/// A claim that passes every earlier check but finds less than the reward in
/// the vault is refused with `InsufficientVaultFunds`, and nothing changes.
pub proof fn lemma_insufficient_funds_rejected(
    ctx: SubmitWorkView,
    root: [u8; 32],
    data_hash: [u8; 32],
    proof: Seq<[u8; 32]>,
    index: u32,
    timestamp: i64,
)
    requires
        ctx.swarm.active,
        proof_accepted(ctx, root, reconstruction(data_hash, proof, index)),
        !ctx.swarm.settled.contains(data_hash),
        ctx.vault_balance < REWARD,
    ensures
        submission_outcome(ctx, root, data_hash, proof, index, timestamp) == (
            ctx,
            Err::<crate::model::WorkVerified, SwarmError>(SwarmError::InsufficientVaultFunds),
        ),
{
}

/// Once a data hash has been settled, submitting it again, with any proof
/// and at any time, is refused and changes nothing.
pub proof fn lemma_replay_rejected(
    ctx: SubmitWorkView,
    root: [u8; 32],
    data_hash: [u8; 32],
    proof: Seq<[u8; 32]>,
    index: u32,
    timestamp: i64,
    root2: [u8; 32],
    proof2: Seq<[u8; 32]>,
    index2: u32,
    timestamp2: i64,
)
    ensures
        ({
            let (after, r) = submission_outcome(ctx, root, data_hash, proof, index, timestamp);
            let (again, r2) = submission_outcome(after, root2, data_hash, proof2, index2, timestamp2);
            r is Ok ==> {
                &&& r2 is Err
                &&& again == after
                &&& proof_accepted(after, root2, reconstruction(data_hash, proof2, index2))
                    ==> r2 == Err::<crate::model::WorkVerified, SwarmError>(SwarmError::DuplicateClaim)
            }
        }),
{
    let (after, r) = submission_outcome(ctx, root, data_hash, proof, index, timestamp);
    if r is Ok {
        assert(after.swarm.settled.last() == data_hash);
        assert(after.swarm.settled.contains(data_hash));
    }
}

} // verus!
