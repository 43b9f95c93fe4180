use vstd::prelude::*;
use crate::model::{SwarmError, SwarmView, SubmitWork, SubmitWorkView, WorkVerified, REWARD};
use crate::merkle::{merkle_root_of, recompute_root, same_hash, contains_hash, MAX_PROOF_DEPTH};

verus! {

/// The root that `proof` rebuilds from `leaf`, or `None` where the proof is
/// too deep to be folded.
pub open spec fn reconstruction(leaf: [u8; 32], proof: Seq<[u8; 32]>, index: u32) -> Option<[u8; 32]> {
    if proof.len() <= MAX_PROOF_DEPTH {
        Some(merkle_root_of(leaf, proof, index))
    } else {
        None
    }
}

/// A claim passes verification when it is checked against the swarm's own
/// commitment structure, its proof rebuilds the claimed root, and that root is
/// the one the structure currently publishes.
pub open spec fn proof_accepted(ctx: SubmitWorkView, root: [u8; 32], rebuilt: Option<[u8; 32]>) -> bool {
    &&& ctx.merkle_tree == ctx.swarm.merkle_tree
    &&& rebuilt == Some(root)
    &&& root == ctx.current_root
}

/// One settlement, given the root that the proof rebuilds. The checks come in
/// this order: the swarm is active, the proof passes, the data hash was not
/// settled before, the vault covers the reward. A refused call changes nothing;
/// an accepted one moves the reward, records the hash and yields the event.
pub open spec fn settle_outcome(
    ctx: SubmitWorkView,
    root: [u8; 32],
    rebuilt: Option<[u8; 32]>,
    data_hash: [u8; 32],
    timestamp: i64,
) -> (SubmitWorkView, Result<WorkVerified, SwarmError>) {
    if !ctx.swarm.active {
        (ctx, Err(SwarmError::SwarmInactive))
    } else if !proof_accepted(ctx, root, rebuilt) {
        (ctx, Err(SwarmError::InvalidProof))
    } else if ctx.swarm.settled.contains(data_hash) {
        (ctx, Err(SwarmError::DuplicateClaim))
    } else if ctx.vault_balance < REWARD {
        (ctx, Err(SwarmError::InsufficientVaultFunds))
    } else {
        (
            SubmitWorkView {
                swarm: SwarmView { settled: ctx.swarm.settled.push(data_hash), ..ctx.swarm },
                vault_balance: (ctx.vault_balance - REWARD) as nat,
                worker_balance: ctx.worker_balance + REWARD as nat,
                ..ctx
            },
            Ok(WorkVerified { worker: ctx.worker, hash: data_hash, timestamp }),
        )
    }
}

/// One settlement of a claim `(root, data_hash, proof)` for the leaf at `index`.
pub open spec fn submission_outcome(
    ctx: SubmitWorkView,
    root: [u8; 32],
    data_hash: [u8; 32],
    proof: Seq<[u8; 32]>,
    index: u32,
    timestamp: i64,
) -> (SubmitWorkView, Result<WorkVerified, SwarmError>) {
    settle_outcome(ctx, root, reconstruction(data_hash, proof, index), data_hash, timestamp)
}

/// Settles a claim whose proof has already been folded into `rebuilt`.
pub fn settle(
    ctx: &mut SubmitWork,
    root: [u8; 32],
    rebuilt: Option<[u8; 32]>,
    data_hash: [u8; 32],
    timestamp: i64,
) -> (r: Result<WorkVerified, SwarmError>)
    requires
        old(ctx).worker_balance + REWARD <= u64::MAX,
    ensures
        (final(ctx)@, r) == settle_outcome(old(ctx)@, root, rebuilt, data_hash, timestamp),
{
    if !ctx.swarm_state.active {
        return Err(SwarmError::SwarmInactive);
    }
    let rebuilds = match rebuilt {
        Some(r) => same_hash(&r, &root),
        None => false,
    };
    let accepted = same_hash(&ctx.merkle_tree.bytes, &ctx.swarm_state.merkle_tree.bytes)
        && rebuilds && same_hash(&root, &ctx.current_root);
    if !accepted {
        return Err(SwarmError::InvalidProof);
    }
    if contains_hash(&ctx.swarm_state.settled, &data_hash) {
        return Err(SwarmError::DuplicateClaim);
    }
    match ctx.vault_balance.checked_sub(REWARD) {
        None => Err(SwarmError::InsufficientVaultFunds),
        Some(vault) => {
            ctx.vault_balance = vault;
            ctx.worker_balance = ctx.worker_balance + REWARD;
            ctx.swarm_state.settled.push(data_hash);
            Ok(WorkVerified { worker: ctx.worker, hash: data_hash, timestamp })
        },
    }
}

/// Verifies a work claim against the swarm's commitment structure and, if it
/// holds, pays the reward and returns the settlement's event.
pub fn submit_work_proof(
    ctx: &mut SubmitWork,
    root: [u8; 32],
    data_hash: [u8; 32],
    proof: Vec<[u8; 32]>,
    index: u32,
    timestamp: i64,
) -> (r: Result<WorkVerified, SwarmError>)
    requires
        old(ctx).worker_balance + REWARD <= u64::MAX,
    ensures
        (final(ctx)@, r) == submission_outcome(old(ctx)@, root, data_hash, proof@, index, timestamp),
{
    let rebuilt = if proof.len() <= MAX_PROOF_DEPTH {
        Some(recompute_root(data_hash, &proof, index))
    } else {
        None
    };
    settle(ctx, root, rebuilt, data_hash, timestamp)
}

} // verus!
