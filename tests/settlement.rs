#![allow(deprecated)]

use anchor_lang::solana_program::keccak::hashv;
use myrmidon::{settle, submit_work_proof, Identity, SubmitWork, SwarmError, SwarmState, REWARD};

const WORKER: [u8; 32] = [1u8; 32];
const TREE: [u8; 32] = [2u8; 32];
const H: [u8; 32] = [7u8; 32];

fn context(vault: u64, worker: u64, current_root: [u8; 32]) -> SubmitWork {
    SubmitWork {
        swarm_state: SwarmState {
            authority: Identity { bytes: [3u8; 32] },
            merkle_tree: Identity { bytes: TREE },
            active: true,
            settled: Vec::new(),
        },
        worker: Identity { bytes: WORKER },
        worker_balance: worker,
        vault_balance: vault,
        merkle_tree: Identity { bytes: TREE },
        current_root,
    }
}

fn unchanged(ctx: &SubmitWork, vault: u64, worker: u64) {
    assert_eq!(ctx.vault_balance, vault);
    assert_eq!(ctx.worker_balance, worker);
    assert!(ctx.swarm_state.settled.is_empty());
    assert!(ctx.swarm_state.active);
}

#[test]
fn reward_constant_value() {
    assert_eq!(REWARD, 50_000_000);
}

#[test]
fn valid_claim_pays_once_then_replay_rejected() {
    // An empty proof rebuilds the leaf itself: the tree holds one leaf, H.
    let mut ctx = context(100_000_000, 0, H);
    let event = submit_work_proof(&mut ctx, H, H, Vec::new(), 0, 1_700_000_000).unwrap();
    assert_eq!(ctx.vault_balance, 50_000_000);
    assert_eq!(ctx.worker_balance, 50_000_000);
    assert_eq!(event.worker.bytes, WORKER);
    assert_eq!(event.hash, H);
    assert_eq!(event.timestamp, 1_700_000_000);
    assert_eq!(ctx.swarm_state.settled, vec![H]);

    let again = submit_work_proof(&mut ctx, H, H, Vec::new(), 0, 1_700_000_001);
    assert_eq!(again.unwrap_err(), SwarmError::DuplicateClaim);
    assert_eq!(ctx.vault_balance, 50_000_000);
    assert_eq!(ctx.worker_balance, 50_000_000);
    assert_eq!(ctx.swarm_state.settled, vec![H]);
}

#[test]
fn balances_are_conserved() {
    let mut ctx = context(123_456_789, 42, H);
    submit_work_proof(&mut ctx, H, H, Vec::new(), 0, 5).unwrap();
    assert_eq!(ctx.vault_balance + ctx.worker_balance, 123_456_789 + 42);
    assert_eq!(ctx.vault_balance, 123_456_789 - REWARD);
    assert_eq!(ctx.worker_balance, 42 + REWARD);
}

#[test]
fn one_level_proof_hashes_leaf_with_sibling() {
    let sibling = [9u8; 32];
    let left = hashv(&[&H, &sibling]).to_bytes();
    let right = hashv(&[&sibling, &H]).to_bytes();
    assert_ne!(left, H);

    let mut ctx = context(100_000_000, 0, left);
    let event = submit_work_proof(&mut ctx, left, H, vec![sibling], 0, 7).unwrap();
    assert_eq!(event.hash, H);

    let mut ctx = context(100_000_000, 0, right);
    assert!(submit_work_proof(&mut ctx, right, H, vec![sibling], 1, 7).is_ok());

    // The leaf sits on the left at index 0, so the right-hand root is not rebuilt.
    let mut ctx = context(100_000_000, 0, right);
    let r = submit_work_proof(&mut ctx, right, H, vec![sibling], 0, 7);
    assert_eq!(r.unwrap_err(), SwarmError::InvalidProof);
    unchanged(&ctx, 100_000_000, 0);
}

#[test]
fn proof_not_rebuilding_root_is_rejected() {
    let other = [5u8; 32];
    let mut ctx = context(100_000_000, 10, other);
    let r = submit_work_proof(&mut ctx, other, H, Vec::new(), 0, 1);
    assert_eq!(r.unwrap_err(), SwarmError::InvalidProof);
    unchanged(&ctx, 100_000_000, 10);
}

#[test]
fn stale_root_is_rejected() {
    // The proof rebuilds the claimed root, but the structure publishes another.
    let mut ctx = context(100_000_000, 0, [5u8; 32]);
    let r = submit_work_proof(&mut ctx, H, H, Vec::new(), 0, 1);
    assert_eq!(r.unwrap_err(), SwarmError::InvalidProof);
    unchanged(&ctx, 100_000_000, 0);
}

#[test]
fn foreign_structure_is_rejected() {
    let mut ctx = context(100_000_000, 0, H);
    ctx.merkle_tree = Identity { bytes: [4u8; 32] };
    let r = submit_work_proof(&mut ctx, H, H, Vec::new(), 0, 1);
    assert_eq!(r.unwrap_err(), SwarmError::InvalidProof);
    unchanged(&ctx, 100_000_000, 0);
}

#[test]
fn too_deep_proof_is_rejected() {
    let mut ctx = context(100_000_000, 0, H);
    let r = submit_work_proof(&mut ctx, H, H, vec![[0u8; 32]; 33], 0, 1);
    assert_eq!(r.unwrap_err(), SwarmError::InvalidProof);
    unchanged(&ctx, 100_000_000, 0);
}

#[test]
fn inactive_swarm_is_rejected_even_with_valid_proof() {
    let mut ctx = context(100_000_000, 0, H);
    ctx.swarm_state.active = false;
    let r = submit_work_proof(&mut ctx, H, H, Vec::new(), 0, 1);
    assert_eq!(r.unwrap_err(), SwarmError::SwarmInactive);
    assert_eq!(ctx.vault_balance, 100_000_000);
    assert_eq!(ctx.worker_balance, 0);
    assert!(!ctx.swarm_state.active);
}

#[test]
fn insufficient_vault_is_rejected() {
    let mut ctx = context(REWARD - 1, 3, H);
    let r = submit_work_proof(&mut ctx, H, H, Vec::new(), 0, 1);
    assert_eq!(r.unwrap_err(), SwarmError::InsufficientVaultFunds);
    unchanged(&ctx, REWARD - 1, 3);
}

#[test]
fn vault_holding_exactly_the_reward_pays() {
    let mut ctx = context(REWARD, 0, H);
    assert!(submit_work_proof(&mut ctx, H, H, Vec::new(), 0, 1).is_ok());
    assert_eq!(ctx.vault_balance, 0);
    assert_eq!(ctx.worker_balance, REWARD);
}

#[test]
fn settle_takes_rebuilt_root() {
    let mut ctx = context(100_000_000, 0, H);
    let r = settle(&mut ctx, H, None, H, 1);
    assert_eq!(r.unwrap_err(), SwarmError::InvalidProof);
    let r = settle(&mut ctx, H, Some([6u8; 32]), H, 1);
    assert_eq!(r.unwrap_err(), SwarmError::InvalidProof);
    unchanged(&ctx, 100_000_000, 0);
    assert!(settle(&mut ctx, H, Some(H), H, 1).is_ok());
    assert_eq!(ctx.vault_balance, 50_000_000);
}
