//! Proof-gated reward settlement for swarms of off-chain workers.
//!
//! A swarm binds an administering authority to a Merkle commitment structure.
//! A worker claims a unit of work by presenting its data hash with an inclusion
//! proof; only a proof that rebuilds the structure's published root, for a hash
//! not settled before, moves the fixed reward from the vault to the worker.
mod model;
mod merkle;
mod registry;
mod settlement;
mod laws;

pub use model::{
    Identity, SwarmError, SwarmState, SwarmView, Initialize, SubmitWork, SubmitWorkView,
    WorkVerified, REWARD,
};
pub use merkle::{merkle_root_of, same_hash, contains_hash, MAX_PROOF_DEPTH};
pub use registry::{initialize_swarm, init_outcome, slot_view};
pub use settlement::{
    settle, submit_work_proof, settle_outcome, submission_outcome, proof_accepted,
    reconstruction,
};
pub use laws::{
    lemma_initialize_twice_rejected, lemma_invalid_proof_rejected, lemma_conservation,
    lemma_inactive_rejected, lemma_event_matches_claim, lemma_insufficient_funds_rejected,
    lemma_replay_rejected,
};
