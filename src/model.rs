use vstd::prelude::*;

verus! {

/// The fixed amount moved from the vault to the worker by one settlement.
pub const REWARD: u64 = 50_000_000;

/// An account identity (a public key), held as its 32 bytes.
#[derive(Clone, Copy, Debug)]
pub struct Identity {
    pub bytes: [u8; 32],
}

/// Why an initialization or a settlement was refused.
#[derive(Clone, Copy, Debug, PartialEq, Eq, Structural)]
pub enum SwarmError {
    AlreadyInitialized,
    SwarmInactive,
    InvalidProof,
    DuplicateClaim,
    InsufficientVaultFunds,
}

/// The persisted state of one swarm.
#[derive(Clone, Debug)]
pub struct SwarmState {
    /// Who administers the swarm; set once, at creation.
    pub authority: Identity,
    /// The commitment structure that work proofs are checked against.
    pub merkle_tree: Identity,
    /// Settlement is allowed only while this holds.
    pub active: bool,
    /// Data hashes already paid for, in the order they were settled.
    pub settled: Vec<[u8; 32]>,
}

pub struct SwarmView {
    pub authority: Identity,
    pub merkle_tree: Identity,
    pub active: bool,
    pub settled: Seq<[u8; 32]>,
}

impl View for SwarmState {
    type V = SwarmView;

    open spec fn view(&self) -> SwarmView {
        SwarmView {
            authority: self.authority,
            merkle_tree: self.merkle_tree,
            active: self.active,
            settled: self.settled@,
        }
    }
}

/// The accounts of an initialization: the slot that will hold the swarm's
/// state, the commitment structure it will be bound to, and the signer that
/// becomes its authority.
#[derive(Clone, Debug)]
pub struct Initialize {
    pub swarm_state: Option<SwarmState>,
    pub merkle_tree: Identity,
    pub authority: Identity,
}

/// The accounts of a settlement: the swarm, the signing worker and both
/// balances, with the commitment structure presented for this call and the
/// root that structure currently publishes.
#[derive(Clone, Debug)]
pub struct SubmitWork {
    pub swarm_state: SwarmState,
    pub worker: Identity,
    pub worker_balance: u64,
    pub vault_balance: u64,
    pub merkle_tree: Identity,
    pub current_root: [u8; 32],
}

pub struct SubmitWorkView {
    pub swarm: SwarmView,
    pub worker: Identity,
    pub worker_balance: nat,
    pub vault_balance: nat,
    pub merkle_tree: Identity,
    pub current_root: [u8; 32],
}

impl View for SubmitWork {
    type V = SubmitWorkView;

    open spec fn view(&self) -> SubmitWorkView {
        SubmitWorkView {
            swarm: self.swarm_state@,
            worker: self.worker,
            worker_balance: self.worker_balance as nat,
            vault_balance: self.vault_balance as nat,
            merkle_tree: self.merkle_tree,
            current_root: self.current_root,
        }
    }
}

/// The audit record of one successful settlement.
#[derive(Clone, Copy, Debug)]
pub struct WorkVerified {
    pub worker: Identity,
    pub hash: [u8; 32],
    pub timestamp: i64,
}

} // verus!
