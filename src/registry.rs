use vstd::prelude::*;
use crate::model::{Identity, SwarmError, SwarmState, SwarmView, Initialize};

verus! {

/// What a slot holds, seen through the state's view.
pub open spec fn slot_view(slot: Option<SwarmState>) -> Option<SwarmView> {
    match slot {
        Some(s) => Some(s@),
        None => None,
    }
}

/// Initializing a slot: an occupied slot is refused and kept; an empty one
/// receives an active swarm with no settled claims.
pub open spec fn init_outcome(slot: Option<SwarmView>, authority: Identity, merkle_tree: Identity)
    -> (Option<SwarmView>, Result<(), SwarmError>)
{
    match slot {
        Some(_) => (slot, Err(SwarmError::AlreadyInitialized)),
        None => (
            Some(SwarmView { authority, merkle_tree, active: true, settled: Seq::empty() }),
            Ok(()),
        ),
    }
}

/// Creates the swarm's state in an empty slot. The depth and buffer size of
/// the commitment structure are accepted and not checked against it.
pub fn initialize_swarm(ctx: &mut Initialize, _depth: u32, _buffer: u32) -> (r: Result<(), SwarmError>)
    ensures
        final(ctx).authority == old(ctx).authority,
        final(ctx).merkle_tree == old(ctx).merkle_tree,
        (slot_view(final(ctx).swarm_state), r) == init_outcome(
            slot_view(old(ctx).swarm_state),
            old(ctx).authority,
            old(ctx).merkle_tree,
        ),
{
    if ctx.swarm_state.is_some() {
        return Err(SwarmError::AlreadyInitialized);
    }
    let state = SwarmState {
        authority: ctx.authority,
        merkle_tree: ctx.merkle_tree,
        active: true,
        settled: Vec::new(),
    };
    ctx.swarm_state = Some(state);
    assert(slot_view(ctx.swarm_state)->0.settled =~= Seq::empty());
    Ok(())
}

} // verus!
