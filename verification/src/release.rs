//! The release half of the ownership-transfer protocol.
//!
//! A handle handed across the boundary stays the receiver's
//! responsibility until it is passed back to the matching release entry
//! point exactly once.  The entry points themselves keep no bookkeeping —
//! all safety is contractual — so what can be verified is the decision
//! they make (null is a safe no-op, anything else is reclaimed) and the
//! effect that decision has on the protocol state: the map from opaque
//! address tokens to the shape each live allocation was created with.

use vstd::prelude::*;

verus! {

/// The shape a handle was created with.  It is fixed at allocation time
/// and selects which release entry point matches the handle.
#[derive(Clone, Copy, Debug, PartialEq, Eq, Structural)]
pub enum HandleShape {
    /// A null-terminated text buffer.
    Text,
    /// A byte buffer whose length only the producer knows.
    Bytes,
}

/// What a release entry point tells the unverified shim to do with the
/// underlying allocation.
#[derive(Clone, Copy, Debug, PartialEq, Eq, Structural)]
pub enum ReleaseAction {
    /// Reconstruct the owning value from the pointer and destroy it.
    Reclaim,
    /// Null handle: touch nothing.
    Ignore,
}

/// The protocol state after a release: a null handle leaves the live
/// allocations untouched; a non-null handle gives up exactly its own
/// allocation.
pub open spec fn after_release(
    live: Map<u64, HandleShape>,
    handle: Option<u64>,
) -> Map<u64, HandleShape> {
    match handle {
        None => live,
        Some(addr) => live.remove(addr),
    }
}

/// The protocol state after the producer hands a fresh allocation across
/// the boundary.
pub open spec fn after_allocate(
    live: Map<u64, HandleShape>,
    addr: u64,
    shape: HandleShape,
) -> Map<u64, HandleShape> {
    live.insert(addr, shape)
}

/// Decides the fate of a text handle passed back across the boundary:
/// null is ignored, any other handle is reclaimed.
pub fn release_text(handle: Option<u64>) -> (a: ReleaseAction)
    ensures
        a == (if handle is Some {
            ReleaseAction::Reclaim
        } else {
            ReleaseAction::Ignore
        }),
{
    match handle {
        Some(_) => ReleaseAction::Reclaim,
        None => ReleaseAction::Ignore,
    }
}

/// Decides the fate of a byte-buffer handle passed back across the
/// boundary: null is ignored, any other handle is reclaimed.
pub fn release_bytes(handle: Option<u64>) -> (a: ReleaseAction)
    ensures
        a == (if handle is Some {
            ReleaseAction::Reclaim
        } else {
            ReleaseAction::Ignore
        }),
{
    match handle {
        Some(_) => ReleaseAction::Reclaim,
        None => ReleaseAction::Ignore,
    }
}

/// Law: releasing a live handle through its matching entry point removes
/// exactly that allocation — the handle itself is gone, and every other
/// live handle is still live with its shape unchanged.
pub proof fn lemma_release_removes_exactly(
    live: Map<u64, HandleShape>,
    addr: u64,
    shape: HandleShape,
)
    requires
        live.dom().contains(addr),
        live[addr] == shape,
    ensures
        !after_release(live, Some(addr)).dom().contains(addr),
        forall|other: u64|
            other != addr ==> (after_release(live, Some(addr)).dom().contains(other)
                <==> live.dom().contains(other)),
        forall|other: u64|
            other != addr && live.dom().contains(other)
                ==> after_release(live, Some(addr))[other] == live[other],
{
}

/// Law: releasing the null handle is a no-op on the protocol state.
pub proof fn lemma_release_null_is_noop(live: Map<u64, HandleShape>)
    ensures
        after_release(live, None) == live,
{
}

/// The protocol state after releasing the null handle `count` times in
/// sequence.
pub open spec fn release_null_repeated(
    live: Map<u64, HandleShape>,
    count: nat,
) -> Map<u64, HandleShape>
    decreases count,
{
    if count == 0 {
        live
    } else {
        after_release(release_null_repeated(live, (count - 1) as nat), None)
    }
}

/// Law: releasing the null handle any number of times in sequence leaves
/// the protocol state exactly as it was.
pub proof fn lemma_release_null_any_number_of_times(live: Map<u64, HandleShape>, count: nat)
    ensures
        release_null_repeated(live, count) == live,
    decreases count,
{
    if count > 0 {
        lemma_release_null_any_number_of_times(live, (count - 1) as nat);
    }
}

/// Law: handing a fresh allocation across the boundary and then releasing
/// its handle restores the protocol state: the handoff leaks nothing and
/// disturbs no other live handle.
pub proof fn lemma_handoff_round_trip(live: Map<u64, HandleShape>, addr: u64, shape: HandleShape)
    requires
        !live.dom().contains(addr),
    ensures
        after_release(after_allocate(live, addr, shape), Some(addr)) == live,
{
    assert(after_release(after_allocate(live, addr, shape), Some(addr)) =~= live);
}

} // verus!
