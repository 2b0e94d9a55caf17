//! What holds of every detector, stated over the states that the operations
//! of [`Detector`](crate::detector::Detector) are specified with.

use vstd::prelude::*;
use crate::detector::{DetectorView, ScanMode};

verus! {

/// A fresh detector of `capacity` bytes, with `capacity` above zero, holds
/// exactly that many bytes, and every index below `capacity` yields the
/// default value.
pub proof fn lemma_created_holds_default(default: u8, capacity: nat)
    requires
        capacity > 0,
    ensures
        DetectorView::created(default, capacity).mass.len() == capacity,
        DetectorView::created(default, capacity).default == default,
        forall|index: int|
            0 <= index < capacity ==> #[trigger] DetectorView::created(default, capacity).get(index)
                == Some(default),
        DetectorView::created(default, capacity).is_intact(),
{
}

/// After a reset the block is intact, whatever was written to it before.
pub proof fn lemma_reset_restores(state: DetectorView, writes: Seq<u8>)
    ensures
        state.written_in_turn(writes).reset().is_intact(),
        state.written_in_turn(writes).reset().default == state.default,
        state.written_in_turn(writes).reset().mass.len() == state.mass.len(),
    decreases writes.len(),
{
    if writes.len() > 0 {
        lemma_reset_restores(state, writes.drop_last());
    }
}

/// After a write of `value` to a block of at least one byte, the block is
/// intact exactly if `value` is the default value.
pub proof fn lemma_written_intact_iff_default(state: DetectorView, value: u8)
    requires
        state.mass.len() > 0,
    ensures
        state.written(value).is_intact() <==> value == state.default,
{
    assert(state.written(value).changed_at(0) <==> value != state.default);
}

/// A scan reports no position exactly if the block is intact, in either mode.
pub proof fn lemma_no_position_iff_intact(
    state: DetectorView,
    mode: ScanMode,
    found: Option<usize>,
)
    requires
        state.admits(mode, found),
    ensures
        found is None <==> state.is_intact(),
{
}

/// A second reset changes nothing that the first has left.
pub proof fn lemma_reset_idempotent(state: DetectorView)
    ensures
        state.reset().reset() == state.reset(),
{
    assert(state.reset().reset().mass =~= state.reset().mass);
}

/// On one state of the block a sequential scan and a parallel scan agree on
/// whether any byte has changed, though not always on which.
pub proof fn lemma_modes_agree_on_existence(
    state: DetectorView,
    sequential: Option<usize>,
    parallel: Option<usize>,
)
    requires
        state.admits(ScanMode::Sequential, sequential),
        state.admits(ScanMode::Parallel, parallel),
    ensures
        sequential is None <==> parallel is None,
        sequential matches Some(first) ==> parallel matches Some(any) && first <= any,
{
}

} // verus!
