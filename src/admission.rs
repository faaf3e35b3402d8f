use vstd::prelude::*;
use std::sync::atomic::{AtomicU64, Ordering};
use std::sync::Arc;
use crate::globals::MAX_BOX_ID;

verus! {

/// The box id that a value of the rotating counter stands for.
pub fn box_id_from_counter(counter: u64) -> (r: u64)
    ensures
        r == counter % MAX_BOX_ID,
        r < MAX_BOX_ID,
{
    counter % MAX_BOX_ID
}

/// The next box id of the rotating allocator: the shared counter is
/// incremented and its former value taken modulo `MAX_BOX_ID`.
pub fn get_next_box_id(box_id: &Arc<AtomicU64>) -> (r: u64)
    ensures
        r < MAX_BOX_ID,
{
    let counter: &AtomicU64 = box_id;
    box_id_from_counter(counter.fetch_add(1, Ordering::SeqCst))
}

} // verus!
