//! The cloud-assistant bridge.
use vstd::prelude::*;

verus! {

/// Hand a recognised intent to the assistant pipeline.  The pipeline is not
/// connected on this board: every intent is accepted with status 0.
pub fn dispatch_intent(intent: &str) -> (status: i32)
    ensures
        status == 0,
{
    0
}

} // verus!
