//! Running a task after a delay.

use vstd::prelude::*;

verus! {

/// Whether a task scheduled after a delay of `delay_secs` seconds and `delay_subsec_nanos`
/// nanoseconds runs at all: a zero delay means the moment is already gone, and the task
/// is dropped.
pub fn schedule_task_runs(delay_secs: u64, delay_subsec_nanos: u32) -> (runs: bool)
    ensures
        runs == !(delay_secs == 0 && delay_subsec_nanos == 0),
{
    !(delay_secs == 0 && delay_subsec_nanos == 0)
}

} // verus!
