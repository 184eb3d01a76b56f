//! How a sound loop paces itself: the escalation step it has reached and the
//! pause that step calls for.
use vstd::prelude::*;

verus! {

/// Escalation steps reached after `elapsed` seconds: each wait, in turn, that
/// has fully passed.
pub open spec fn escalation_view(elapsed: nat, waits: Seq<u64>) -> nat
    decreases waits.len(),
{
    if waits.len() == 0 || waits[0] > elapsed {
        0
    } else {
        1 + escalation_view((elapsed - waits[0]) as nat, waits.drop_first())
    }
}

/// The escalation step a loop that started `elapsed` seconds ago has reached.
pub fn escalation_step(elapsed: u64, waits: &Vec<u64>) -> (r: usize)
    ensures
        r == escalation_view(elapsed as nat, waits@),
{
    let mut remaining: u64 = elapsed;
    let mut step: usize = 0;
    assert(waits@.skip(0) =~= waits@);
    while step < waits.len() && waits[step] <= remaining
        invariant
            step <= waits.len(),
            escalation_view(elapsed as nat, waits@) == step + escalation_view(
                remaining as nat,
                waits@.skip(step as int),
            ),
        decreases waits.len() - step,
    {
        assert(waits@.skip(step as int).drop_first() =~= waits@.skip(step + 1));
        remaining = remaining - waits[step];
        step = step + 1;
    }
    step
}

/// The entry of a schedule for a step: the step's own, else the last, else `fallback`.
pub open spec fn step_value_view(schedule: Seq<u64>, step: nat, fallback: u64) -> u64 {
    if step < schedule.len() {
        schedule[step as int]
    } else if schedule.len() > 0 {
        schedule.last()
    } else {
        fallback
    }
}

pub fn step_value(schedule: &Vec<u64>, step: usize, fallback: u64) -> (r: u64)
    ensures
        r == step_value_view(schedule@, step as nat, fallback),
{
    if step < schedule.len() {
        schedule[step]
    } else if schedule.len() > 0 {
        schedule[schedule.len() - 1]
    } else {
        fallback
    }
}

} // verus!
