use vstd::prelude::*;

verus! {

/// What the dispatch loop does on one pass.
#[derive(Clone, Copy, Debug, PartialEq, Eq, Structural)]
pub enum SchedulerAction {
    /// Scanning is off: read the toggle again.
    Poll,
    /// Scanning is on: wait `period_nanos`, capture a frame and hand it to a
    /// new scan without waiting for that scan to finish.
    Dispatch { period_nanos: u64 },
}

/// The configured scan rate is zero frames per second.
#[derive(Clone, Copy, Debug, PartialEq, Eq, Structural)]
pub struct ZeroRateError;

pub const NANOS_PER_SECOND: u64 = 1_000_000_000;

/// The decision of one pass of the dispatch loop.
pub open spec fn scheduler_decision(toggle_enabled: bool, check_cycles: u32) -> Result<
    SchedulerAction,
    ZeroRateError,
> {
    if !toggle_enabled {
        Ok(SchedulerAction::Poll)
    } else if check_cycles == 0 {
        Err(ZeroRateError)
    } else {
        Ok(SchedulerAction::Dispatch { period_nanos: (NANOS_PER_SECOND / check_cycles as u64) })
    }
}

/// Decides one pass of the dispatch loop from the toggle as just read: poll
/// again while it is off; otherwise wait one period of `check_cycles` per
/// second, then capture and dispatch. A rate of zero has no period.
pub fn scheduler_step(toggle_enabled: bool, check_cycles: u32) -> (r: Result<
    SchedulerAction,
    ZeroRateError,
>)
    ensures
        r == scheduler_decision(toggle_enabled, check_cycles),
        !toggle_enabled ==> r == Ok::<SchedulerAction, ZeroRateError>(SchedulerAction::Poll),
        r is Err <==> toggle_enabled && check_cycles == 0,
{
    if !toggle_enabled {
        Ok(SchedulerAction::Poll)
    } else if check_cycles == 0 {
        Err(ZeroRateError)
    } else {
        Ok(SchedulerAction::Dispatch { period_nanos: NANOS_PER_SECOND / (check_cycles as u64) })
    }
}

/// Number of scans dispatched over a run of passes that read the toggle as
/// `samples`.
pub open spec fn dispatch_count(samples: Seq<bool>, check_cycles: u32) -> nat
    decreases samples.len(),
{
    if samples.len() == 0 {
        0
    } else {
        dispatch_count(samples.drop_last(), check_cycles) + if scheduler_decision(
            samples.last(),
            check_cycles,
        ) is Ok && scheduler_decision(samples.last(), check_cycles)->Ok_0 is Dispatch {
            1nat
        } else {
            0nat
        }
    }
}

/// While the toggle stays off, no scan is ever dispatched, however many
/// passes the loop makes.
pub proof fn lemma_disabled_never_dispatches(samples: Seq<bool>, check_cycles: u32)
    requires
        forall|i: int| 0 <= i < samples.len() ==> !#[trigger] samples[i],
    ensures
        dispatch_count(samples, check_cycles) == 0,
    decreases samples.len(),
{
    if samples.len() > 0 {
        lemma_disabled_never_dispatches(samples.drop_last(), check_cycles);
    }
}

} // verus!
