//! Waiting for persistence to catch up with execution.
//!
//! The caller owns the clock and the condition variable. It asks
//! [`PersistBlockCache::wait_persist_gap`] what to do, does it, and asks again.

use vstd::prelude::*;

use super::PersistBlockCache;

verus! {

/// Nanoseconds in a millisecond.
pub const NANOS_PER_MILLI: u128 = 1_000_000;

/// What happened before the caller asks what to do.
#[derive(Clone, Copy, Debug, PartialEq, Eq, Structural)]
pub enum WaitEvent {
    /// The caller starts, or was woken, this many nanoseconds after it started.
    Awake {
        /// Nanoseconds since the start.
        elapsed_nanos: u128,
    },
    /// The time to wait ran out.
    TimedOut,
}

/// What the caller has to do next.
#[derive(Clone, Copy, Debug, PartialEq, Eq, Structural)]
pub enum WaitAction {
    /// Stop waiting, and record how long the wait took if there was one.
    Return {
        /// Whether there was a wait to record.
        record_wait: bool,
    },
    /// Wait until woken.
    Wait,
    /// Wait until woken, but no longer than this.
    WaitAtMost {
        /// Nanoseconds to wait.
        nanos: u128,
    },
}

/// The next step of a wait: `large_gap` says whether there is something to wait for, and
/// `waited` whether the caller waited before.
pub open spec fn wait_step(
    large_gap: bool,
    timeout_ms: Option<u64>,
    waited: bool,
    event: WaitEvent,
) -> WaitAction {
    match event {
        WaitEvent::TimedOut => WaitAction::Return { record_wait: true },
        WaitEvent::Awake { elapsed_nanos } => if !large_gap {
            WaitAction::Return { record_wait: waited }
        } else {
            match timeout_ms {
                None => WaitAction::Wait,
                Some(ms) => if elapsed_nanos >= ms * NANOS_PER_MILLI {
                    WaitAction::Return { record_wait: true }
                } else {
                    WaitAction::WaitAtMost { nanos: (ms * NANOS_PER_MILLI - elapsed_nanos) as u128 }
                },
            }
        },
    }
}

impl PersistBlockCache {
    /// What to do next while there is a large gap between the executed and the persisted
    /// block. Without a timeout the wait ends only when the gap has closed.
    pub fn wait_persist_gap(&self, timeout_ms: Option<u64>, waited: bool, event: WaitEvent) -> (r: WaitAction)
        ensures
            r == wait_step(self@.large_gap, timeout_ms, waited, event),
            event is TimedOut ==> r == (WaitAction::Return { record_wait: true }),
            event is Awake && !self@.large_gap ==> r == (WaitAction::Return { record_wait: waited }),
            event is Awake && self@.large_gap && timeout_ms is None ==> r is Wait,
            event is Awake && self@.large_gap && timeout_ms is Some ==> if event->elapsed_nanos
                < timeout_ms->0 * 1_000_000 {
                &&& r is WaitAtMost
                &&& event->elapsed_nanos + r->nanos == timeout_ms->0 * 1_000_000
            } else {
                r == (WaitAction::Return { record_wait: true })
            },
    {
        match event {
            WaitEvent::TimedOut => WaitAction::Return { record_wait: true },
            WaitEvent::Awake { elapsed_nanos } => {
                if !self.0.large_gap {
                    return WaitAction::Return { record_wait: waited };
                }
                match timeout_ms {
                    None => WaitAction::Wait,
                    Some(ms) => {
                        assert(ms * NANOS_PER_MILLI <= u64::MAX * 1_000_000);
                        let timeout_nanos: u128 = ms as u128 * NANOS_PER_MILLI;
                        if elapsed_nanos >= timeout_nanos {
                            WaitAction::Return { record_wait: true }
                        } else {
                            WaitAction::WaitAtMost { nanos: timeout_nanos - elapsed_nanos }
                        }
                    },
                }
            },
        }
    }
}

/// A caller never waits while the gap is small. With a timeout it never waits past it: the
/// time that went by and the time it is told to wait add up to the timeout. Without one it
/// waits as long as the gap is large.
pub proof fn law_wait_is_bounded(large_gap: bool, timeout_ms: Option<u64>, waited: bool, event: WaitEvent)
    ensures
        !large_gap ==> wait_step(large_gap, timeout_ms, waited, event) is Return,
        timeout_ms is None && event is Awake ==> (wait_step(large_gap, timeout_ms, waited, event)
            is Wait <==> large_gap),
        timeout_ms matches Some(ms) ==> {
            &&& wait_step(large_gap, timeout_ms, waited, event) !is Wait
            &&& wait_step(large_gap, timeout_ms, waited, event) matches WaitAction::WaitAtMost { nanos } ==> {
                &&& event matches WaitEvent::Awake { elapsed_nanos }
                &&& elapsed_nanos + nanos == ms * NANOS_PER_MILLI
                &&& nanos > 0
            }
        },
{
    if let Some(ms) = timeout_ms {
        assert(ms * NANOS_PER_MILLI <= u64::MAX * 1_000_000);
    }
}

/// While the gap is large, a caller that is awake waits until the timeout, whether it waited
/// before or not: as long as less than the timeout went by, it is told to wait for the rest.
/// Without a timeout it waits. It returns once the timeout is over, or the gap has closed, and
/// records a wait if there was one.
pub proof fn law_wait_lasts_until_timeout(
    large_gap: bool,
    timeout_ms: Option<u64>,
    waited: bool,
    elapsed_nanos: u128,
)
    ensures
        ({
            let step = wait_step(
                large_gap,
                timeout_ms,
                waited,
                WaitEvent::Awake { elapsed_nanos },
            );
            &&& large_gap && timeout_ms is None ==> step is Wait
            &&& large_gap && timeout_ms is Some && elapsed_nanos < timeout_ms->0 * 1_000_000 ==> {
                &&& step is WaitAtMost
                &&& step->nanos == timeout_ms->0 * 1_000_000 - elapsed_nanos
            }
            &&& large_gap && timeout_ms is Some && elapsed_nanos >= timeout_ms->0 * 1_000_000 ==> {
                &&& step is Return
                &&& step->record_wait
            }
            &&& !large_gap ==> {
                &&& step is Return
                &&& step->record_wait == waited
            }
        }),
        ({
            let step = wait_step(large_gap, timeout_ms, waited, WaitEvent::TimedOut);
            &&& step is Return
            &&& step->record_wait
        }),
{
    if let Some(ms) = timeout_ms {
        assert(ms * 1_000_000 <= u64::MAX * 1_000_000);
    }
}

/// Having waited before makes a difference only to what is recorded.
pub proof fn law_wait_does_not_depend_on_the_past(
    large_gap: bool,
    timeout_ms: Option<u64>,
    event: WaitEvent,
)
    ensures
        ({
            let first = wait_step(large_gap, timeout_ms, false, event);
            let later = wait_step(large_gap, timeout_ms, true, event);
            ||| first == later
            ||| first is Return && later is Return && !large_gap
        }),
{
}

} // verus!
