//! Counter-drift bookkeeping: the computation behind the periodic monitor
//! that samples the hardware counter together with the host wall clock,
//! detects counter overflow across the interval, reports drift, and feeds
//! the sample into the time base.
//!
//! The periodic loop itself — the bounded wait on a shutdown signal, the
//! hardware register writes around each tick and the clock reads — is I/O
//! and lives with the caller; each tick hands the sampled values to
//! [`timesync`] as plain numbers. A register-write failure during the loop
//! is fatal to the owning process and is escalated by the caller.

use vstd::prelude::*;
use crate::timebase::{TimeBase, WRAP_US};
use crate::config::TimeStampMethod;
use vstd::arithmetic::div_mod::lemma_add_mod_noop;

verus! {

/// The previous tick's paired observation: the counter value and the host
/// wall clock, taken together.
#[derive(Copy, Clone, PartialEq, Eq, Structural, Debug)]
pub struct TimerSyncState {
    /// Counter value sampled on the previous tick.
    pub prev_concentrator_count: u32,
    /// Host wall clock of the previous tick, microseconds since the Unix
    /// epoch.
    pub prev_unix_us: u64,
}

/// Elapsed counter ticks across one monitor interval, accounting for at most
/// one wraparound by unsigned modular subtraction: a current value below the
/// previous one is read as having passed the counter's top.
pub open spec fn spec_counter_elapsed_us(prev: u32, cur: u32) -> int {
    if cur >= prev {
        cur - prev
    } else {
        cur + 0xFFFF_FFFFu32 - prev
    }
}

impl TimerSyncState {
    pub fn new(prev_concentrator_count: u32, prev_unix_us: u64) -> (r: TimerSyncState)
        ensures
            r == (TimerSyncState { prev_concentrator_count, prev_unix_us }),
    {
        TimerSyncState { prev_concentrator_count, prev_unix_us }
    }
}

/// Extrapolates the current counter value between monitor ticks: the counter
/// sampled on the previous tick, advanced by the wall-clock microseconds
/// elapsed since, with unsigned modular (wraparound-tolerant) addition.
pub fn get_concentrator_count(state: &TimerSyncState, now_us: u64) -> (r: u32)
    requires
        state.prev_unix_us <= now_us,
    ensures
        r == (state.prev_concentrator_count + (now_us - state.prev_unix_us)) % (WRAP_US as int),
{
    let diff: u64 = now_us - state.prev_unix_us;
    let r64: u64 = ((state.prev_concentrator_count as u64) + diff % WRAP_US) % WRAP_US;
    proof {
        lemma_add_mod_noop(
            state.prev_concentrator_count as int,
            (now_us - state.prev_unix_us) as int,
            WRAP_US as int,
        );
    }
    r64 as u32
}

/// One monitor tick: computes the elapsed wall time and elapsed counter
/// ticks since the previous tick, reports their difference as drift
/// (informational only), records the new paired observation, and feeds the
/// raw counter sample into the time base.
///
/// The caller samples `concentrator_count` and `now_us` together and holds
/// no lock across its hardware calls.
pub fn timesync(
    state: &mut TimerSyncState,
    tb: &mut TimeBase,
    concentrator_count: u32,
    now_us: u64,
) -> (drift_us: i64)
    requires
        old(state).prev_unix_us <= now_us,
        now_us - old(state).prev_unix_us <= i64::MAX,
        old(tb).method == TimeStampMethod::Systemtime ==> old(tb).wrap_offset_us <= u64::MAX
            - WRAP_US,
    ensures
        drift_us == (now_us - old(state).prev_unix_us) - spec_counter_elapsed_us(
            old(state).prev_concentrator_count,
            concentrator_count,
        ),
        *final(state) == (TimerSyncState {
            prev_concentrator_count: concentrator_count,
            prev_unix_us: now_us,
        }),
        old(tb).method == TimeStampMethod::Systemtime ==> *final(tb) == old(tb).spec_stepped(
            concentrator_count,
        ),
        old(tb).method == TimeStampMethod::GPS ==> *final(tb) == *old(tb),
{
    let unix_diff: u64 = now_us - state.prev_unix_us;
    let concentrator_diff: u64 = if concentrator_count >= state.prev_concentrator_count {
        (concentrator_count - state.prev_concentrator_count) as u64
    } else {
        (concentrator_count as u64) + 0xFFFF_FFFFu64 - (state.prev_concentrator_count as u64)
    };
    let drift_us: i64 = (unix_diff as i64) - (concentrator_diff as i64);

    state.prev_unix_us = now_us;
    state.prev_concentrator_count = concentrator_count;

    tb.update_counter(concentrator_count);

    drift_us
}

} // verus!
