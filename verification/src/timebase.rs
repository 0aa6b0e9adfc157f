//! The canonical time anchor: converts 32-bit hardware counter values into
//! absolute wall-clock timestamps and GPS-epoch durations, with
//! wraparound-safe bookkeeping.
//!
//! Two clock sources are supported. Under `GPS` the collaborator's own
//! counter-to-time mapping is authoritative: its result is passed in as a
//! plain value and handed through, and no independent wraparound bookkeeping
//! is performed. Under `Systemtime` the anchor captured at startup advances
//! by one full counter period on every observed wraparound, and the timezone
//! offset is applied to wall-clock timestamps (only there: GPS-epoch
//! durations are absolute and carry no timezone adjustment). Computing a
//! timestamp never updates the bookkeeping; feeding a sample is the separate,
//! explicit `update_counter` call.

use vstd::prelude::*;
use crate::config::{TimeStampMethod, TimeZone};
use crate::TimeError;

verus! {

/// One full period of the 32-bit microsecond counter, in microseconds.
pub const WRAP_US: u64 = 0x1_0000_0000;

/// The GPS epoch expressed in seconds since the Unix epoch (leap seconds
/// not applied).
pub const GPS_UNIX_OFFSET_SECS: u64 = 315_964_800;

/// The GPS epoch expressed in microseconds since the Unix epoch.
pub const GPS_UNIX_OFFSET_US: u64 = 315_964_800_000_000;

/// An absolute wall-clock instant: seconds since the Unix epoch plus a
/// sub-second remainder in nanoseconds.
#[derive(Copy, Clone, PartialEq, Eq, Structural, Debug)]
pub struct Timestamp {
    pub seconds: i64,
    pub nanos: i32,
}

/// A duration as carried by the wire protocol: whole seconds plus a
/// sub-second remainder in nanoseconds.
#[derive(Copy, Clone, PartialEq, Eq, Structural, Debug)]
pub struct ProtoDuration {
    pub seconds: i64,
    pub nanos: i32,
}

/// The instant `us` microseconds after the Unix epoch, split into seconds
/// and nanoseconds. Meaningful for 0 <= us <= u64::MAX.
pub open spec fn timestamp_of_us(us: int) -> Timestamp {
    Timestamp { seconds: (us / 1_000_000) as i64, nanos: ((us % 1_000_000) * 1000) as i32 }
}

/// The duration of `us` microseconds, split into seconds and nanoseconds.
pub open spec fn duration_of_us(us: int) -> ProtoDuration {
    ProtoDuration { seconds: (us / 1_000_000) as i64, nanos: ((us % 1_000_000) * 1000) as i32 }
}

/// The time anchor and its counter bookkeeping. The three mutable parts
/// (anchor base, accumulated wraparound offset, last-seen counter) form one
/// invariant group: callers that share a TimeBase across threads must update
/// it as a whole under a single mutual-exclusion domain.
#[derive(Copy, Clone, PartialEq, Eq, Structural, Debug)]
pub struct TimeBase {
    /// Clock source selected at startup; never mutated afterwards.
    pub method: TimeStampMethod,
    /// Timezone offset, applied to wall-clock timestamps under `Systemtime`.
    pub timezone: TimeZone,
    /// Anchor base: the wall-clock instant captured at startup, in
    /// microseconds since the Unix epoch.
    pub start_us: u64,
    /// Accumulated wraparound offset: one full counter period for each
    /// observed overflow.
    pub wrap_offset_us: u64,
    /// The counter value seen by the most recent sample.
    pub prev_counter: u32,
}

impl TimeBase {
    pub open spec fn wf(self) -> bool {
        self.timezone.wf()
    }

    /// Microseconds since the Unix epoch of the instant `counter` denotes,
    /// before the timezone adjustment.
    pub open spec fn base_total_us(self, counter: u32) -> int {
        self.start_us + self.wrap_offset_us + counter
    }

    /// Microseconds since the Unix epoch of the instant `counter` denotes,
    /// with the timezone adjustment applied.
    pub open spec fn local_total_us(self, counter: u32) -> int {
        self.base_total_us(counter) + self.timezone.spec_offset_us()
    }

    /// Microseconds since the GPS epoch of the instant `counter` denotes.
    pub open spec fn epoch_total_us(self, counter: u32) -> int {
        self.base_total_us(counter) - GPS_UNIX_OFFSET_US
    }

    /// The machine limits under which the `Systemtime` timestamp computation
    /// is exact: no intermediate sum leaves u64 and the adjusted instant is
    /// not before the Unix epoch.
    pub open spec fn timestamp_in_range(self, counter: u32) -> bool {
        &&& self.base_total_us(counter) <= u64::MAX
        &&& 0 <= self.local_total_us(counter)
        &&& self.local_total_us(counter) <= u64::MAX
    }

    /// The machine limits under which the `Systemtime` GPS-epoch computation
    /// is exact: the instant is not before the GPS epoch.
    pub open spec fn epoch_in_range(self, counter: u32) -> bool {
        &&& self.base_total_us(counter) <= u64::MAX
        &&& 0 <= self.epoch_total_us(counter)
    }

    /// Records the clock mode and timezone and captures the current
    /// wall-clock instant as the anchor base. The caller reads the host
    /// clock and passes it as microseconds since the Unix epoch.
    pub fn start(method: TimeStampMethod, timezone: TimeZone, now_us: u64) -> (tb: TimeBase)
        requires
            timezone.wf(),
        ensures
            tb == (TimeBase {
                method,
                timezone,
                start_us: now_us,
                wrap_offset_us: 0,
                prev_counter: 0,
            }),
            tb.wf(),
    {
        TimeBase { method, timezone, start_us: now_us, wrap_offset_us: 0, prev_counter: 0 }
    }

    /// The state after one counter sample: a numerically smaller value than
    /// the last-seen counter is exactly one overflow event and advances the
    /// wraparound offset by one full counter period; the last-seen counter
    /// is set unconditionally.
    pub open spec fn spec_stepped(self, counter: u32) -> TimeBase {
        TimeBase {
            wrap_offset_us: if counter < self.prev_counter {
                (self.wrap_offset_us + WRAP_US) as u64
            } else {
                self.wrap_offset_us
            },
            prev_counter: counter,
            ..self
        }
    }

    /// Unconditional wraparound bookkeeping for one counter sample.
    fn update_counter_internal(&mut self, counter: u32)
        requires
            old(self).wrap_offset_us <= u64::MAX - WRAP_US,
        ensures
            *final(self) == old(self).spec_stepped(counter),
    {
        if counter < self.prev_counter {
            self.wrap_offset_us = self.wrap_offset_us + WRAP_US;
        }
        self.prev_counter = counter;
    }

    /// Feeds one counter sample. Under `Systemtime` this performs the
    /// wraparound bookkeeping; under `GPS` the collaborator owns the
    /// counter-to-time mapping and the sample is ignored.
    pub fn update_counter(&mut self, counter: u32)
        requires
            old(self).method == TimeStampMethod::Systemtime ==> old(self).wrap_offset_us
                <= u64::MAX - WRAP_US,
        ensures
            old(self).method == TimeStampMethod::Systemtime ==> *final(self) == old(
                self,
            ).spec_stepped(counter),
            old(self).method == TimeStampMethod::GPS ==> *final(self) == *old(self),
    {
        match self.method {
            TimeStampMethod::Systemtime => self.update_counter_internal(counter),
            TimeStampMethod::GPS => (),
        }
    }

    /// Converts a counter value to an absolute wall-clock timestamp.
    ///
    /// Under `GPS` the collaborator's counter-to-time result is passed in as
    /// `gps_time`; `None` means no fix or lock, the one failure case. Under
    /// `Systemtime` the call never fails: the result is the anchor base plus
    /// the accumulated wraparound offset plus the counter, adjusted by the
    /// timezone offset.
    pub fn calculate_timestamp(&self, counter: u32, gps_time: Option<Timestamp>) -> (r: Result<
        Timestamp,
        TimeError,
    >)
        requires
            self.wf(),
            self.method == TimeStampMethod::Systemtime ==> self.timestamp_in_range(counter),
        ensures
            self.method == TimeStampMethod::GPS ==> r == (match gps_time {
                Some(t) => Ok::<Timestamp, TimeError>(t),
                None => Err::<Timestamp, TimeError>(TimeError::TimeUnavailable),
            }),
            self.method == TimeStampMethod::Systemtime ==> r == Ok::<Timestamp, TimeError>(
                timestamp_of_us(self.local_total_us(counter)),
            ),
    {
        match self.method {
            TimeStampMethod::GPS => match gps_time {
                Some(t) => Ok(t),
                None => Err(TimeError::TimeUnavailable),
            },
            TimeStampMethod::Systemtime => {
                let base: u64 = self.start_us + self.wrap_offset_us + (counter as u64);
                let off: u64 = ((self.timezone.hours as u64) * 60 + (self.timezone.minutes as u64))
                    * 60_000_000;
                let total: u64 = if self.timezone.negative {
                    base - off
                } else {
                    base + off
                };
                let seconds: u64 = total / 1_000_000;
                let nanos: u64 = (total % 1_000_000) * 1000;
                Ok(Timestamp { seconds: seconds as i64, nanos: nanos as i32 })
            },
        }
    }

    /// Converts a counter value to a duration since the GPS epoch.
    ///
    /// Under `GPS` the collaborator's counter-to-epoch result is passed in
    /// as `gps_epoch`; `None` means no fix or lock. Under `Systemtime` the
    /// call never fails: the result is the instant the counter denotes,
    /// relative to the GPS epoch, with no timezone adjustment.
    pub fn calculate_epochtime(&self, counter: u32, gps_epoch: Option<ProtoDuration>) -> (r: Result<
        ProtoDuration,
        TimeError,
    >)
        requires
            self.wf(),
            self.method == TimeStampMethod::Systemtime ==> self.epoch_in_range(counter),
        ensures
            self.method == TimeStampMethod::GPS ==> r == (match gps_epoch {
                Some(d) => Ok::<ProtoDuration, TimeError>(d),
                None => Err::<ProtoDuration, TimeError>(TimeError::TimeUnavailable),
            }),
            self.method == TimeStampMethod::Systemtime ==> r == Ok::<ProtoDuration, TimeError>(
                duration_of_us(self.epoch_total_us(counter)),
            ),
    {
        match self.method {
            TimeStampMethod::GPS => match gps_epoch {
                Some(d) => Ok(d),
                None => Err(TimeError::TimeUnavailable),
            },
            TimeStampMethod::Systemtime => {
                let base: u64 = self.start_us + self.wrap_offset_us + (counter as u64);
                let total: u64 = base - GPS_UNIX_OFFSET_US;
                let seconds: u64 = total / 1_000_000;
                let nanos: u64 = (total % 1_000_000) * 1000;
                Ok(ProtoDuration { seconds: seconds as i64, nanos: nanos as i32 })
            },
        }
    }
}

/// Law: one bookkeeping step never regresses the computed absolute time.
/// Reading the last-seen counter before the step and the new counter after
/// it, the second instant is at or after the first, whether or not the step
/// committed a wraparound.
pub proof fn lemma_step_monotonic(st: TimeBase, next: u32)
    requires
        st.wrap_offset_us + WRAP_US <= u64::MAX,
    ensures
        st.local_total_us(st.prev_counter) <= st.spec_stepped(next).local_total_us(next),
{
}

/// The state after feeding a whole sequence of counter samples in process
/// order.
pub open spec fn spec_fed(tb: TimeBase, samples: Seq<u32>) -> TimeBase
    decreases samples.len(),
{
    if samples.len() == 0 {
        tb
    } else {
        spec_fed(tb, samples.drop_last()).spec_stepped(samples.last())
    }
}

/// Feeding samples changes only the wraparound offset and the last-seen
/// counter; the offset grows by at most one counter period per sample.
pub proof fn lemma_fed_frame(tb: TimeBase, samples: Seq<u32>)
    requires
        tb.wrap_offset_us + samples.len() * WRAP_US <= u64::MAX,
    ensures
        spec_fed(tb, samples).method == tb.method,
        spec_fed(tb, samples).timezone == tb.timezone,
        spec_fed(tb, samples).start_us == tb.start_us,
        spec_fed(tb, samples).wrap_offset_us <= tb.wrap_offset_us + samples.len() * WRAP_US,
        samples.len() > 0 ==> spec_fed(tb, samples).prev_counter == samples.last(),
    decreases samples.len(),
{
    if samples.len() > 0 {
        assert(samples.drop_last().len() * WRAP_US <= samples.len() * WRAP_US) by (nonlinear_arith)
            requires samples.drop_last().len() == samples.len() - 1, samples.len() >= 1,
        ;
        lemma_fed_frame(tb, samples.drop_last());
    }
}

/// Law: for any sequence of counter samples fed to the time base in process
/// order, the computed absolute timestamps are monotonically non-decreasing,
/// each sample's timestamp being read once its bookkeeping step is applied.
pub proof fn lemma_timestamps_monotonic(tb: TimeBase, samples: Seq<u32>, i: int, j: int)
    requires
        0 <= i <= j < samples.len(),
        tb.wrap_offset_us + samples.len() * WRAP_US <= u64::MAX,
    ensures
        spec_fed(tb, samples.take(i + 1)).local_total_us(samples[i]) <= spec_fed(
            tb,
            samples.take(j + 1),
        ).local_total_us(samples[j]),
    decreases j - i,
{
    if i < j {
        lemma_timestamps_monotonic(tb, samples, i, j - 1);
        let prefix = samples.take(j);
        assert(samples.take(j + 1).drop_last() =~= prefix);
        assert(samples.take(j + 1).last() == samples[j]);
        let st = spec_fed(tb, prefix);
        assert(prefix.len() * WRAP_US <= samples.len() * WRAP_US) by (nonlinear_arith)
            requires prefix.len() <= samples.len(), WRAP_US >= 0,
        ;
        lemma_fed_frame(tb, prefix);
        assert(st.prev_counter == samples[j - 1]) by {
            assert(prefix.last() == samples[j - 1]);
        }
        lemma_step_monotonic(st, samples[j]);
        assert(spec_fed(tb, samples.take(j + 1)) == st.spec_stepped(samples[j]));
    } else {
        assert(samples.take(i + 1) =~= samples.take(j + 1));
    }
}

/// Law: immediately after startup in system-clock mode with the zero
/// timezone offset, counter value zero maps to the recorded start instant.
pub proof fn lemma_timestamp_at_start(tb: TimeBase)
    requires
        tb.wrap_offset_us == 0,
        tb.timezone == TimeZone::spec_zero(),
    ensures
        tb.local_total_us(0) == tb.start_us,
{
}

} // verus!
