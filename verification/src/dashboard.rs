//! The statistics aggregator: counters that the pipeline raises for every
//! batch, a once-a-second refresh of the derived figures, and the snapshot
//! that the dashboard serves.
//!
//! The aggregator is a plain value. Whoever shares it between tasks guards
//! it; every operation here takes it by exclusive or shared reference and is
//! a function of the old value, the clock reading and the memory sample.

use vstd::prelude::*;

verus! {

/// Nanoseconds in one second.
pub const NANOS_PER_SEC: u32 = 1_000_000_000;

/// Largest distance, in seconds, of a timestamp from the epoch. Differences
/// of two timestamps then fit in 64 bits.
pub const MAX_TIMESTAMP_SECS: i64 = 0x3fff_ffff_ffff_ffff;

/// Length of the rolling window of the message rate, in seconds.
pub const WINDOW_SECONDS: i64 = 60;

/// A reading of the wall clock: seconds since the Unix epoch and the
/// nanoseconds into that second.
#[derive(Clone, Copy, Debug, PartialEq, Eq, Structural)]
pub struct Timestamp {
    pub secs: i64,
    pub nanos: u32,
}

impl Timestamp {
    /// The fields are in range.
    pub open spec fn wf(self) -> bool {
        &&& -MAX_TIMESTAMP_SECS <= self.secs <= MAX_TIMESTAMP_SECS
        &&& self.nanos < NANOS_PER_SEC
    }

    /// The instant as nanoseconds since the epoch.
    pub open spec fn as_nanos(self) -> int {
        self.secs * NANOS_PER_SEC + self.nanos
    }

    /// Checks the ranges at run time, for values that come from outside.
    pub fn is_well_formed(&self) -> (ok: bool)
        ensures
            ok == self.wf(),
    {
        -MAX_TIMESTAMP_SECS <= self.secs && self.secs <= MAX_TIMESTAMP_SECS && self.nanos
            < NANOS_PER_SEC
    }

    /// Makes a timestamp, if the fields are in range.
    pub fn new(secs: i64, nanos: u32) -> (made: Option<Timestamp>)
        ensures
            made == if (Timestamp { secs, nanos }).wf() {
                Some(Timestamp { secs, nanos })
            } else {
                None
            },
    {
        if -MAX_TIMESTAMP_SECS <= secs && secs <= MAX_TIMESTAMP_SECS && nanos < NANOS_PER_SEC {
            Some(Timestamp { secs, nanos })
        } else {
            None
        }
    }

    /// Whole seconds from `earlier` to `self`.
    pub fn seconds_since(&self, earlier: &Timestamp) -> (seconds: i64)
        requires
            self.wf(),
            earlier.wf(),
        ensures
            seconds == whole_seconds(*earlier, *self),
    {
        let mut secs: i64 = self.secs - earlier.secs;
        let nanos: u32;
        if self.nanos >= earlier.nanos {
            nanos = self.nanos - earlier.nanos;
        } else {
            secs = secs - 1;
            nanos = self.nanos + (NANOS_PER_SEC - earlier.nanos);
        }
        assert(later_minus(*earlier, *self) == secs * NANOS_PER_SEC + nanos);
        if secs < 0 && nanos > 0 {
            secs + 1
        } else {
            secs
        }
    }
}

/// Nanoseconds from `earlier` to `later`; negative when `later` is the
/// earlier of the two.
pub open spec fn later_minus(earlier: Timestamp, later: Timestamp) -> int {
    later.as_nanos() - earlier.as_nanos()
}

/// Whole seconds from `earlier` to `later`, rounded towards zero.
pub open spec fn whole_seconds(earlier: Timestamp, later: Timestamp) -> int {
    let nanos = later_minus(earlier, later);
    if nanos >= 0 {
        nanos / (NANOS_PER_SEC as int)
    } else {
        -((-nanos) / (NANOS_PER_SEC as int))
    }
}

/// The aggregator's state, which is also the snapshot handed to readers.
#[derive(Clone, Copy, Debug, PartialEq, Eq)]
pub struct Stats {
    /// Messages counted since the process started.
    pub total_messages: u64,
    /// Messages counted in the last completed window.
    pub messages_per_minute: u64,
    /// When the latest batch was counted.
    pub last_message_time: Option<Timestamp>,
    /// Whole seconds from the start to the latest refresh.
    pub uptime_seconds: u64,
    /// When the aggregator was made.
    pub start_time: Timestamp,
    /// Resident memory of the process at the latest refresh, in bytes.
    pub memory_usage_bytes: u64,
    /// Largest resident memory seen at any refresh, in bytes.
    pub memory_peak_bytes: u64,
    /// Messages counted in the window that is still open.
    pub last_minute_messages: u64,
    /// When the open window began.
    pub last_minute_start: Timestamp,
}

/// Current and peak memory after a sample was asked for: a missing sample
/// reads as zero and leaves the peak alone, a present one can only raise it.
pub open spec fn memory_after(sample: Option<u64>, current_peak: u64) -> (u64, u64) {
    match sample {
        Some(bytes) => (
            bytes,
            if bytes > current_peak {
                bytes
            } else {
                current_peak
            },
        ),
        None => (0, current_peak),
    }
}

/// Current and peak memory usage, in bytes, given the latest sample of the
/// process's resident memory.
pub fn get_memory_usage(sample: Option<u64>, current_peak: u64) -> (usage: (u64, u64))
    ensures
        usage == memory_after(sample, current_peak),
        usage.0 <= usage.1,
        usage.1 >= current_peak,
{
    match sample {
        Some(bytes) => {
            let peak: u64 = if bytes > current_peak {
                bytes
            } else {
                current_peak
            };
            (bytes, peak)
        },
        None => (0, current_peak),
    }
}

impl Stats {
    /// The counters are consistent with each other and the timestamps are in
    /// range.
    pub open spec fn wf(self) -> bool {
        &&& self.last_minute_messages <= self.total_messages
        &&& self.messages_per_minute <= self.total_messages
        &&& self.memory_usage_bytes <= self.memory_peak_bytes
        &&& self.start_time.wf()
        &&& self.last_minute_start.wf()
        &&& self.last_message_time matches Some(t) ==> t.wf()
    }

    /// The state after a batch of `message_count` messages was counted at `now`.
    pub open spec fn recorded(self, message_count: u64, now: Timestamp) -> Stats {
        Stats {
            total_messages: (self.total_messages + message_count) as u64,
            last_minute_messages: (self.last_minute_messages + message_count) as u64,
            last_message_time: Some(now),
            ..self
        }
    }

    /// Whether the open window is at least a full window old at `now`.
    pub open spec fn window_elapsed(self, now: Timestamp) -> bool {
        whole_seconds(self.last_minute_start, now) >= WINDOW_SECONDS
    }

    /// The state after the periodic refresh ran at `now` with the given
    /// memory sample.
    pub open spec fn refreshed(self, now: Timestamp, sample: Option<u64>) -> Stats {
        let rolled = self.window_elapsed(now);
        Stats {
            uptime_seconds: whole_seconds(self.start_time, now) as u64,
            messages_per_minute: if rolled {
                self.last_minute_messages
            } else {
                self.messages_per_minute
            },
            last_minute_messages: if rolled {
                0
            } else {
                self.last_minute_messages
            },
            last_minute_start: if rolled {
                now
            } else {
                self.last_minute_start
            },
            memory_usage_bytes: memory_after(sample, self.memory_peak_bytes).0,
            memory_peak_bytes: memory_after(sample, self.memory_peak_bytes).1,
            ..self
        }
    }

    /// Checks the invariant at run time, for values that come from outside.
    pub fn is_well_formed(&self) -> (ok: bool)
        ensures
            ok == self.wf(),
    {
        self.last_minute_messages <= self.total_messages && self.messages_per_minute
            <= self.total_messages && self.memory_usage_bytes <= self.memory_peak_bytes
            && self.start_time.is_well_formed() && self.last_minute_start.is_well_formed()
            && match self.last_message_time {
            Some(t) => t.is_well_formed(),
            None => true,
        }
    }

    /// The aggregator at process start.
    pub fn new(now: Timestamp) -> (stats: Stats)
        requires
            now.wf(),
        ensures
            stats == (Stats {
                total_messages: 0,
                messages_per_minute: 0,
                last_message_time: None,
                uptime_seconds: 0,
                start_time: now,
                memory_usage_bytes: 0,
                memory_peak_bytes: 0,
                last_minute_messages: 0,
                last_minute_start: now,
            }),
            stats.wf(),
    {
        Stats {
            total_messages: 0,
            messages_per_minute: 0,
            last_message_time: None,
            uptime_seconds: 0,
            start_time: now,
            memory_usage_bytes: 0,
            memory_peak_bytes: 0,
            last_minute_messages: 0,
            last_minute_start: now,
        }
    }

    /// The periodic refresh: recomputes the uptime, closes the rate window
    /// when it is at least a minute old, and takes in the memory sample.
    ///
    /// A clock reading that lies before the start makes the uptime the
    /// 64-bit wrap of the negative difference.
    pub fn tick(&mut self, now: Timestamp, sample: Option<u64>)
        requires
            old(self).wf(),
            now.wf(),
        ensures
            *final(self) == old(self).refreshed(now, sample),
            final(self).wf(),
            final(self).total_messages == old(self).total_messages,
            final(self).memory_peak_bytes >= old(self).memory_peak_bytes,
            whole_seconds(old(self).start_time, now) >= 0 ==> final(self).uptime_seconds
                == whole_seconds(old(self).start_time, now),
    {
        self.uptime_seconds = now.seconds_since(&self.start_time) as u64;
        if now.seconds_since(&self.last_minute_start) >= WINDOW_SECONDS {
            self.messages_per_minute = self.last_minute_messages;
            self.last_minute_messages = 0;
            self.last_minute_start = now;
        }
        let (current, peak) = get_memory_usage(sample, self.memory_peak_bytes);
        self.memory_usage_bytes = current;
        self.memory_peak_bytes = peak;
    }
}

/// Counts a batch of `message_count` messages that was accepted at `now`.
pub fn update_stats(stats: &mut Stats, message_count: u64, now: Timestamp)
    requires
        old(stats).wf(),
        now.wf(),
        old(stats).total_messages + message_count <= u64::MAX,
    ensures
        *final(stats) == old(stats).recorded(message_count, now),
        final(stats).wf(),
        final(stats).total_messages == old(stats).total_messages + message_count,
        final(stats).last_minute_messages == old(stats).last_minute_messages + message_count,
{
    stats.total_messages = stats.total_messages + message_count;
    stats.last_minute_messages = stats.last_minute_messages + message_count;
    stats.last_message_time = Some(now);
}

/// The envelope in which the dashboard hands out data.
#[derive(Clone, Debug, PartialEq, Eq)]
pub struct ApiResponse<T> {
    pub success: bool,
    pub data: Option<T>,
    pub message: String,
}

/// The reply to a request for the statistics: a copy of the present state,
/// decoupled from whatever is counted afterwards.
pub fn get_stats(stats: &Stats) -> (response: ApiResponse<Stats>)
    ensures
        response.success,
        response.data == Some(*stats),
        response.message@ == "Stats retrieved successfully"@,
{
    ApiResponse {
        success: true,
        data: Some(*stats),
        message: "Stats retrieved successfully".to_owned(),
    }
}

/// Sum of the message counts of `batches`.
pub open spec fn messages_in(batches: Seq<(u64, Timestamp)>) -> nat
    decreases batches.len(),
{
    if batches.len() == 0 {
        0
    } else {
        messages_in(batches.drop_last()) + batches.last().0 as nat
    }
}

/// The state after every batch of `batches` was counted, in order.
pub open spec fn recorded_all(stats: Stats, batches: Seq<(u64, Timestamp)>) -> Stats
    decreases batches.len(),
{
    if batches.len() == 0 {
        stats
    } else {
        recorded_all(stats, batches.drop_last()).recorded(batches.last().0, batches.last().1)
    }
}

/// No update is lost: after any number of batches were counted the total,
/// and the open window, have grown by exactly the sum of their message
/// counts, as long as the total fits its counter.
pub proof fn lemma_updates_sum_exactly(stats: Stats, batches: Seq<(u64, Timestamp)>)
    requires
        stats.wf(),
        forall|i: int| 0 <= i < batches.len() ==> (#[trigger] batches[i]).1.wf(),
        stats.total_messages + messages_in(batches) <= u64::MAX,
    ensures
        recorded_all(stats, batches).wf(),
        recorded_all(stats, batches).total_messages == stats.total_messages + messages_in(batches),
        recorded_all(stats, batches).last_minute_messages == stats.last_minute_messages
            + messages_in(batches),
    decreases batches.len(),
{
    if batches.len() > 0 {
        lemma_updates_sum_exactly(stats, batches.drop_last());
    }
}

/// The counters do not depend on the order in which two batches are
/// counted.
pub proof fn lemma_updates_commute(stats: Stats, a: (u64, Timestamp), b: (u64, Timestamp))
    requires
        stats.total_messages + a.0 + b.0 <= u64::MAX,
        stats.last_minute_messages <= stats.total_messages,
    ensures
        stats.recorded(a.0, a.1).recorded(b.0, b.1).total_messages == stats.recorded(
            b.0,
            b.1,
        ).recorded(a.0, a.1).total_messages,
        stats.recorded(a.0, a.1).recorded(b.0, b.1).last_minute_messages == stats.recorded(
            b.0,
            b.1,
        ).recorded(a.0, a.1).last_minute_messages,
        stats.recorded(a.0, a.1).recorded(b.0, b.1).total_messages == stats.total_messages + a.0
            + b.0,
{
}

/// When a refresh finds the window at least a minute old, the count of that
/// window becomes the published rate and the next window starts empty at
/// the time of the refresh; otherwise rate and window are left alone.
pub proof fn lemma_window_rollover(stats: Stats, now: Timestamp, sample: Option<u64>)
    ensures
        stats.window_elapsed(now) ==> {
            &&& stats.refreshed(now, sample).messages_per_minute == stats.last_minute_messages
            &&& stats.refreshed(now, sample).last_minute_messages == 0
            &&& stats.refreshed(now, sample).last_minute_start == now
        },
        !stats.window_elapsed(now) ==> {
            &&& stats.refreshed(now, sample).messages_per_minute == stats.messages_per_minute
            &&& stats.refreshed(now, sample).last_minute_messages == stats.last_minute_messages
            &&& stats.refreshed(now, sample).last_minute_start == stats.last_minute_start
        },
{
}

} // verus!
