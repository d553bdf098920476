//! Progress snapshots handed to the presentation layer, and the throughput
//! and remaining-time figures they carry.

use vstd::prelude::*;

verus! {

/// The two phases of a transfer that report progress.
#[derive(Debug, Clone, Copy, PartialEq, Eq, Structural)]
pub enum Phase {
    Writing,
    Verifying,
}

impl Phase {
    /// The phase as it is spelled in progress events.
    pub open spec fn label(self) -> Seq<char> {
        match self {
            Phase::Writing => "writing"@,
            Phase::Verifying => "verifying"@,
        }
    }

    /// The phase as it is spelled in progress events.
    pub fn name(self) -> (s: String)
        ensures
            s@ == self.label(),
    {
        match self {
            Phase::Writing => String::from_str("writing"),
            Phase::Verifying => String::from_str("verifying"),
        }
    }
}

/// Nanoseconds in a second.
pub const NANOS_PER_SECOND: u128 = 1_000_000_000;

/// Average throughput in whole bytes per second after `done` bytes in
/// `elapsed_nanos` nanoseconds: zero while no time has passed, and capped
/// at the largest 64-bit number.
pub open spec fn speed_of(done: u64, elapsed_nanos: u128) -> u64 {
    if elapsed_nanos == 0 {
        0
    } else if done * NANOS_PER_SECOND / (elapsed_nanos as int) > u64::MAX {
        u64::MAX
    } else {
        (done * NANOS_PER_SECOND / (elapsed_nanos as int)) as u64
    }
}

/// Whole seconds still needed for the rest of `total` at `speed` bytes per
/// second: zero when the speed is zero or nothing is left.
pub open spec fn eta_of(total: u64, done: u64, speed: u64) -> u64 {
    if speed == 0 || done >= total {
        0
    } else {
        ((total - done) / (speed as int)) as u64
    }
}

/// Average throughput so far, in bytes per second.
pub fn average_speed(done: u64, elapsed_nanos: u128) -> (speed: u64)
    ensures
        speed == speed_of(done, elapsed_nanos),
{
    if elapsed_nanos == 0 {
        0
    } else {
        let per_second: u128 = (done as u128) * NANOS_PER_SECOND / elapsed_nanos;
        if per_second > u64::MAX as u128 {
            u64::MAX
        } else {
            per_second as u64
        }
    }
}

/// Seconds still needed at the given speed.
pub fn remaining_seconds(total: u64, done: u64, speed: u64) -> (eta: u64)
    ensures
        eta == eta_of(total, done, speed),
{
    if speed == 0 || done >= total {
        0
    } else {
        (total - done) / speed
    }
}

/// One progress notification of a transfer. Every event is a complete
/// snapshot, not a difference to the previous one.
#[derive(Debug, Clone, PartialEq, Eq)]
pub struct WriteProgressEvent {
    /// `writing` or `verifying`.
    pub phase: String,
    /// Bytes handled so far in this phase.
    pub bytes_written: u64,
    /// Size of the image.
    pub total_bytes: u64,
    /// Average throughput since the phase began.
    pub speed_bps: u64,
    /// Estimated seconds until the phase ends.
    pub eta_seconds: u64,
}

/// A progress event as plain values.
pub struct ProgressView {
    pub phase: Seq<char>,
    pub bytes_written: u64,
    pub total_bytes: u64,
    pub speed_bps: u64,
    pub eta_seconds: u64,
}

impl View for WriteProgressEvent {
    type V = ProgressView;

    open spec fn view(&self) -> ProgressView {
        ProgressView {
            phase: self.phase@,
            bytes_written: self.bytes_written,
            total_bytes: self.total_bytes,
            speed_bps: self.speed_bps,
            eta_seconds: self.eta_seconds,
        }
    }
}

/// The snapshot taken in `phase` after `done` of `total` bytes and
/// `elapsed_nanos` nanoseconds.
pub open spec fn snapshot(phase: Phase, done: u64, total: u64, elapsed_nanos: u128) -> ProgressView {
    ProgressView {
        phase: phase.label(),
        bytes_written: done,
        total_bytes: total,
        speed_bps: speed_of(done, elapsed_nanos),
        eta_seconds: eta_of(total, done, speed_of(done, elapsed_nanos)),
    }
}

impl WriteProgressEvent {
    /// Takes the snapshot for `phase` after `done` of `total` bytes and
    /// `elapsed_nanos` nanoseconds since the phase began.
    pub fn measure(phase: Phase, done: u64, total: u64, elapsed_nanos: u128) -> (e:
        WriteProgressEvent)
        ensures
            e@ == snapshot(phase, done, total, elapsed_nanos),
    {
        let speed = average_speed(done, elapsed_nanos);
        WriteProgressEvent {
            phase: phase.name(),
            bytes_written: done,
            total_bytes: total,
            speed_bps: speed,
            eta_seconds: remaining_seconds(total, done, speed),
        }
    }
}

/// A snapshot of a transfer, with the fields of a progress event.
#[derive(Debug, Clone, PartialEq, Eq)]
pub struct WriteProgress {
    pub phase: String,
    pub bytes_written: u64,
    pub total_bytes: u64,
    pub speed_bps: u64,
    pub eta_seconds: u64,
}

/// Snapshot of a checksum run.
#[derive(Debug, Clone, PartialEq, Eq)]
pub struct ChecksumProgress {
    pub bytes_processed: u64,
    pub total_bytes: u64,
}

} // verus!
