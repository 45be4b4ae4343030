//! Where a scheduler that starts now stands in the epoch schedule.

use crate::config::Config;
use crate::timestamp::{Timestamp, NANOS_PER_SECOND};
use vstd::arithmetic::div_mod::{lemma_fundamental_div_mod, lemma_mod_bound};
use vstd::prelude::*;

verus! {

/// Why the epoch scheduler cannot go on. The process is to stop on any of
/// these: serving on would put forward secrecy at risk.
#[derive(Clone, Copy, Debug, PartialEq, Eq, Structural)]
pub enum Fatal {
    /// The base time of the schedule lies after the start of the scheduler.
    BaseTimeInFuture,
    /// The number of epochs since the base time does not fit in 32 bits.
    TooManyEpochs,
    /// The next rotation lies beyond the instants that can be told apart.
    TimeOutOfRange,
    /// The instant of the next rotation has no RFC 3339 text.
    TimestampFormat,
    /// The primitive failed to puncture an epoch.
    Puncture,
    /// A new instance of the primitive could not be made.
    KeyInit,
}

/// Where the schedule stands: the epoch to serve and the instant it ends.
#[derive(Clone, Copy, Debug)]
pub struct Schedule {
    /// The epoch that is current at the start.
    pub epoch: u8,
    /// The instant the current epoch ends and the next begins.
    pub next_rotation: Timestamp,
}

/// Length of an epoch in nanoseconds.
pub open spec fn epoch_nanos(epoch_seconds: u32) -> int {
    epoch_seconds * NANOS_PER_SECOND
}

/// Whole epochs that have passed from `base` to `start`.
pub open spec fn elapsed_epochs(base: Timestamp, start: Timestamp, epoch_seconds: u32) -> int {
    (start.as_nanos() - base.as_nanos()) / epoch_nanos(epoch_seconds)
}

/// The epoch that is current once `elapsed` whole epochs have passed: the
/// range is walked from its first tag and begun again after its last.
pub open spec fn epoch_after(config: Config, elapsed: int) -> int {
    config.first_epoch + elapsed % config.epoch_count()
}

/// Seconds from the base time to the end of the epoch that is current once
/// `elapsed` whole epochs have passed.
pub open spec fn seconds_to_rotation(epoch_seconds: u32, elapsed: int) -> int {
    epoch_seconds * (elapsed + 1)
}

/// What keeps a scheduler that starts at `start` from having a schedule, if
/// anything does.
pub open spec fn schedule_fault(config: Config, start: Timestamp) -> Option<Fatal> {
    let base = config.base_time(start);
    let elapsed = elapsed_epochs(base, start, config.epoch_seconds);
    if start.as_nanos() < base.as_nanos() {
        Some(Fatal::BaseTimeInFuture)
    } else if elapsed > u32::MAX {
        Some(Fatal::TooManyEpochs)
    } else if base.seconds() + seconds_to_rotation(config.epoch_seconds, elapsed) > i64::MAX {
        Some(Fatal::TimeOutOfRange)
    } else {
        None
    }
}

/// The epoch that is current at `start`.
pub open spec fn starting_epoch(config: Config, start: Timestamp) -> int {
    epoch_after(config, elapsed_epochs(config.base_time(start), start, config.epoch_seconds))
}

/// The instant the epoch that is current at `start` ends.
pub open spec fn first_rotation(config: Config, start: Timestamp) -> Timestamp {
    let base = config.base_time(start);
    base.plus_seconds(
        seconds_to_rotation(
            config.epoch_seconds,
            elapsed_epochs(base, start, config.epoch_seconds),
        ),
    )
}

/// Finds the place in the schedule of a scheduler that starts at `start`:
/// the epochs since the base time are counted, the range is walked that many
/// steps, and the next rotation is put at the end of the epoch reached.
pub fn derive_schedule(config: &Config, start: Timestamp) -> (out: Result<Schedule, Fatal>)
    requires
        config.valid(),
    ensures
        match out {
            Ok(schedule) => {
                &&& schedule_fault(*config, start) is None
                &&& schedule.epoch == starting_epoch(*config, start)
                &&& schedule.next_rotation == first_rotation(*config, start)
                &&& config.first_epoch <= schedule.epoch <= config.last_epoch
            },
            Err(fault) => schedule_fault(*config, start) == Some(fault),
        },
{
    let base = match config.epoch_base_time {
        Some(base) => base,
        None => start,
    };
    let gap: i128 = start.nanos_since(&base);
    if gap < 0 {
        return Err(Fatal::BaseTimeInFuture);
    }
    let interval: u128 = config.epoch_seconds as u128 * 1_000_000_000u128;
    let elapsed: u128 = gap as u128 / interval;
    if elapsed > u32::MAX as u128 {
        return Err(Fatal::TooManyEpochs);
    }
    let count: u128 = (config.last_epoch - config.first_epoch) as u128 + 1;
    let offset: u128 = elapsed % count;
    let epoch: u8 = config.first_epoch + offset as u8;
    let steps: u64 = elapsed as u64 + 1;
    assert(config.epoch_seconds * steps <= 0xffff_ffff * 0x1_0000_0000) by (nonlinear_arith)
        requires
            config.epoch_seconds <= 0xffff_ffff,
            steps <= 0x1_0000_0000,
    ;
    let ahead: u64 = config.epoch_seconds as u64 * steps;
    match base.checked_add_seconds(ahead) {
        Some(next_rotation) => Ok(Schedule { epoch, next_rotation }),
        None => Err(Fatal::TimeOutOfRange),
    }
}

/// The first rotation is the first boundary of the schedule after the
/// start: the start lies in the epoch that ends there.
pub proof fn lemma_first_rotation_follows_start(config: Config, start: Timestamp)
    requires
        config.valid(),
        schedule_fault(config, start) is None,
    ensures
        first_rotation(config, start).as_nanos() - epoch_nanos(config.epoch_seconds)
            <= start.as_nanos() < first_rotation(config, start).as_nanos(),
{
    let base = config.base_time(start);
    let gap = start.as_nanos() - base.as_nanos();
    let length = epoch_nanos(config.epoch_seconds);
    let elapsed = elapsed_epochs(base, start, config.epoch_seconds);
    lemma_fundamental_div_mod(gap, length);
    lemma_mod_bound(gap, length);
    base.lemma_plus_seconds(seconds_to_rotation(config.epoch_seconds, elapsed));
    assert(seconds_to_rotation(config.epoch_seconds, elapsed) * NANOS_PER_SECOND == length * (
        elapsed + 1)) by (nonlinear_arith)
        requires
            length == config.epoch_seconds * NANOS_PER_SECOND,
            seconds_to_rotation(config.epoch_seconds, elapsed) == config.epoch_seconds * (elapsed
                + 1),
    ;
    assert(length * (elapsed + 1) == length * elapsed + length) by (nonlinear_arith);
}

/// The epoch served at the start lies in the configured range.
pub proof fn lemma_starting_epoch_in_range(config: Config, start: Timestamp)
    requires
        config.valid(),
    ensures
        config.first_epoch <= starting_epoch(config, start) <= config.last_epoch,
{
    let elapsed = elapsed_epochs(config.base_time(start), start, config.epoch_seconds);
    lemma_mod_bound(elapsed, config.epoch_count());
}

} // verus!
