//! Settings of a service instance.

use crate::timestamp::Timestamp;
use vstd::prelude::*;

verus! {

/// Settings that stay fixed for the life of the process.
#[derive(Clone, Debug)]
pub struct Config {
    /// Address and port the service listens on.
    pub listen: String,
    /// Duration of each randomness epoch, in seconds.
    pub epoch_seconds: u32,
    /// First epoch tag made available.
    pub first_epoch: u8,
    /// Last epoch tag made available.
    pub last_epoch: u8,
    /// Instant the epoch schedule is counted from; the start of the
    /// scheduler where none is given.
    pub epoch_base_time: Option<Timestamp>,
    /// Whether to raise the limit on open files at startup.
    pub increase_nofile_limit: bool,
    /// Address and port of the metrics endpoint, if there is one.
    pub prometheus_listen: Option<String>,
}

impl Config {
    /// The epoch range is not empty and an epoch lasts at least a second.
    pub open spec fn valid(&self) -> bool {
        self.first_epoch <= self.last_epoch && self.epoch_seconds > 0
    }

    /// Number of epoch tags in the range.
    pub open spec fn epoch_count(&self) -> int {
        self.last_epoch - self.first_epoch + 1
    }

    /// The epoch tags of the range.
    pub open spec fn epochs(&self) -> Set<u8> {
        Set::new(|tag: u8| self.first_epoch <= tag <= self.last_epoch)
    }

    /// The instant the schedule is counted from, for a scheduler started at `start`.
    pub open spec fn base_time(&self, start: Timestamp) -> Timestamp {
        match self.epoch_base_time {
            Some(base) => base,
            None => start,
        }
    }

    /// Whether the settings describe a schedule at all.
    pub fn is_valid(&self) -> (ok: bool)
        ensures
            ok == self.valid(),
    {
        self.first_epoch <= self.last_epoch && self.epoch_seconds > 0
    }
}

} // verus!
