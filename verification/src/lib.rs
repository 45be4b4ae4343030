//! Core of a STAR randomness service: epoch schedule, key state and request handling.

use vstd::prelude::*;

pub mod codec;
pub mod config;
pub mod handler;
pub mod oprf;
pub mod run;
pub mod schedule;
pub mod state;
pub mod timestamp;

verus! {

/// Maximum number of points accepted in a single request.
pub const MAX_POINTS: usize = 1024;

} // verus!
