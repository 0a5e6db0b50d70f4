//! Latency record of one disk transfer.
use vstd::prelude::*;

use std::time::{Duration, Instant};

verus! {

#[verifier::external_type_specification]
#[verifier::external_body]
pub struct ExInstant(Instant);

/// Relies on std's `Instant::now`: a reading of the monotonic clock. Nothing is promised
/// of its value.
#[verifier::external_body]
fn clock_now() -> Instant {
    Instant::now()
}

/// Relies on std's `Instant::elapsed`: the time since `start`. Nothing is promised of its value.
#[verifier::external_body]
fn clock_elapsed(start: &Instant) -> Duration {
    start.elapsed()
}

/// When a transfer of `size` bytes started and ended.
pub struct DiskLatency {
    pub start: Instant,
    pub end: Instant,
    pub size: usize,
}

impl DiskLatency {
    /// Starts the record now.
    pub fn new(size: usize) -> (r: Self)
        ensures
            r.size == size,
    {
        DiskLatency { start: clock_now(), end: clock_now(), size }
    }

    /// Marks the end of the transfer now; the start and the size are kept.
    pub fn end(&mut self) -> (r: &Self)
        ensures
            final(self).start == old(self).start,
            final(self).size == old(self).size,
            *r == *final(self),
    {
        self.end = clock_now();
        self
    }

    pub fn get(&self) -> (r: (Instant, Instant, usize))
        ensures
            r == (self.start, self.end, self.size),
    {
        (self.start, self.end, self.size)
    }

    /// Time since the start.
    pub fn elapsed(&self) -> Duration {
        clock_elapsed(&self.start)
    }
}

} // verus!
