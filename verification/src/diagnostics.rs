//! Performance diagnostics counters.
//!
//! [`Diagnostics`] provides lock-free, atomic counters for frame timing and
//! audio buffer underrun tracking. It is meant to be shared via `Arc`
//! between the render loop and any monitoring code.
use vstd::prelude::*;

use std::sync::atomic::{AtomicU64, Ordering};

verus! {

/// The value that a counter cell was created holding. A shared cell changes
/// under the hands of other threads, so this names only where it started.
pub uninterp spec fn u64_cell_made_with(cell: AtomicU64) -> u64;

/// Creates a counter cell holding `v`.
///
/// Calls `std::sync::atomic::AtomicU64::new`, whose documentation says that
/// it creates a new `AtomicU64` holding the given value; the contract claims
/// that and nothing about the values the cell holds later. vstd already
/// specifies `AtomicU64::new`, without any `ensures`; this wrapper exists only to
/// attach the starting value to the new cell. Since vstd gives no values to
/// later loads, swaps or stores, the starting value implies nothing about
/// what a later read of the cell returns.
#[verifier::external_body]
fn new_u64_cell(v: u64) -> (cell: AtomicU64)
    ensures
        u64_cell_made_with(cell) == v,
{
    AtomicU64::new(v)
}

/// Performance tracking counters (all atomic for lock-free access).
#[derive(Debug)]
pub struct Diagnostics {
    frame_time: AtomicU64,
    underruns: AtomicU64,
}

impl Diagnostics {
    /// The cell holding the most recent frame time.
    pub closed spec fn frame_time_cell(&self) -> AtomicU64 {
        self.frame_time
    }

    /// The cell holding the underrun count.
    pub closed spec fn underrun_cell(&self) -> AtomicU64 {
        self.underruns
    }

    /// Create a new diagnostics instance with all counters at zero.
    ///
    /// The contract states the starting values of the shared cells only;
    /// what a later read returns depends on every thread that shares the
    /// counters and is not stated.
    pub fn new() -> (d: Self)
        ensures
            u64_cell_made_with(d.frame_time_cell()) == 0,
            u64_cell_made_with(d.underrun_cell()) == 0,
    {
        Diagnostics { frame_time: new_u64_cell(0), underruns: new_u64_cell(0) }
    }

    /// Record the most recent frame render time in microseconds.
    pub fn record_frame_time_us(&self, us: u64) {
        self.frame_time.store(us, Ordering::Relaxed);
    }

    /// Read the most recent frame render time in microseconds.
    pub fn frame_time_us(&self) -> (us: u64) {
        self.frame_time.load(Ordering::Relaxed)
    }

    /// Increment the cumulative audio buffer underrun count.
    pub fn increment_underruns(&self) {
        self.underruns.fetch_add(1, Ordering::Relaxed);
    }

    /// Read the cumulative audio buffer underrun count.
    pub fn underrun_count(&self) -> (n: u64) {
        self.underruns.load(Ordering::Relaxed)
    }
}

impl Default for Diagnostics {
    fn default() -> (d: Self)
        ensures
            u64_cell_made_with(d.frame_time_cell()) == 0,
            u64_cell_made_with(d.underrun_cell()) == 0,
    {
        Self::new()
    }
}

} // verus!
