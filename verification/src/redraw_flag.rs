//! Shared redraw flag for coordinating redraw requests.
//!
//! [`RedrawFlag`] wraps an `Arc<AtomicBool>` that is shared between the
//! notifier (which sets the flag when the user interface requests a redraw)
//! and the render loop (which checks and clears the flag each frame).
use vstd::prelude::*;

use std::sync::atomic::{AtomicBool, Ordering};
use std::sync::Arc;

verus! {

/// The value that a boolean cell was created holding. A shared cell changes
/// under the hands of other threads, so this names only where it started.
pub uninterp spec fn bool_cell_made_with(cell: AtomicBool) -> bool;

/// Creates a boolean cell holding `v`.
///
/// Calls `std::sync::atomic::AtomicBool::new`, whose documentation says that
/// it creates a new `AtomicBool` holding the given value; the contract claims
/// that and nothing about the values the cell holds later. vstd already
/// specifies `AtomicBool::new`, without any `ensures`; this wrapper exists only to
/// attach the starting value to the new cell. Since vstd gives no values to
/// later loads, swaps or stores, the starting value implies nothing about
/// what a later read of the cell returns.
#[verifier::external_body]
fn new_bool_cell(v: bool) -> (cell: AtomicBool)
    ensures
        bool_cell_made_with(cell) == v,
{
    AtomicBool::new(v)
}

/// Shared redraw flag readable by both the notifier and the render loop.
#[derive(Clone)]
pub struct RedrawFlag(Arc<AtomicBool>);

impl RedrawFlag {
    /// The shared cell behind this flag.
    pub closed spec fn cell(&self) -> AtomicBool {
        *self.0
    }

    /// Create a new redraw flag, initially set to `true` (request initial draw).
    ///
    /// The contract states the starting value of the shared cell only; what
    /// a later [`RedrawFlag::take`] returns depends on every thread that
    /// shares the flag and is not stated.
    pub fn new() -> (f: Self)
        ensures
            bool_cell_made_with(f.cell()) == true,
    {
        RedrawFlag(Arc::new(new_bool_cell(true)))
    }

    /// Check and clear the redraw flag. Returns the previous value.
    ///
    /// Called once per frame by the render loop. If `true`, a redraw has
    /// been requested since the last frame.
    pub fn take(&self) -> (was_set: bool) {
        self.0.swap(false, Ordering::AcqRel)
    }

    /// Set the redraw flag (request a redraw).
    pub fn set(&self) {
        self.0.store(true, Ordering::Release);
    }

    /// A clone of the inner `Arc<AtomicBool>`, for a notifier that shares
    /// this flag.
    pub fn inner(&self) -> (a: Arc<AtomicBool>)
        ensures
            *a == self.cell(),
    {
        self.0.clone()
    }
}

impl Default for RedrawFlag {
    fn default() -> (f: Self)
        ensures
            bool_cell_made_with(f.cell()) == true,
    {
        Self::new()
    }
}

} // verus!
