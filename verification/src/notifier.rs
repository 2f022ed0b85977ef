//! Notifiers that turn redraw requests into something the platform's render
//! loop can observe.
//!
//! - [`SimpleNotifier`] sets the shared redraw flag only. Suitable for
//!   platforms where the render loop polls each frame (e.g. Android
//!   Choreographer).
//! - [`CallbackNotifier`] sets the shared redraw flag **and** calls a
//!   user-provided closure. Suitable for platforms that need an explicit
//!   wake-up signal (e.g. an iOS CADisplayLink that may be paused).
use vstd::prelude::*;

use std::sync::atomic::{AtomicBool, Ordering};
use std::sync::Arc;

use crate::redraw_flag::RedrawFlag;

verus! {

/// A notifier that only sets the shared redraw flag.
pub struct SimpleNotifier {
    redraw_requested: Arc<AtomicBool>,
}

impl SimpleNotifier {
    /// The shared cell that this notifier sets.
    pub closed spec fn cell(&self) -> AtomicBool {
        *self.redraw_requested
    }

    /// Create a notifier that shares the given [`RedrawFlag`].
    pub fn new(flag: &RedrawFlag) -> (n: Self)
        ensures
            n.cell() == flag.cell(),
    {
        SimpleNotifier { redraw_requested: flag.inner() }
    }

    /// Request a redraw: sets the shared flag.
    pub fn request_redraw(&self) {
        self.redraw_requested.store(true, Ordering::Release);
    }

    /// The layout was invalidated: requests a redraw.
    pub fn invalidate_layout(&self) {
        self.request_redraw();
    }
}

/// A notifier that sets the shared redraw flag **and** calls a closure on
/// every redraw request.
pub struct CallbackNotifier<F: Fn() + Send + Sync> {
    redraw_requested: Arc<AtomicBool>,
    on_redraw: F,
}

impl<F: Fn() + Send + Sync> CallbackNotifier<F> {
    /// The shared cell that this notifier sets.
    pub closed spec fn cell(&self) -> AtomicBool {
        *self.redraw_requested
    }

    /// The closure called on every redraw request.
    pub closed spec fn callback(&self) -> F {
        self.on_redraw
    }

    #[verifier::type_invariant]
    closed spec fn callable(&self) -> bool {
        call_requires(self.on_redraw, ())
    }

    /// Create a notifier that shares the given [`RedrawFlag`] and calls
    /// `on_redraw` whenever a redraw is requested.
    pub fn new(flag: &RedrawFlag, on_redraw: F) -> (n: Self)
        requires
            call_requires(on_redraw, ()),
        ensures
            n.cell() == flag.cell(),
            n.callback() == on_redraw,
    {
        CallbackNotifier { redraw_requested: flag.inner(), on_redraw }
    }

    /// Request a redraw: sets the shared flag, then calls the closure once.
    pub fn request_redraw(&self)
        ensures
            call_ensures(self.callback(), (), ()),
    {
        proof {
            use_type_invariant(self);
        }
        self.redraw_requested.store(true, Ordering::Release);
        (self.on_redraw)();
    }

    /// The layout was invalidated: requests a redraw.
    pub fn invalidate_layout(&self)
        ensures
            call_ensures(self.callback(), (), ()),
    {
        self.request_redraw();
    }
}

} // verus!
