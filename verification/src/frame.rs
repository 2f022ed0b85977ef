//! Per-frame decisions of the render loop.
//!
//! The render loop acquires a surface texture, runs one update and draw of
//! the user interface, presents, and then decides whether another frame is
//! needed. The functions here make those decisions from plain values; the
//! graphics work stays with the caller.
use vstd::prelude::*;

verus! {

/// Why a surface texture could not be acquired (the cases of
/// `wgpu::SurfaceError`).
#[derive(Debug, Clone, Copy, PartialEq, Eq, Structural)]
pub enum SurfaceFailure {
    /// A timeout was encountered while trying to acquire the next frame.
    Timeout,
    /// The underlying surface has changed and must be reconfigured.
    Outdated,
    /// The swap chain has been lost and needs to be recreated.
    Lost,
    /// There is no more memory left to allocate a new frame.
    OutOfMemory,
    /// Acquiring a texture failed with a generic error.
    Other,
}

/// When the user interface asked to be redrawn (the cases of
/// `window::RedrawRequest`, without the instant).
#[derive(Debug, Clone, Copy, PartialEq, Eq, Structural)]
pub enum RedrawTiming {
    /// Redraw on the next frame.
    NextFrame,
    /// Redraw at a given time.
    At,
    /// No redraw is needed.
    Wait,
}

/// The state of the user interface after an update (the cases of
/// `user_interface::State`, reduced to what the redraw decision reads).
#[derive(Debug, Clone, Copy, PartialEq, Eq, Structural)]
pub enum UiStatus {
    /// The user interface is outdated and needs to be rebuilt.
    Outdated,
    /// The user interface is up to date and asked for a redraw at `RedrawTiming`.
    Updated(RedrawTiming),
}

/// Whether a frame whose surface texture could not be acquired should be
/// retried: a lost or outdated surface is reconfigured and drawn again,
/// any other failure stops the loop.
pub fn retry_after_surface_failure(failure: SurfaceFailure) -> (retry: bool)
    ensures
        retry == (failure == SurfaceFailure::Lost || failure == SurfaceFailure::Outdated),
{
    match failure {
        SurfaceFailure::Lost | SurfaceFailure::Outdated => true,
        _ => false,
    }
}

/// Whether the user interface itself needs another frame: it is outdated,
/// or it asked to be redrawn on the next frame.
pub fn ui_needs_redraw(status: UiStatus) -> (r: bool)
    ensures
        r == (status == UiStatus::Outdated || status == UiStatus::Updated(RedrawTiming::NextFrame)),
{
    match status {
        UiStatus::Outdated => true,
        UiStatus::Updated(RedrawTiming::NextFrame) => true,
        UiStatus::Updated(_) => false,
    }
}

/// Whether another frame is needed after a frame was drawn: messages were
/// produced, the user interface needs a redraw, a redraw was requested
/// through the shared flag, or the program is animating.
pub fn frame_needs_redraw(
    has_messages: bool,
    status: UiStatus,
    redraw_requested: bool,
    animating: bool,
) -> (r: bool)
    ensures
        r == (has_messages || status == UiStatus::Outdated || status == UiStatus::Updated(
            RedrawTiming::NextFrame,
        ) || redraw_requested || animating),
{
    let ui = ui_needs_redraw(status);
    has_messages || ui || redraw_requested || animating
}

} // verus!
