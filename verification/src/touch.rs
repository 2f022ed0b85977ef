//! Touch phases and their translation into input events.
//!
//! A touch sample carries a phase, a finger identifier and a position. The
//! position type is a parameter: the library never computes with positions,
//! it only carries them from the platform to the event that describes the
//! touch, so any coordinate representation (logical points, for instance)
//! can be used.
use vstd::prelude::*;

verus! {

/// Touch event phase, matching UITouch.Phase (iOS) and MotionEvent actions (Android).
#[derive(Debug, Clone, Copy, PartialEq, Eq, Structural)]
pub enum TouchPhase {
    /// Finger touched the surface (ACTION_DOWN / UITouch.Phase.began).
    Started,
    /// Finger moved on the surface (ACTION_MOVE / UITouch.Phase.moved).
    Moved,
    /// Finger lifted from the surface (ACTION_UP / UITouch.Phase.ended).
    Ended,
    /// Touch was cancelled by the system (ACTION_CANCEL / UITouch.Phase.cancelled).
    Cancelled,
}

/// A single touch sample: phase, finger and position.
#[derive(Debug, Clone, Copy)]
pub struct TouchInput<P> {
    /// The phase of this touch.
    pub phase: TouchPhase,
    /// Identifier of the finger, stable across a press-move-lift sequence.
    pub finger_id: u64,
    /// Where the finger is.
    pub position: P,
}

/// An input event queued for the user interface.
#[derive(Debug, Clone, Copy)]
pub enum InputEvent<P> {
    /// A touch interaction was started.
    FingerPressed { finger_id: u64, position: P },
    /// An on-going touch interaction was moved.
    FingerMoved { finger_id: u64, position: P },
    /// A touch interaction was ended.
    FingerLifted { finger_id: u64, position: P },
    /// A touch interaction was cancelled.
    FingerLost { finger_id: u64, position: P },
    /// The pointer moved to a position.
    CursorMoved { position: P },
    /// The pointer left the view.
    CursorLeft,
}

/// The touch event that describes a finger in `phase` at `position`.
pub open spec fn touch_event<P>(phase: TouchPhase, finger_id: u64, position: P) -> InputEvent<P> {
    match phase {
        TouchPhase::Started => InputEvent::FingerPressed { finger_id, position },
        TouchPhase::Moved => InputEvent::FingerMoved { finger_id, position },
        TouchPhase::Ended => InputEvent::FingerLifted { finger_id, position },
        TouchPhase::Cancelled => InputEvent::FingerLost { finger_id, position },
    }
}

/// The events that a batch of touch samples translates to: one per sample, in order.
pub open spec fn translated<P>(inputs: Seq<TouchInput<P>>) -> Seq<InputEvent<P>> {
    inputs.map_values(|t: TouchInput<P>| touch_event(t.phase, t.finger_id, t.position))
}

/// Each phase becomes its own kind of touch event, carrying the touch's
/// finger and position unchanged: a start a press, a move a move, an end a
/// lift, a cancel a lost finger; no two phases give the same kind.
pub proof fn lemma_touch_event_kinds<P>(finger_id: u64, position: P)
    ensures
        touch_event(TouchPhase::Started, finger_id, position) == (InputEvent::FingerPressed { finger_id, position }),
        touch_event(TouchPhase::Moved, finger_id, position) == (InputEvent::FingerMoved { finger_id, position }),
        touch_event(TouchPhase::Ended, finger_id, position) == (InputEvent::FingerLifted { finger_id, position }),
        touch_event(TouchPhase::Cancelled, finger_id, position) == (InputEvent::FingerLost { finger_id, position }),
{
}

/// Translate one touch sample into its touch event.
pub fn touch_event_for<P: Copy>(phase: TouchPhase, finger_id: u64, position: P) -> (e: InputEvent<P>)
    ensures
        e == touch_event(phase, finger_id, position),
{
    match phase {
        TouchPhase::Started => InputEvent::FingerPressed { finger_id, position },
        TouchPhase::Moved => InputEvent::FingerMoved { finger_id, position },
        TouchPhase::Ended => InputEvent::FingerLifted { finger_id, position },
        TouchPhase::Cancelled => InputEvent::FingerLost { finger_id, position },
    }
}

fn translate_one<P: Copy>(e: &TouchInput<P>) -> (r: Option<InputEvent<P>>)
    ensures
        r == Some(touch_event(e.phase, e.finger_id, e.position)),
{
    Some(touch_event_for(e.phase, e.finger_id, e.position))
}

/// Convert a slice of touch samples to input events.
///
/// Each sample becomes the touch event of its phase; finger identifiers and
/// positions are passed through as they are, and the order is kept.
pub fn translate_touch_events<P: Copy>(events: &[TouchInput<P>]) -> (out: Vec<InputEvent<P>>)
    ensures
        out@ == translated(events@),
{
    let mut out: Vec<InputEvent<P>> = Vec::new();
    let n: usize = events.len();
    let mut i: usize = 0;
    while i < n
        invariant
            n == events@.len(),
            i <= n,
            out@ == translated(events@.take(i as int)),
        decreases n - i,
    {
        if let Some(ev) = translate_one(&events[i]) {
            out.push(ev);
        }
        proof {
            assert(events@.take(i as int + 1) =~= events@.take(i as int).push(events@[i as int]));
        }
        i = i + 1;
    }
    proof {
        assert(events@.take(n as int) =~= events@);
    }
    out
}

} // verus!
