//! Cursor tracking and the queue of input events for the next frame.
//!
//! Touch platforms have no hovering pointer, but widgets decide hover and
//! press state from the cursor position. [`InputQueue`] derives a cursor
//! from the touches it is given:
//!
//! - a press or a move makes the cursor available at the touch position;
//! - a lift keeps the cursor available for the frame that processes the
//!   lift, so the release is seen at the right position, and clears it
//!   when that frame finishes, so no hover highlight stays stuck;
//! - a cancel makes the cursor unavailable at once.
use vstd::prelude::*;

use crate::touch::{translated, touch_event, touch_event_for, translate_touch_events, InputEvent, TouchInput, TouchPhase};

verus! {

/// Where the pointer is, if anywhere.
#[derive(Debug, Clone, Copy)]
pub enum Cursor<P> {
    /// The pointer is not over the view.
    Unavailable,
    /// The pointer is at the given position.
    Available(P),
}

/// The abstract state of an [`InputQueue`].
pub struct InputQueueView<P> {
    /// The current cursor.
    pub cursor: Cursor<P>,
    /// Whether the cursor is cleared when the current frame finishes.
    pub clear_after_frame: bool,
    /// The events queued for the next frame, oldest first.
    pub pending: Seq<InputEvent<P>>,
}

/// Cursor state and the input events queued for the next frame.
pub struct InputQueue<P> {
    cursor: Cursor<P>,
    clear_cursor_after_frame: bool,
    pending_events: Vec<InputEvent<P>>,
}

impl<P> View for InputQueue<P> {
    type V = InputQueueView<P>;

    closed spec fn view(&self) -> InputQueueView<P> {
        InputQueueView {
            cursor: self.cursor,
            clear_after_frame: self.clear_cursor_after_frame,
            pending: self.pending_events@,
        }
    }
}

/// The cursor after one touch: a press, a move or a lift puts it at the
/// touch position, a cancel makes it unavailable.
pub open spec fn cursor_after_touch<P>(phase: TouchPhase, position: P) -> Cursor<P> {
    match phase {
        TouchPhase::Cancelled => Cursor::Unavailable,
        _ => Cursor::Available(position),
    }
}

/// Whether the cursor is cleared when the frame finishes, after one touch:
/// a press or a move keeps it, a lift clears it, a cancel leaves the flag
/// as it was.
pub open spec fn clear_after_touch(clear: bool, phase: TouchPhase) -> bool {
    match phase {
        TouchPhase::Started | TouchPhase::Moved => false,
        TouchPhase::Ended => true,
        TouchPhase::Cancelled => clear,
    }
}

/// The state after queueing one touch with [`InputQueue::push_touch_event`].
pub open spec fn after_touch<P>(
    v: InputQueueView<P>,
    phase: TouchPhase,
    finger_id: u64,
    position: P,
) -> InputQueueView<P> {
    let ev = touch_event(phase, finger_id, position);
    InputQueueView {
        cursor: cursor_after_touch(phase, position),
        clear_after_frame: clear_after_touch(v.clear_after_frame, phase),
        pending: match phase {
            TouchPhase::Started => v.pending.push(InputEvent::CursorMoved { position }).push(ev),
            _ => v.pending.push(ev),
        },
    }
}

/// The cursor and its clear-after-frame flag after a batch of touches: each
/// touch in turn, by the same rules as a single touch.
pub open spec fn cursor_after_touches<P>(cursor: Cursor<P>, clear: bool, inputs: Seq<TouchInput<P>>) -> (
    Cursor<P>,
    bool,
)
    decreases inputs.len(),
{
    if inputs.len() == 0 {
        (cursor, clear)
    } else {
        let before = cursor_after_touches(cursor, clear, inputs.drop_last());
        (cursor_after_touch(inputs.last().phase, inputs.last().position), clear_after_touch(before.1, inputs.last().phase))
    }
}

/// The state after queueing a batch with [`InputQueue::push_touch_events`]:
/// one event per touch, and the cursor tracked through the touches in turn.
pub open spec fn after_touches<P>(v: InputQueueView<P>, inputs: Seq<TouchInput<P>>) -> InputQueueView<P> {
    let (c, f) = cursor_after_touches(v.cursor, v.clear_after_frame, inputs);
    InputQueueView { cursor: c, clear_after_frame: f, pending: v.pending + translated(inputs) }
}

/// The state after queueing each touch of `inputs` alone, in turn, with
/// [`InputQueue::push_touch_event`].
pub open spec fn after_touches_singly<P>(v: InputQueueView<P>, inputs: Seq<TouchInput<P>>) -> InputQueueView<P>
    decreases inputs.len(),
{
    if inputs.len() == 0 {
        v
    } else {
        let w = after_touches_singly(v, inputs.drop_last());
        after_touch(w, inputs.last().phase, inputs.last().finger_id, inputs.last().position)
    }
}

/// The state after queueing a pointer move.
pub open spec fn after_cursor_moved<P>(v: InputQueueView<P>, position: P) -> InputQueueView<P> {
    InputQueueView {
        cursor: Cursor::Available(position),
        clear_after_frame: false,
        pending: v.pending.push(InputEvent::CursorMoved { position }),
    }
}

/// The state after the pointer leaves the view.
pub open spec fn after_cursor_exited<P>(v: InputQueueView<P>) -> InputQueueView<P> {
    InputQueueView {
        cursor: Cursor::Unavailable,
        clear_after_frame: v.clear_after_frame,
        pending: v.pending.push(InputEvent::CursorLeft),
    }
}

/// The state after the pending events were handed to a frame.
pub open spec fn after_take<P>(v: InputQueueView<P>) -> InputQueueView<P> {
    InputQueueView { cursor: v.cursor, clear_after_frame: v.clear_after_frame, pending: Seq::empty() }
}

/// The state after a frame finished.
pub open spec fn after_frame<P>(v: InputQueueView<P>) -> InputQueueView<P> {
    if v.clear_after_frame {
        InputQueueView { cursor: Cursor::Unavailable, clear_after_frame: false, pending: v.pending }
    } else {
        v
    }
}

/// A lift keeps the cursor at the lift position for the frame that handles
/// the lift, and that frame, when it finishes, clears the cursor.
pub proof fn lemma_lift_clears_cursor_after_its_frame<P>(v: InputQueueView<P>, finger_id: u64, position: P)
    ensures
        after_touch(v, TouchPhase::Ended, finger_id, position).cursor == Cursor::Available(position),
        after_take(after_touch(v, TouchPhase::Ended, finger_id, position)).cursor == Cursor::Available(position),
        after_frame(after_take(after_touch(v, TouchPhase::Ended, finger_id, position))).cursor
            == Cursor::<P>::Unavailable,
{
}

/// A press or a move puts the cursor at the touch position, and it stays
/// there when the frame finishes.
pub proof fn lemma_press_or_move_keeps_cursor<P>(v: InputQueueView<P>, phase: TouchPhase, finger_id: u64, position: P)
    requires
        phase == TouchPhase::Started || phase == TouchPhase::Moved,
    ensures
        after_touch(v, phase, finger_id, position).cursor == Cursor::Available(position),
        after_frame(after_take(after_touch(v, phase, finger_id, position))).cursor == Cursor::Available(position),
{
}

/// A cancelled touch makes the cursor unavailable at once.
pub proof fn lemma_cancel_clears_cursor_at_once<P>(v: InputQueueView<P>, finger_id: u64, position: P)
    ensures
        after_touch(v, TouchPhase::Cancelled, finger_id, position).cursor == Cursor::<P>::Unavailable,
{
}

/// A press queues a pointer move to the press position right before the
/// press itself; every other single touch queues exactly its own event.
pub proof fn lemma_press_moves_pointer_first<P>(v: InputQueueView<P>, phase: TouchPhase, finger_id: u64, position: P)
    ensures
        phase == TouchPhase::Started ==> {
            let w = after_touch(v, phase, finger_id, position);
            &&& w.pending.len() == v.pending.len() + 2
            &&& w.pending[w.pending.len() - 2] == InputEvent::CursorMoved { position }
            &&& w.pending[w.pending.len() - 1] == (InputEvent::FingerPressed { finger_id, position })
        },
        phase != TouchPhase::Started ==> after_touch(v, phase, finger_id, position).pending
            == v.pending.push(touch_event(phase, finger_id, position)),
{
}

/// Queued events are kept, in the order they were queued, until a frame
/// takes them; each touch of a batch becomes exactly one event with the
/// touch's finger and position.
pub proof fn lemma_batch_translation<P>(v: InputQueueView<P>, inputs: Seq<TouchInput<P>>)
    ensures
        after_touches(v, inputs).pending == v.pending + translated(inputs),
        translated(inputs).len() == inputs.len(),
        forall|i: int|
            0 <= i < inputs.len() ==> #[trigger] translated(inputs)[i] == touch_event(
                inputs[i].phase,
                inputs[i].finger_id,
                inputs[i].position,
            ),
{
    if inputs.len() == 0 {
        assert(translated(inputs) =~= Seq::<InputEvent<P>>::empty());
        assert(v.pending + translated(inputs) =~= v.pending);
    }
}

/// A batch tracks the cursor exactly as pushing its touches one by one
/// would: the cursor and the clear-after-frame flag come out the same.
pub proof fn lemma_batch_cursor_as_single_touches<P>(v: InputQueueView<P>, inputs: Seq<TouchInput<P>>)
    ensures
        after_touches(v, inputs).cursor == after_touches_singly(v, inputs).cursor,
        after_touches(v, inputs).clear_after_frame == after_touches_singly(v, inputs).clear_after_frame,
    decreases inputs.len(),
{
    if inputs.len() > 0 {
        lemma_batch_cursor_as_single_touches(v, inputs.drop_last());
    }
}

/// After a batch, the cursor follows its last touch: a cancel makes it
/// unavailable at once; a lift keeps it at the lift position until the frame
/// finishes and then clears it; a press or a move keeps it at the touch
/// position past the frame.
pub proof fn lemma_batch_cursor_after_frame<P>(v: InputQueueView<P>, inputs: Seq<TouchInput<P>>)
    requires
        inputs.len() > 0,
    ensures
        inputs.last().phase == TouchPhase::Cancelled ==> after_touches(v, inputs).cursor == Cursor::<P>::Unavailable
            && after_frame(after_touches(v, inputs)).cursor == Cursor::<P>::Unavailable,
        inputs.last().phase == TouchPhase::Ended ==> after_touches(v, inputs).cursor == Cursor::Available(
            inputs.last().position,
        ) && after_frame(after_touches(v, inputs)).cursor == Cursor::<P>::Unavailable,
        (inputs.last().phase == TouchPhase::Started || inputs.last().phase == TouchPhase::Moved) ==> after_touches(
            v,
            inputs,
        ).cursor == Cursor::Available(inputs.last().position) && after_frame(after_touches(v, inputs)).cursor
            == Cursor::Available(inputs.last().position),
{
}

/// A pointer move, whatever the cursor was before (available or not, as when
/// the pointer just entered the view), queues exactly one event, a pointer
/// move to the new position, after all events already queued, and leaves the
/// cursor at that position, kept past the frame.
pub proof fn lemma_cursor_move_always_queued<P>(v: InputQueueView<P>, position: P)
    ensures
        after_cursor_moved(v, position).pending.len() == v.pending.len() + 1,
        after_cursor_moved(v, position).pending.subrange(0, v.pending.len() as int) == v.pending,
        after_cursor_moved(v, position).pending.last() == (InputEvent::CursorMoved { position }),
        after_cursor_moved(v, position).cursor == Cursor::Available(position),
        after_frame(after_cursor_moved(v, position)).cursor == Cursor::Available(position),
{
    assert(after_cursor_moved(v, position).pending.subrange(0, v.pending.len() as int) =~= v.pending);
}

/// The pointer leaving the view, whatever the cursor was before, queues
/// exactly one event, a pointer-left event, after all events already
/// queued, makes the cursor unavailable and leaves the clear-after-frame
/// flag as it was.
pub proof fn lemma_cursor_exit_always_queued<P>(v: InputQueueView<P>)
    ensures
        after_cursor_exited(v).pending.len() == v.pending.len() + 1,
        after_cursor_exited(v).pending.subrange(0, v.pending.len() as int) == v.pending,
        after_cursor_exited(v).pending.last() == InputEvent::<P>::CursorLeft,
        after_cursor_exited(v).cursor == Cursor::<P>::Unavailable,
        after_cursor_exited(v).clear_after_frame == v.clear_after_frame,
{
    assert(after_cursor_exited(v).pending.subrange(0, v.pending.len() as int) =~= v.pending);
}

/// Finishing a frame twice is the same as finishing it once.
pub proof fn lemma_finish_frame_idempotent<P>(v: InputQueueView<P>)
    ensures
        after_frame(after_frame(v)) == after_frame(v),
{
}

/// Taking the queued events leaves the cursor state as it was, and a second
/// take finds nothing.
pub proof fn lemma_take_empties_queue<P>(v: InputQueueView<P>)
    ensures
        after_take(v).cursor == v.cursor,
        after_take(v).clear_after_frame == v.clear_after_frame,
        after_take(after_take(v)) == after_take(v),
        after_take(v).pending.len() == 0,
{
}

impl<P: Copy> InputQueue<P> {
    /// An empty queue with no cursor.
    pub fn new() -> (q: Self)
        ensures
            q@ == (InputQueueView::<P> {
                cursor: Cursor::Unavailable,
                clear_after_frame: false,
                pending: Seq::empty(),
            }),
    {
        InputQueue { cursor: Cursor::Unavailable, clear_cursor_after_frame: false, pending_events: Vec::new() }
    }

    /// The current cursor.
    pub fn cursor(&self) -> (c: Cursor<P>)
        ensures
            c == self@.cursor,
    {
        self.cursor
    }

    /// Whether the cursor is cleared when the current frame finishes.
    pub fn clears_cursor_after_frame(&self) -> (b: bool)
        ensures
            b == self@.clear_after_frame,
    {
        self.clear_cursor_after_frame
    }

    /// The number of events queued for the next frame.
    pub fn pending_len(&self) -> (n: usize)
        ensures
            n == self@.pending.len(),
    {
        self.pending_events.len()
    }

    /// Queue a single touch for the next frame and update the cursor.
    ///
    /// A press also queues a pointer move to the touch position before the
    /// press itself, so that the pointer is over the touched widget when the
    /// press is handled.
    pub fn push_touch_event(&mut self, phase: TouchPhase, finger_id: u64, position: P)
        ensures
            final(self)@ == after_touch(old(self)@, phase, finger_id, position),
    {
        let touch = touch_event_for(phase, finger_id, position);
        match phase {
            TouchPhase::Started | TouchPhase::Moved => {
                self.cursor = Cursor::Available(position);
                self.clear_cursor_after_frame = false;
            },
            TouchPhase::Ended => {
                self.cursor = Cursor::Available(position);
                self.clear_cursor_after_frame = true;
            },
            TouchPhase::Cancelled => {
                self.cursor = Cursor::Unavailable;
            },
        }
        if phase == TouchPhase::Started {
            self.pending_events.push(InputEvent::CursorMoved { position });
        }
        self.pending_events.push(touch);
    }

    /// Queue a batch of touches for the next frame.
    ///
    /// Each touch is translated to its event. The cursor follows each touch
    /// in turn by the rules of [`InputQueue::push_touch_event`]: a press or
    /// a move makes it available and keeps it, a lift makes it available
    /// and clears it after the frame, a cancel makes it unavailable at once.
    pub fn push_touch_events(&mut self, events: &[TouchInput<P>])
        ensures
            final(self)@ == after_touches(old(self)@, events@),
    {
        let translated_events = translate_touch_events(events);
        let ghost old_pending = self.pending_events@;
        let n: usize = events.len();
        let mut i: usize = 0;
        while i < n
            invariant
                n == events@.len(),
                i <= n,
                translated_events@ == translated(events@),
                self.pending_events@ == old_pending + translated(events@.take(i as int)),
                (self.cursor, self.clear_cursor_after_frame) == cursor_after_touches(
                    old(self).cursor,
                    old(self).clear_cursor_after_frame,
                    events@.take(i as int),
                ),
            decreases n - i,
        {
            let ev = translated_events[i];
            proof {
                assert(ev == touch_event(events@[i as int].phase, events@[i as int].finger_id, events@[i as int].position));
                assert(events@.take(i as int + 1) =~= events@.take(i as int).push(events@[i as int]));
                assert(events@.take(i as int + 1).drop_last() =~= events@.take(i as int));
            }
            match ev {
                InputEvent::FingerPressed { position, .. } | InputEvent::FingerMoved { position, .. } => {
                    self.cursor = Cursor::Available(position);
                    self.clear_cursor_after_frame = false;
                },
                InputEvent::FingerLifted { position, .. } => {
                    self.cursor = Cursor::Available(position);
                    self.clear_cursor_after_frame = true;
                },
                InputEvent::FingerLost { .. } => {
                    self.cursor = Cursor::Unavailable;
                },
                _ => {},
            }
            self.pending_events.push(ev);
            proof {
                assert(translated(events@.take(i as int + 1)) =~= translated(events@.take(i as int)).push(ev));
            }
            i = i + 1;
        }
        proof {
            assert(events@.take(n as int) =~= events@);
        }
    }

    /// Queue a pointer move (hover) for the next frame.
    pub fn push_cursor_moved(&mut self, position: P)
        ensures
            final(self)@ == after_cursor_moved(old(self)@, position),
            final(self)@.pending == old(self)@.pending.push(InputEvent::CursorMoved { position }),
            final(self)@.cursor == Cursor::Available(position),
            !final(self)@.clear_after_frame,
    {
        self.cursor = Cursor::Available(position);
        self.clear_cursor_after_frame = false;
        self.pending_events.push(InputEvent::CursorMoved { position });
    }

    /// Record that the pointer left the view.
    pub fn push_cursor_exited(&mut self)
        ensures
            final(self)@ == after_cursor_exited(old(self)@),
            final(self)@.pending == old(self)@.pending.push(InputEvent::CursorLeft),
            final(self)@.cursor == Cursor::<P>::Unavailable,
            final(self)@.clear_after_frame == old(self)@.clear_after_frame,
    {
        self.cursor = Cursor::Unavailable;
        self.pending_events.push(InputEvent::CursorLeft);
    }

    /// Hand the queued events to a frame, oldest first, and empty the queue.
    pub fn take_pending(&mut self) -> (events: Vec<InputEvent<P>>)
        ensures
            events@ == old(self)@.pending,
            final(self)@ == after_take(old(self)@),
    {
        let mut events: Vec<InputEvent<P>> = Vec::new();
        std::mem::swap(&mut events, &mut self.pending_events);
        events
    }

    /// Finish a frame: a cursor kept for a lift is cleared now.
    pub fn finish_frame(&mut self)
        ensures
            final(self)@ == after_frame(old(self)@),
    {
        if self.clear_cursor_after_frame {
            self.cursor = Cursor::Unavailable;
            self.clear_cursor_after_frame = false;
        }
    }
}

} // verus!
