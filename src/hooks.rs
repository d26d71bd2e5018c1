//! The hook lifecycle: the slot that owns the installed listener's handle,
//! and the routing of each raw pointer event through the gesture
//! recognizer to the notification channel.
use crate::event::{AppEvent, EventView};
use crate::extract::{is_found, reported};
use crate::gesture::{
    DragState, gesture_events, is_gesture, is_selection, lemma_one_gesture, press_of, run, step, GestureAction,
    GestureRecognizer, PointerEvent,
};
use crate::notify::{notify, Notifier};
use vstd::prelude::*;

verus! {

/// The handle of the installed global listener, if one is installed.
pub struct HookSlot<H> {
    pub handle: Option<H>,
}

/// The slot after a stop, and the handle that the stop must uninstall.
pub open spec fn stopped<H>(slot: HookSlot<H>) -> (HookSlot<H>, Option<H>) {
    (HookSlot { handle: None }, slot.handle)
}

impl<H> HookSlot<H> {
    /// A slot with no listener installed.
    pub fn new() -> (r: HookSlot<H>)
        ensures
            r.handle is None,
    {
        HookSlot { handle: None }
    }

    /// Records a newly installed listener. Returns the handle it replaces,
    /// which the caller must uninstall.
    pub fn install(&mut self, handle: H) -> (replaced: Option<H>)
        ensures
            final(self).handle == Some(handle),
            replaced == old(self).handle,
    {
        let replaced = self.handle.take();
        self.handle = Some(handle);
        replaced
    }

    /// Whether a listener is installed.
    pub fn is_installed(&self) -> (r: bool)
        ensures
            r == self.handle is Some,
    {
        self.handle.is_some()
    }
}

/// Stops the listener: empties the slot and returns the handle to
/// uninstall, none when nothing was installed (then there is nothing to do).
pub fn stop_global_hook<H>(slot: &mut HookSlot<H>) -> (r: Option<H>)
    ensures
        (*final(slot), r) == stopped(*old(slot)),
{
    slot.handle.take()
}

/// Stopping twice in a row tears the listener down once: the second stop
/// finds the slot empty, returns no handle and leaves the slot as it was.
pub proof fn lemma_stop_is_idempotent<H>(slot: HookSlot<H>)
    ensures
        stopped(stopped(slot).0).1 is None,
        stopped(stopped(slot).0).0 == stopped(slot).0,
{
}

/// What routing an event with this action hands to the channel: a
/// `Cleared` for a press, nothing otherwise.
pub open spec fn notice_of(action: GestureAction) -> Seq<EventView> {
    if action is Clear {
        seq![EventView::Cleared]
    } else {
        Seq::empty()
    }
}

/// What routing events with these actions hands to the channel, in order.
pub open spec fn notices(actions: Seq<GestureAction>) -> Seq<EventView>
    decreases actions.len(),
{
    if actions.len() == 0 {
        Seq::empty()
    } else {
        notices(actions.drop_last()) + notice_of(actions.last())
    }
}

/// Routes one raw pointer event: the recognizer takes its transition; a
/// press hands exactly one `SelectionCleared` to the channel before this
/// returns, so before anything can be reported for that press; a release or
/// a move hands nothing over; a completed selection gesture returns the
/// point at which the caller must start an extraction worker. Without a
/// channel nothing is sent and no extraction is asked for.
pub fn route_event(
    recognizer: &mut GestureRecognizer,
    notifier: &mut Option<Notifier>,
    ev: PointerEvent,
) -> (r: Option<(i32, i32)>)
    ensures
        final(recognizer).drag == step(old(recognizer).drag, ev).0,
        (*final(notifier)) is Some == (*old(notifier)) is Some,
        (*old(notifier)) is Some ==> {
            &&& (*final(notifier))->0.sender == (*old(notifier))->0.sender
            &&& (*final(notifier))->0.sent@ == (*old(notifier))->0.sent@ + notice_of(
                step(old(recognizer).drag, ev).1,
            )
        },
        r == (match step(old(recognizer).drag, ev).1 {
            GestureAction::Extract { x, y } => if (*old(notifier)) is Some {
                Some((x, y))
            } else {
                None
            },
            _ => None,
        }),
{
    assert(forall|s: Seq<EventView>| #[trigger] (s + Seq::<EventView>::empty()) == s) by {
        assert forall|s: Seq<EventView>| #[trigger] (s + Seq::<EventView>::empty()) == s by {
            assert(s + Seq::<EventView>::empty() =~= s);
        }
    }
    let action = recognizer.handle(ev);
    match action {
        GestureAction::Clear => {
            if let Some(mut n) = notifier.take() {
                let ghost before = n.sent@;
                let _ = notify(&mut n, AppEvent::SelectionCleared);
                assert(n.sent@ =~= before + seq![EventView::Cleared]);
                *notifier = Some(n);
            }
            None
        },
        GestureAction::Extract { x, y } => {
            if notifier.is_some() {
                Some((x, y))
            } else {
                None
            }
        },
        GestureAction::Ignore => None,
    }
}

/// When a press routes first, it hands exactly one `Cleared` to the
/// channel, and the rest of its gesture hands over nothing.
pub proof fn lemma_gesture_notices_one_clear(actions: Seq<GestureAction>)
    requires
        actions.len() > 0,
        actions[0] is Clear,
        forall|i: int| 0 < i < actions.len() ==> !(#[trigger] actions[i] is Clear),
    ensures
        notices(actions) == seq![EventView::Cleared],
    decreases actions.len(),
{
    if actions.len() == 1 {
        assert(actions.drop_last() =~= Seq::<GestureAction>::empty());
        assert(actions.last() == actions[0]);
        assert(notices(Seq::<GestureAction>::empty()) == Seq::<EventView>::empty());
        assert(Seq::<EventView>::empty() + seq![EventView::Cleared] =~= seq![EventView::Cleared]);
    } else {
        let prefix = actions.drop_last();
        assert forall|i: int| 0 < i < prefix.len() implies !(#[trigger] prefix[i] is Clear) by {
            assert(prefix[i] == actions[i]);
        }
        assert(prefix[0] == actions[0]);
        lemma_gesture_notices_one_clear(prefix);
        assert(actions.last() == actions[actions.len() - 1]);
        assert(notices(prefix) + Seq::<EventView>::empty() =~= notices(prefix));
    }
}

/// Routing one gesture (a press, any moves, a release), from any state,
/// hands exactly one `Cleared` to the channel, at the press.
pub proof fn lemma_gesture_log(drag: Option<DragState>, down: PointerEvent, moves: Seq<PointerEvent>, up: PointerEvent)
    requires
        is_gesture(down, moves, up),
    ensures
        notices(run(drag, gesture_events(down, moves, up)).1) == seq![EventView::Cleared],
{
    lemma_one_gesture(drag, down, moves, up);
    let acts = run(drag, gesture_events(down, moves, up)).1;
    assert forall|i: int| 0 < i < acts.len() implies !(#[trigger] acts[i] is Clear) by {
        if i == acts.len() - 1 {
            assert(acts[i] == acts.last());
        }
    }
    lemma_gesture_notices_one_clear(acts);
}

/// A selection gesture routed event by event, followed by the report of
/// the extraction that its release asks for, leaves on the channel the
/// `Cleared` of its press and after it the `SelectionDetected` of what was
/// found at the release point when that is a selection, and nothing else.
pub proof fn lemma_selection_log(
    drag: Option<DragState>,
    down: PointerEvent,
    moves: Seq<PointerEvent>,
    up: PointerEvent,
    found: Option<Seq<char>>,
)
    requires
        is_gesture(down, moves, up),
        is_selection(press_of(down), up.x, up.y, up.time_ms),
    ensures
        is_found(found) ==> notices(run(drag, gesture_events(down, moves, up)).1) + reported(found, up.x, up.y)
            == seq![EventView::Cleared, EventView::Detected { text: found->0, position: (up.x, up.y) }],
        !is_found(found) ==> notices(run(drag, gesture_events(down, moves, up)).1) + reported(found, up.x, up.y)
            == seq![EventView::Cleared],
{
    lemma_gesture_log(drag, down, moves, up);
    let d = EventView::Detected { text: found->0, position: (up.x, up.y) };
    assert(seq![EventView::Cleared] + seq![d] =~= seq![EventView::Cleared, d]);
    assert(seq![EventView::Cleared] + Seq::<EventView>::empty() =~= seq![EventView::Cleared]);
}

} // verus!
