//! The gesture recognizer: a two-state machine (idle, pressed) over raw
//! pointer events that decides when a drag-selection has completed.
use vstd::prelude::*;

verus! {

/// The release must lie farther than this from the press, in pixels.
pub const DRAG_THRESHOLD: i32 = 5;

/// The button must be held longer than this, in milliseconds.
pub const DRAG_TIME_THRESHOLD: u64 = 100;

/// What happened to the pointer.
#[derive(Clone, Copy, Debug, PartialEq, Eq, Structural)]
pub enum PointerKind {
    ButtonDown,
    ButtonUp,
    Move,
}

/// One system-wide pointer event: its kind, its screen position and the
/// time it happened at, in milliseconds on a monotonic clock.
#[derive(Clone, Copy, Debug, PartialEq, Eq, Structural)]
pub struct PointerEvent {
    pub kind: PointerKind,
    pub x: i32,
    pub y: i32,
    pub time_ms: u64,
}

/// Where and when the button was pressed.
#[derive(Clone, Copy, Debug, PartialEq, Eq, Structural)]
pub struct DragState {
    pub start_x: i32,
    pub start_y: i32,
    pub start_time: u64,
}

/// What the recognizer asks of its caller after an event.
#[derive(Clone, Copy, Debug, PartialEq, Eq, Structural)]
pub enum GestureAction {
    /// Nothing to do.
    Ignore,
    /// A new press began: any shown selection must be withdrawn.
    Clear,
    /// A selection gesture completed: extract the selected text and report
    /// it at this point.
    Extract { x: i32, y: i32 },
}

/// The recognizer's state: the press in progress, if any.
pub struct GestureRecognizer {
    pub drag: Option<DragState>,
}

/// The press that `ev` starts.
pub open spec fn press_of(ev: PointerEvent) -> DragState {
    DragState { start_x: ev.x, start_y: ev.y, start_time: ev.time_ms }
}

/// The squared Euclidean distance between two points.
pub open spec fn squared_distance(ax: int, ay: int, bx: int, by: int) -> int {
    (bx - ax) * (bx - ax) + (by - ay) * (by - ay)
}

/// The time from `start` to `now`; zero if the clock went backwards.
pub open spec fn elapsed(start: u64, now: u64) -> int {
    if now >= start {
        now - start
    } else {
        0
    }
}

/// Whether a release at (`x`, `y`) at time `t` completes a selection begun
/// by `press`: the distance exceeds `DRAG_THRESHOLD` (compared squared,
/// which is exact for a non-negative distance) and the time held exceeds
/// `DRAG_TIME_THRESHOLD`.
pub open spec fn is_selection(press: DragState, x: i32, y: i32, t: u64) -> bool {
    &&& squared_distance(press.start_x as int, press.start_y as int, x as int, y as int)
        > DRAG_THRESHOLD * DRAG_THRESHOLD
    &&& elapsed(press.start_time, t) > DRAG_TIME_THRESHOLD
}

/// One transition of the recognizer: the next press state and the action.
pub open spec fn step(drag: Option<DragState>, ev: PointerEvent) -> (Option<DragState>, GestureAction) {
    match ev.kind {
        PointerKind::ButtonDown => (Some(press_of(ev)), GestureAction::Clear),
        PointerKind::Move => (drag, GestureAction::Ignore),
        PointerKind::ButtonUp => (
            None,
            match drag {
                Some(press) => if is_selection(press, ev.x, ev.y, ev.time_ms) {
                    GestureAction::Extract { x: ev.x, y: ev.y }
                } else {
                    GestureAction::Ignore
                },
                None => GestureAction::Ignore,
            },
        ),
    }
}

/// The recognizer run over a sequence of events from the state `drag`: the
/// final state and one action per event, in order.
pub open spec fn run(drag: Option<DragState>, evs: Seq<PointerEvent>) -> (Option<DragState>, Seq<GestureAction>)
    decreases evs.len(),
{
    if evs.len() == 0 {
        (drag, Seq::empty())
    } else {
        let (d, acts) = run(drag, evs.drop_last());
        let (next, act) = step(d, evs.last());
        (next, acts.push(act))
    }
}

/// The events of one gesture: a press, some moves, a release.
pub open spec fn gesture_events(down: PointerEvent, moves: Seq<PointerEvent>, up: PointerEvent) -> Seq<PointerEvent> {
    seq![down] + moves + seq![up]
}

/// Whether these events form a gesture: a press, moves only, a release.
pub open spec fn is_gesture(down: PointerEvent, moves: Seq<PointerEvent>, up: PointerEvent) -> bool {
    &&& down.kind == PointerKind::ButtonDown
    &&& forall|i: int| 0 <= i < moves.len() ==> (#[trigger] moves[i]).kind == PointerKind::Move
    &&& up.kind == PointerKind::ButtonUp
}

/// The events of a sequence of gestures, one after the other.
pub open spec fn gestures_events(gs: Seq<(PointerEvent, Seq<PointerEvent>, PointerEvent)>) -> Seq<PointerEvent>
    decreases gs.len(),
{
    if gs.len() == 0 {
        Seq::empty()
    } else {
        gestures_events(gs.drop_last()) + gesture_events(gs.last().0, gs.last().1, gs.last().2)
    }
}

/// Running the recognizer over two stretches of events one after the other
/// is running it over the first, then over the second from where the first
/// left off.
pub proof fn lemma_run_concat(drag: Option<DragState>, a: Seq<PointerEvent>, b: Seq<PointerEvent>)
    ensures
        run(drag, a + b) == (run(run(drag, a).0, b).0, run(drag, a).1 + run(run(drag, a).0, b).1),
    decreases b.len(),
{
    if b.len() == 0 {
        assert(a + b =~= a);
        assert(run(drag, a).1 + Seq::<GestureAction>::empty() =~= run(drag, a).1);
    } else {
        lemma_run_concat(drag, a, b.drop_last());
        assert((a + b).drop_last() =~= a + b.drop_last());
        assert((a + b).last() == b.last());
        let mid = run(drag, a).0;
        let (d, acts) = run(mid, b.drop_last());
        let act = step(d, b.last()).1;
        assert((run(drag, a).1 + acts).push(act) =~= run(drag, a).1 + acts.push(act));
    }
}

/// One gesture from any state: a `Clear` for the press, nothing for each
/// move, and for the release an extraction at its point exactly when the
/// gesture is a selection; the press is over afterwards.
pub proof fn lemma_one_gesture(drag: Option<DragState>, down: PointerEvent, moves: Seq<PointerEvent>, up: PointerEvent)
    requires
        is_gesture(down, moves, up),
    ensures
        ({
            let (d, acts) = run(drag, gesture_events(down, moves, up));
            &&& d is None
            &&& acts.len() == moves.len() + 2
            &&& acts[0] == GestureAction::Clear
            &&& forall|i: int| 0 < i < acts.len() - 1 ==> #[trigger] acts[i] == GestureAction::Ignore
            &&& acts.last() == if is_selection(press_of(down), up.x, up.y, up.time_ms) {
                GestureAction::Extract { x: up.x, y: up.y }
            } else {
                GestureAction::Ignore
            }
        }),
{
    lemma_moves_keep_press(drag, down, moves);
    let evs = gesture_events(down, moves, up);
    assert(evs.drop_last() =~= seq![down] + moves);
    assert(evs.last() == up);
}

/// Gestures none of which is a selection (the release is at the press
/// point, within `DRAG_THRESHOLD` of it, or within `DRAG_TIME_THRESHOLD` of
/// it), with any moves between press and release, never ask for an
/// extraction, whatever the state they start from.
pub proof fn lemma_short_gestures_never_extract(
    drag: Option<DragState>,
    gs: Seq<(PointerEvent, Seq<PointerEvent>, PointerEvent)>,
)
    requires
        forall|i: int|
            0 <= i < gs.len() ==> {
                let (down, moves, up) = #[trigger] gs[i];
                &&& is_gesture(down, moves, up)
                &&& !is_selection(press_of(down), up.x, up.y, up.time_ms)
            },
    ensures
        gs.len() > 0 ==> run(drag, gestures_events(gs)).0 is None,
        forall|j: int|
            0 <= j < run(drag, gestures_events(gs)).1.len() ==> !(#[trigger] run(
                drag,
                gestures_events(gs),
            ).1[j] is Extract),
    decreases gs.len(),
{
    if gs.len() > 0 {
        let prefix = gs.drop_last();
        assert forall|i: int| 0 <= i < prefix.len() implies {
            let (down, moves, up) = #[trigger] prefix[i];
            &&& is_gesture(down, moves, up)
            &&& !is_selection(press_of(down), up.x, up.y, up.time_ms)
        } by {
            assert(prefix[i] == gs[i]);
        }
        lemma_short_gestures_never_extract(drag, prefix);
        assert(gs.last() == gs[gs.len() - 1]);
        let (down, moves, up) = gs.last();
        let a = gestures_events(prefix);
        let b = gesture_events(down, moves, up);
        lemma_one_gesture(run(drag, a).0, down, moves, up);
        lemma_run_concat(drag, a, b);
        let first = run(drag, a).1;
        let second = run(run(drag, a).0, b).1;
        let all = run(drag, gestures_events(gs)).1;
        assert(gestures_events(gs) == a + b);
        assert(all == first + second);
        assert forall|j: int| 0 <= j < all.len() implies !(#[trigger] all[j] is Extract) by {
            if j < first.len() {
                assert(all[j] == first[j]);
            } else {
                let k = j - first.len();
                assert(all[j] == second[k]);
                if k == second.len() - 1 {
                    assert(second[k] == second.last());
                }
            }
        }
    }
}

/// A press, any number of moves, and a release that completes a selection
/// ask first for a `Clear`, then for nothing during the moves, and last for
/// exactly one extraction at the release point, whatever the state they
/// start from.
pub proof fn lemma_selection_extracts_once_after_clear(
    drag: Option<DragState>,
    down: PointerEvent,
    moves: Seq<PointerEvent>,
    up: PointerEvent,
)
    requires
        is_gesture(down, moves, up),
        is_selection(press_of(down), up.x, up.y, up.time_ms),
    ensures
        ({
            let acts = run(drag, gesture_events(down, moves, up)).1;
            &&& acts.len() == moves.len() + 2
            &&& acts[0] == GestureAction::Clear
            &&& forall|i: int| 0 < i < acts.len() - 1 ==> #[trigger] acts[i] == GestureAction::Ignore
            &&& acts.last() == (GestureAction::Extract { x: up.x, y: up.y })
        }),
{
    lemma_one_gesture(drag, down, moves, up);
}

/// After a press and some moves, the press is still held and the actions
/// are a `Clear` followed by one `Ignore` per move.
proof fn lemma_moves_keep_press(drag: Option<DragState>, down: PointerEvent, moves: Seq<PointerEvent>)
    requires
        down.kind == PointerKind::ButtonDown,
        forall|i: int| 0 <= i < moves.len() ==> (#[trigger] moves[i]).kind == PointerKind::Move,
    ensures
        run(drag, seq![down] + moves).0 == Some(press_of(down)),
        run(drag, seq![down] + moves).1.len() == moves.len() + 1,
        run(drag, seq![down] + moves).1[0] == GestureAction::Clear,
        forall|i: int|
            0 < i < moves.len() + 1 ==> #[trigger] run(drag, seq![down] + moves).1[i]
                == GestureAction::Ignore,
    decreases moves.len(),
{
    let evs = seq![down] + moves;
    if moves.len() == 0 {
        assert(evs =~= seq![down]);
        assert(evs.drop_last() =~= Seq::<PointerEvent>::empty());
        reveal_with_fuel(run, 2);
    } else {
        let prefix = moves.drop_last();
        assert forall|i: int| 0 <= i < prefix.len() implies (#[trigger] prefix[i]).kind
            == PointerKind::Move by {
            assert(prefix[i] == moves[i]);
        }
        lemma_moves_keep_press(drag, down, prefix);
        assert(evs.drop_last() =~= seq![down] + prefix);
        assert(evs.last() == moves[moves.len() - 1]);
    }
}

/// Whether a release at (`x`, `y`) at time `now` completes the selection
/// begun by `press`.
pub fn completes_selection(press: DragState, x: i32, y: i32, now: u64) -> (r: bool)
    ensures
        r == is_selection(press, x, y, now),
{
    let dx: i128 = x as i128 - press.start_x as i128;
    let dy: i128 = y as i128 - press.start_y as i128;
    assert(0 <= dx * dx <= 0x1_0000_0000 * 0x1_0000_0000) by (nonlinear_arith)
        requires
            -0x1_0000_0000 <= dx <= 0x1_0000_0000,
    ;
    assert(0 <= dy * dy <= 0x1_0000_0000 * 0x1_0000_0000) by (nonlinear_arith)
        requires
            -0x1_0000_0000 <= dy <= 0x1_0000_0000,
    ;
    let squared: i128 = dx * dx + dy * dy;
    let held: u64 = if now >= press.start_time {
        now - press.start_time
    } else {
        0
    };
    squared > (DRAG_THRESHOLD as i128) * (DRAG_THRESHOLD as i128) && held > DRAG_TIME_THRESHOLD
}

impl GestureRecognizer {
    /// A recognizer with no press in progress.
    pub fn new() -> (r: GestureRecognizer)
        ensures
            r.drag is None,
    {
        GestureRecognizer { drag: None }
    }

    /// Feeds one pointer event to the recognizer. A press records its point
    /// and time (replacing a stale one) and asks for a `Clear`; a release
    /// ends the press and asks for an extraction at its own point when the
    /// gesture was long and far enough; a move changes nothing.
    pub fn handle(&mut self, ev: PointerEvent) -> (r: GestureAction)
        ensures
            (final(self).drag, r) == step(old(self).drag, ev),
    {
        match ev.kind {
            PointerKind::ButtonDown => {
                self.drag = Some(DragState { start_x: ev.x, start_y: ev.y, start_time: ev.time_ms });
                GestureAction::Clear
            },
            PointerKind::Move => GestureAction::Ignore,
            PointerKind::ButtonUp => {
                let action = match self.drag {
                    Some(press) => if completes_selection(press, ev.x, ev.y, ev.time_ms) {
                        GestureAction::Extract { x: ev.x, y: ev.y }
                    } else {
                        GestureAction::Ignore
                    },
                    None => GestureAction::Ignore,
                };
                self.drag = None;
                action
            },
        }
    }
}

} // verus!
