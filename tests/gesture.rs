use popwin::gesture::{
    completes_selection, DragState, GestureAction, GestureRecognizer, PointerEvent, PointerKind,
};

fn ev(kind: PointerKind, x: i32, y: i32, time_ms: u64) -> PointerEvent {
    PointerEvent { kind, x, y, time_ms }
}

#[test]
fn press_asks_for_clear_and_records_the_press() {
    let mut g = GestureRecognizer::new();
    assert_eq!(g.handle(ev(PointerKind::ButtonDown, 100, 100, 0)), GestureAction::Clear);
    assert_eq!(g.drag, Some(DragState { start_x: 100, start_y: 100, start_time: 0 }));
}

#[test]
fn click_in_place_is_no_selection() {
    let mut g = GestureRecognizer::new();
    g.handle(ev(PointerKind::ButtonDown, 100, 100, 0));
    assert_eq!(g.handle(ev(PointerKind::ButtonUp, 100, 100, 50)), GestureAction::Ignore);
    assert_eq!(g.drag, None);
}

#[test]
fn long_far_drag_is_a_selection_at_the_release_point() {
    let mut g = GestureRecognizer::new();
    g.handle(ev(PointerKind::ButtonDown, 100, 100, 0));
    g.handle(ev(PointerKind::Move, 120, 100, 100));
    assert_eq!(
        g.handle(ev(PointerKind::ButtonUp, 140, 100, 250)),
        GestureAction::Extract { x: 140, y: 100 }
    );
    assert_eq!(g.drag, None);
}

#[test]
fn distance_of_exactly_five_is_too_short() {
    let press = DragState { start_x: 0, start_y: 0, start_time: 0 };
    assert!(!completes_selection(press, 3, 4, 500));
    assert!(!completes_selection(press, 5, 0, 500));
    assert!(completes_selection(press, 4, 4, 500));
    assert!(completes_selection(press, 6, 0, 500));
}

#[test]
fn hold_of_exactly_one_hundred_is_too_short() {
    let press = DragState { start_x: 0, start_y: 0, start_time: 1000 };
    assert!(!completes_selection(press, 40, 0, 1100));
    assert!(completes_selection(press, 40, 0, 1101));
}

#[test]
fn clock_going_backwards_counts_as_no_time() {
    let press = DragState { start_x: 0, start_y: 0, start_time: 1000 };
    assert!(!completes_selection(press, 40, 0, 10));
}

#[test]
fn extreme_coordinates_do_not_overflow() {
    let press = DragState { start_x: i32::MIN, start_y: i32::MIN, start_time: 0 };
    assert!(completes_selection(press, i32::MAX, i32::MAX, u64::MAX));
    let press = DragState { start_x: i32::MAX, start_y: i32::MAX, start_time: 0 };
    assert!(!completes_selection(press, i32::MAX, i32::MAX, u64::MAX));
}

#[test]
fn release_without_press_is_ignored() {
    let mut g = GestureRecognizer::new();
    assert_eq!(g.handle(ev(PointerKind::ButtonUp, 140, 100, 250)), GestureAction::Ignore);
}

#[test]
fn second_press_replaces_a_stale_one() {
    let mut g = GestureRecognizer::new();
    g.handle(ev(PointerKind::ButtonDown, 0, 0, 0));
    assert_eq!(g.handle(ev(PointerKind::ButtonDown, 100, 100, 1000)), GestureAction::Clear);
    assert_eq!(g.handle(ev(PointerKind::ButtonUp, 103, 100, 2000)), GestureAction::Ignore);
}

#[test]
fn moves_change_nothing() {
    let mut g = GestureRecognizer::new();
    assert_eq!(g.handle(ev(PointerKind::Move, 5, 5, 5)), GestureAction::Ignore);
    assert_eq!(g.drag, None);
    g.handle(ev(PointerKind::ButtonDown, 1, 2, 3));
    assert_eq!(g.handle(ev(PointerKind::Move, 500, 500, 500)), GestureAction::Ignore);
    assert_eq!(g.drag, Some(DragState { start_x: 1, start_y: 2, start_time: 3 }));
}

#[test]
fn short_pairs_in_a_row_never_extract() {
    let mut g = GestureRecognizer::new();
    let pairs = [((0, 0, 0), (0, 0, 500)), ((10, 10, 1000), (13, 14, 2000)), ((0, 0, 3000), (90, 0, 3100))];
    for ((dx, dy, dt), (ux, uy, ut)) in pairs {
        assert_eq!(g.handle(ev(PointerKind::ButtonDown, dx, dy, dt)), GestureAction::Clear);
        assert_eq!(g.handle(ev(PointerKind::ButtonUp, ux, uy, ut)), GestureAction::Ignore);
    }
}
