use gestures::down_pointer::{DownPointerGestureState, GestureEvent, GesturePhase};
use gestures::drag::{DefaultDragThreshold, ImmediateDragThreshold};
use gestures::events::PointerEventKind;
use gestures::hover::{HoverEvent, HoverGestureState};
use gestures::pinch::{DefaultPinchThreshold, ImmediatePinchThreshold, PinchUpdatedPointer};
use gestures::sample::{Point, PointerSample};
use gestures::options::UseGesturesOptions;
use gestures::state::UseGesturesState;

fn sample(id: i32, x: i32, y: i32) -> PointerSample {
    PointerSample {
        pointer_id: id,
        client: Point { x, y },
        page: Point { x, y },
        screen: Point { x, y },
        element: Point { x, y },
        width: 1,
        height: 1,
        pressure: 500,
        tangential_pressure: 0,
        tilt_x: 0,
        tilt_y: 0,
        twist: 0,
        is_primary: true,
        modifiers: 0,
        held_buttons: 0,
    }
}

fn default_machine() -> DownPointerGestureState<DefaultDragThreshold, DefaultPinchThreshold> {
    DownPointerGestureState::new(DefaultDragThreshold, DefaultPinchThreshold)
}

#[test]
fn hover_session_counts() {
    // Three distinct pointers enter, then all leave in a different
    // order: one hover-start, one hover-end, three appear/disappear
    // pairs, nothing else.
    let mut hover = HoverGestureState::new();
    let mut fired: Vec<HoverEvent> = Vec::new();
    for id in [1, 2, 3] {
        fired.extend(hover.on_pointer_event(PointerEventKind::Enter, sample(id, 0, 0)));
    }
    for id in [2, 3, 1] {
        fired.extend(hover.on_pointer_event(PointerEventKind::Leave, sample(id, 0, 0)));
    }
    let starts = fired.iter().filter(|e| matches!(e, HoverEvent::Start)).count();
    let ends = fired.iter().filter(|e| matches!(e, HoverEvent::End)).count();
    let appears = fired.iter().filter(|e| matches!(e, HoverEvent::PointerAppear(_))).count();
    let disappears = fired.iter().filter(|e| matches!(e, HoverEvent::PointerDisappear(_))).count();
    assert_eq!((starts, ends, appears, disappears), (1, 1, 3, 3));
    assert_eq!(fired.len(), 8);
    assert!(hover.pointers.is_empty());
}

#[test]
fn hover_start_fires_before_first_appear() {
    let mut hover = HoverGestureState::new();
    let fired = hover.on_pointer_event(PointerEventKind::Enter, sample(1, 0, 0));
    assert_eq!(fired.len(), 2);
    assert!(matches!(fired[0], HoverEvent::Start));
    assert!(matches!(fired[1], HoverEvent::PointerAppear(_)));
}

#[test]
fn hover_update_carries_all_three_samples() {
    let mut hover = HoverGestureState::new();
    hover.on_pointer_event(PointerEventKind::Enter, sample(1, 0, 0));
    hover.on_pointer_event(PointerEventKind::Move, sample(1, 2, 2));
    let fired = hover.on_pointer_event(PointerEventKind::Move, sample(1, 5, 5));
    assert_eq!(fired.len(), 1);
    match &fired[0] {
        HoverEvent::PointerUpdate(data) => {
            assert_eq!(data.pointer.initial_data.client, Point { x: 0, y: 0 });
            assert_eq!(data.pointer.preceding_data.client, Point { x: 2, y: 2 });
            assert_eq!(data.pointer.current_data.client, Point { x: 5, y: 5 });
        },
        other => panic!("expected a pointer update, got {:?}", other),
    }
}

#[test]
fn hover_up_and_out_remove_the_track() {
    let mut hover = HoverGestureState::new();
    hover.on_pointer_event(PointerEventKind::Enter, sample(1, 0, 0));
    let fired = hover.on_pointer_event(PointerEventKind::Up, sample(1, 1, 1));
    assert!(matches!(fired[0], HoverEvent::PointerDisappear(_)));
    assert!(matches!(fired[1], HoverEvent::End));
    assert!(hover.pointers.is_empty());

    hover.on_pointer_event(PointerEventKind::Enter, sample(2, 0, 0));
    let fired = hover.on_pointer_event(PointerEventKind::Out, sample(2, 1, 1));
    assert!(matches!(fired[0], HoverEvent::PointerDisappear(_)));
    assert!(matches!(fired[1], HoverEvent::End));
    assert!(hover.pointers.is_empty());
}

#[test]
fn hover_cancel_fires_cancel_variants() {
    let mut hover = HoverGestureState::new();
    hover.on_pointer_event(PointerEventKind::Enter, sample(1, 0, 0));
    hover.on_pointer_event(PointerEventKind::Enter, sample(2, 0, 0));
    let fired = hover.on_pointer_event(PointerEventKind::Cancel, sample(1, 1, 1));
    assert_eq!(fired.len(), 1);
    assert!(matches!(fired[0], HoverEvent::PointerCancel(_)));
    let fired = hover.on_pointer_event(PointerEventKind::Cancel, sample(2, 1, 1));
    assert_eq!(fired.len(), 2);
    assert!(matches!(fired[0], HoverEvent::PointerCancel(_)));
    assert!(matches!(fired[1], HoverEvent::Cancel));
}

#[test]
fn hover_over_is_inert() {
    let mut hover = HoverGestureState::new();
    let fired = hover.on_pointer_event(PointerEventKind::Over, sample(1, 0, 0));
    assert!(fired.is_empty());
    assert!(hover.pointers.is_empty());
}

#[test]
fn hover_unknown_id_removal_is_ignored() {
    let mut hover = HoverGestureState::new();
    hover.on_pointer_event(PointerEventKind::Enter, sample(1, 0, 0));
    for kind in [
        PointerEventKind::Up,
        PointerEventKind::Out,
        PointerEventKind::Leave,
        PointerEventKind::Cancel,
    ] {
        let fired = hover.on_pointer_event(kind, sample(99, 0, 0));
        assert!(fired.is_empty());
        assert_eq!(hover.pointers.len(), 1);
    }
}

#[test]
fn drag_starts_exactly_once_and_never_reverts() {
    let mut machine = default_machine();
    assert!(machine.add_or_update(sample(1, 0, 0)).is_empty());

    // Below the 5-unit threshold: still pending, nothing fires.
    assert!(machine.update(sample(1, 3, 0)).is_empty());
    assert_eq!(machine.phase, GesturePhase::Pending);

    // Crossing the threshold: exactly one drag-start with the initial sample.
    let fired = machine.update(sample(1, 5, 0));
    assert_eq!(fired.len(), 1);
    match &fired[0] {
        GestureEvent::DragStart(data) => {
            assert_eq!(data.pointer.data.client, Point { x: 0, y: 0 });
        },
        other => panic!("expected a drag start, got {:?}", other),
    }
    assert_eq!(machine.phase, GesturePhase::Active);

    // Later moves fire drag-update, even back under the threshold.
    let fired = machine.update(sample(1, 6, 0));
    assert!(matches!(fired[0], GestureEvent::DragUpdate(_)));
    let fired = machine.update(sample(1, 1, 0));
    assert_eq!(fired.len(), 1);
    match &fired[0] {
        GestureEvent::DragUpdate(data) => {
            assert_eq!(data.pointer.preceding_data.client, Point { x: 6, y: 0 });
            assert_eq!(data.pointer.current_data.client, Point { x: 1, y: 0 });
        },
        other => panic!("expected a drag update, got {:?}", other),
    }
    assert_eq!(machine.phase, GesturePhase::Active);
}

#[test]
fn drag_end_on_release_and_pending_release_is_silent() {
    let mut machine = default_machine();
    machine.add_or_update(sample(1, 0, 0));
    machine.update(sample(1, 10, 0));
    let fired = machine.remove(sample(1, 11, 0));
    assert_eq!(fired.len(), 1);
    match &fired[0] {
        GestureEvent::DragEnd(data) => {
            assert_eq!(data.pointer.initial_data.client, Point { x: 0, y: 0 });
            assert_eq!(data.pointer.final_data.client, Point { x: 11, y: 0 });
        },
        other => panic!("expected a drag end, got {:?}", other),
    }
    assert!(machine.pointers.is_empty());

    // A pending drag releases without any event.
    machine.add_or_update(sample(2, 0, 0));
    machine.update(sample(2, 2, 0));
    assert!(machine.remove(sample(2, 2, 0)).is_empty());
}

#[test]
fn drag_cancel_fires_cancel_variant() {
    let mut machine = default_machine();
    machine.add_or_update(sample(1, 0, 0));
    machine.update(sample(1, 10, 0));
    let fired = machine.cancel(sample(1, 10, 0));
    assert_eq!(fired.len(), 1);
    assert!(matches!(fired[0], GestureEvent::DragCancel(_)));
}

#[test]
fn second_press_hands_off_drag_to_pinch() {
    let mut machine = default_machine();
    machine.add_or_update(sample(1, 0, 0));
    machine.update(sample(1, 10, 0));
    assert_eq!(machine.phase, GesturePhase::Active);

    // The second press fires exactly one drag-end; pinch starts pending
    // from a zero-displacement baseline.
    let fired = machine.add_or_update(sample(2, 20, 0));
    assert_eq!(fired.len(), 1);
    match &fired[0] {
        GestureEvent::DragEnd(data) => {
            assert_eq!(data.pointer.initial_data.client, Point { x: 0, y: 0 });
            assert_eq!(data.pointer.final_data.client, Point { x: 20, y: 0 });
        },
        other => panic!("expected a drag end, got {:?}", other),
    }
    assert_eq!(machine.phase, GesturePhase::Pending);

    // Below the threshold from the fresh baseline: nothing fires.
    assert!(machine.update(sample(1, 12, 0)).is_empty());

    // Crossing it fires pinch-start with both pointers' initial samples.
    let fired = machine.update(sample(1, 17, 0));
    assert_eq!(fired.len(), 1);
    match &fired[0] {
        GestureEvent::PinchStart(data) => {
            assert_eq!(data.first.data.client, Point { x: 10, y: 0 });
            assert_eq!(data.second.data.client, Point { x: 20, y: 0 });
        },
        other => panic!("expected a pinch start, got {:?}", other),
    }
}

#[test]
fn pinch_release_rearms_drag_from_current_position() {
    let mut machine = default_machine();
    machine.add_or_update(sample(1, 0, 0));
    machine.add_or_update(sample(2, 20, 0));
    machine.update(sample(1, 10, 0));
    assert_eq!(machine.phase, GesturePhase::Active);

    // Releasing one of two active pinch pointers fires exactly one
    // pinch-end, keyed by the released pointer's former slot.
    let fired = machine.remove(sample(2, 21, 0));
    assert_eq!(fired.len(), 1);
    match &fired[0] {
        GestureEvent::PinchEnd(data) => {
            assert_eq!(data.first.initial_data.client, Point { x: 0, y: 0 });
            assert_eq!(data.first.final_data.client, Point { x: 10, y: 0 });
            assert_eq!(data.second.initial_data.client, Point { x: 20, y: 0 });
            assert_eq!(data.second.final_data.client, Point { x: 21, y: 0 });
        },
        other => panic!("expected a pinch end, got {:?}", other),
    }

    // The drag re-armed from the retained pointer's current position.
    assert_eq!(machine.phase, GesturePhase::Pending);
    assert_eq!(machine.pointers.len(), 1);
    assert_eq!(machine.pointers[0].initial.client, Point { x: 10, y: 0 });
    assert_eq!(machine.pointers[0].current.client, Point { x: 10, y: 0 });

    // A small move stays pending; crossing the threshold from the new
    // baseline fires drag-start there.
    assert!(machine.update(sample(1, 12, 0)).is_empty());
    let fired = machine.update(sample(1, 16, 0));
    assert_eq!(fired.len(), 1);
    match &fired[0] {
        GestureEvent::DragStart(data) => {
            assert_eq!(data.pointer.data.client, Point { x: 10, y: 0 });
        },
        other => panic!("expected a drag start, got {:?}", other),
    }
}

#[test]
fn immediate_predicates_start_at_the_baseline() {
    // A custom drag predicate that is true at zero displacement makes
    // drag-start fire at the press, and again right after a pinch ends.
    let mut machine = DownPointerGestureState::new(ImmediateDragThreshold, ImmediatePinchThreshold);
    let fired = machine.add_or_update(sample(1, 0, 0));
    assert_eq!(fired.len(), 1);
    assert!(matches!(fired[0], GestureEvent::DragStart(_)));

    // The second press ends the drag and starts the pinch immediately.
    let fired = machine.add_or_update(sample(2, 8, 0));
    assert_eq!(fired.len(), 2);
    assert!(matches!(fired[0], GestureEvent::DragEnd(_)));
    assert!(matches!(fired[1], GestureEvent::PinchStart(_)));

    // Releasing one pointer ends the pinch and re-starts the drag.
    let fired = machine.remove(sample(2, 8, 0));
    assert_eq!(fired.len(), 2);
    assert!(matches!(fired[0], GestureEvent::PinchEnd(_)));
    assert!(matches!(fired[1], GestureEvent::DragStart(_)));
}

#[test]
fn identical_moves_keep_the_distance_and_report_the_step() {
    // Both pointers press at the origin, the pinch is active from the
    // baseline, then each moves to (10, 0): two pinch-updates, the
    // current distance stays zero, and the update for the first pointer
    // reports a step of (10, 0).
    let mut machine = DownPointerGestureState::new(DefaultDragThreshold, ImmediatePinchThreshold);
    machine.add_or_update(sample(1, 0, 0));
    machine.add_or_update(sample(2, 0, 0));
    assert_eq!(machine.phase, GesturePhase::Active);

    let first_update = machine.update(sample(1, 10, 0));
    let second_update = machine.update(sample(2, 10, 0));
    assert_eq!(first_update.len(), 1);
    assert_eq!(second_update.len(), 1);
    match &first_update[0] {
        GestureEvent::PinchUpdate(data) => {
            assert!(matches!(data.updated_pointer, PinchUpdatedPointer::First));
            let step = data.first.delta_movement();
            assert_eq!((step.x, step.y), (10, 0));
        },
        other => panic!("expected a pinch update, got {:?}", other),
    }
    match &second_update[0] {
        GestureEvent::PinchUpdate(data) => {
            assert!(matches!(data.updated_pointer, PinchUpdatedPointer::Second));
            assert_eq!(data.current_distance_squared(), 0);
        },
        other => panic!("expected a pinch update, got {:?}", other),
    }
}

#[test]
fn third_press_ends_the_pinch_and_gets_no_gesture() {
    let mut machine = default_machine();
    machine.add_or_update(sample(1, 0, 0));
    machine.add_or_update(sample(2, 10, 0));
    let fired = machine.add_or_update(sample(3, 20, 0));
    assert_eq!(fired.len(), 1);
    match &fired[0] {
        GestureEvent::PinchEnd(data) => {
            assert_eq!(data.first.initial_data.pointer_id, 1);
            assert_eq!(data.second.initial_data.pointer_id, 2);
        },
        other => panic!("expected a pinch end, got {:?}", other),
    }
    assert_eq!(machine.pointers.len(), 3);

    // A fourth press and moves of the third pointer are inert.
    assert!(machine.add_or_update(sample(4, 30, 0)).is_empty());
    assert!(machine.update(sample(3, 40, 0)).is_empty());
}

#[test]
fn releasing_down_to_two_rearms_the_pinch() {
    let mut machine = default_machine();
    machine.add_or_update(sample(1, 0, 0));
    machine.add_or_update(sample(2, 10, 0));
    machine.add_or_update(sample(3, 20, 0));
    // Dropping back to two pointers re-arms the pinch from both current
    // positions; with the default predicate nothing fires yet.
    assert!(machine.remove(sample(3, 20, 0)).is_empty());
    assert_eq!(machine.phase, GesturePhase::Pending);
    let fired = machine.update(sample(1, 5, 0));
    assert_eq!(fired.len(), 1);
    assert!(matches!(fired[0], GestureEvent::PinchStart(_)));
}

#[test]
fn down_machine_ignores_unknown_ids_and_inert_kinds() {
    let mut machine = default_machine();
    machine.add_or_update(sample(1, 0, 0));
    for kind in [
        PointerEventKind::Over,
        PointerEventKind::Enter,
        PointerEventKind::Move,
        PointerEventKind::Up,
        PointerEventKind::Out,
        PointerEventKind::Leave,
        PointerEventKind::Cancel,
    ] {
        let fired = machine.on_pointer_event(kind, sample(99, 50, 50));
        assert!(fired.is_empty());
        assert_eq!(machine.pointers.len(), 1);
        assert_eq!(machine.phase, GesturePhase::Pending);
    }
}

#[test]
fn pinch_cancel_fires_cancel_variant_and_rearms() {
    let mut machine = default_machine();
    machine.add_or_update(sample(1, 0, 0));
    machine.add_or_update(sample(2, 10, 0));
    machine.update(sample(1, 5, 5));
    assert_eq!(machine.phase, GesturePhase::Active);
    let fired = machine.cancel(sample(1, 5, 5));
    assert_eq!(fired.len(), 1);
    assert!(matches!(fired[0], GestureEvent::PinchCancel(_)));
    assert_eq!(machine.pointers.len(), 1);
    assert_eq!(machine.pointers[0].initial, machine.pointers[0].current);
}

#[test]
fn router_dispatches_hover_then_gestures() {
    let mut engine = UseGesturesState::new(DefaultDragThreshold, DefaultPinchThreshold);
    assert_eq!(engine.target_unique_id.len(), 21);

    let fired = engine.on_pointer_event(PointerEventKind::Down, sample(1, 0, 0));
    assert_eq!(fired.hover.len(), 2);
    assert!(matches!(fired.hover[0], HoverEvent::Start));
    assert!(matches!(fired.hover[1], HoverEvent::PointerAppear(_)));
    assert!(fired.gesture.is_empty());

    let fired = engine.on_pointer_event(PointerEventKind::Move, sample(1, 10, 0));
    assert_eq!(fired.hover.len(), 1);
    assert!(matches!(fired.hover[0], HoverEvent::PointerUpdate(_)));
    assert_eq!(fired.gesture.len(), 1);
    assert!(matches!(fired.gesture[0], GestureEvent::DragStart(_)));
}

#[test]
fn generated_target_ids_have_fixed_length() {
    let first = UseGesturesState::new(DefaultDragThreshold, DefaultPinchThreshold);
    let second = UseGesturesState::new(DefaultDragThreshold, DefaultPinchThreshold);
    assert_eq!(first.target_unique_id.len(), 21);
    assert_eq!(second.target_unique_id.len(), 21);
    assert!(first.target_unique_id.chars().all(|c| c.is_ascii_alphanumeric() || c == '_' || c == '-'));
}

#[test]
fn options_builders_replace_their_fields() {
    let options = UseGesturesOptions::default();
    assert_eq!(options.target_id_attribute_name, "data-gestures-id");
    assert!(options.target_id.is_none());
    let options = options
        .target_id_attribute_name("data-my-target")
        .target_id(String::from("target-7"));
    assert_eq!(options.target_id_attribute_name, "data-my-target");
    assert_eq!(options.target_id.as_deref(), Some("target-7"));
}
