use gestures::geometry::{center, distance_squared};
use gestures::pinch::{PinchEndData, PinchStartData, PinchUpdateData, PinchUpdatedPointer};
use gestures::pointer::{IncrementalOffsetPointer, InitialPointer, OffsetPointer};
use gestures::sample::{Point, PointerId, PointerSample};

fn sample(id: i32, x: i32, y: i32) -> PointerSample {
    PointerSample {
        pointer_id: id,
        client: Point { x, y },
        page: Point { x, y },
        screen: Point { x, y },
        element: Point { x, y },
        width: 1,
        height: 1,
        pressure: 500,
        tangential_pressure: 0,
        tilt_x: 0,
        tilt_y: 0,
        twist: 0,
        is_primary: true,
        modifiers: 0,
        held_buttons: 0,
    }
}

#[test]
fn center_is_symmetric() {
    let a = Point { x: 3, y: -7 };
    let b = Point { x: 10, y: 4 };
    assert_eq!(center(a, b), center(b, a));
}

#[test]
fn center_exact_values() {
    assert_eq!(center(Point { x: 0, y: 0 }, Point { x: 10, y: 4 }), Point { x: 5, y: 2 });
    // An odd sum rounds toward negative infinity.
    assert_eq!(center(Point { x: 0, y: 0 }, Point { x: 3, y: -3 }), Point { x: 1, y: -2 });
    assert_eq!(center(Point { x: -5, y: -5 }, Point { x: -10, y: 4 }), Point { x: -8, y: -1 });
}

#[test]
fn distance_squared_is_symmetric() {
    let a = Point { x: -2, y: 9 };
    let b = Point { x: 7, y: -1 };
    assert_eq!(distance_squared(a, b), distance_squared(b, a));
}

#[test]
fn distance_squared_exact_values() {
    assert_eq!(distance_squared(Point { x: 0, y: 0 }, Point { x: 3, y: 4 }), 25);
    assert_eq!(distance_squared(Point { x: 1, y: 1 }, Point { x: 1, y: 1 }), 0);
    assert_eq!(
        distance_squared(Point { x: i32::MIN, y: i32::MIN }, Point { x: i32::MAX, y: i32::MAX }),
        2 * (u32::MAX as i128) * (u32::MAX as i128)
    );
}

#[test]
fn pointer_id_equality() {
    let id = PointerId(7);
    assert!(id.is_equal_i32(7));
    assert!(!id.is_equal_i32(8));
    assert_eq!(PointerId::from(3), PointerId(3));
}

#[test]
fn offset_pointer_deltas() {
    let mut first = sample(1, 2, 3);
    let mut last = sample(1, 12, -27);
    first.width = 5;
    last.width = 9;
    first.modifiers = 0b1010;
    last.modifiers = 0b0110;
    first.is_primary = true;
    last.is_primary = false;
    let view = OffsetPointer { initial_data: first, final_data: last };
    let motion = view.offset_movement();
    assert_eq!((motion.x, motion.y), (10, -30));
    assert_eq!(view.offset_width(), 4);
    assert_eq!(view.offset_modifiers(), 0b1100);
    assert!(view.offset_is_primary());
}

#[test]
fn incremental_offset_pointer_deltas() {
    let first = sample(1, 0, 0);
    let mid = sample(1, 4, 4);
    let last = sample(1, 10, 0);
    let view = IncrementalOffsetPointer {
        initial_data: first,
        preceding_data: mid,
        current_data: last,
    };
    let step = view.delta_movement();
    assert_eq!((step.x, step.y), (6, -4));
    let total = view.offset_movement();
    assert_eq!((total.x, total.y), (10, 0));
    assert_eq!(view.delta_pressure(), 0);
    assert_eq!(view.delta_held_buttons(), 0);
}

#[test]
fn pinch_start_data_geometry() {
    let data = PinchStartData {
        first: InitialPointer { data: sample(1, 0, 0) },
        second: InitialPointer { data: sample(2, 10, 4) },
    };
    assert_eq!(data.client_center(), Point { x: 5, y: 2 });
    assert_eq!(data.page_center(), Point { x: 5, y: 2 });
    assert_eq!(data.screen_center(), Point { x: 5, y: 2 });
    assert_eq!(data.element_center(), Point { x: 5, y: 2 });
    assert_eq!(data.distance_squared(), 116);
}

#[test]
fn pinch_end_data_geometry() {
    let data = PinchEndData {
        first: OffsetPointer {
            initial_data: sample(1, 0, 0),
            final_data: sample(1, -6, 0),
        },
        second: OffsetPointer {
            initial_data: sample(2, 8, 0),
            final_data: sample(2, 14, 0),
        },
    };
    assert_eq!(data.start_client_center(), Point { x: 4, y: 0 });
    assert_eq!(data.end_client_center(), Point { x: 4, y: 0 });
    assert_eq!(data.start_distance_squared(), 64);
    assert_eq!(data.end_distance_squared(), 400);
    let motion = data.offset_movement();
    assert_eq!((motion.x, motion.y), (0, 0));
}

#[test]
fn pinch_update_data_geometry() {
    let still = IncrementalOffsetPointer {
        initial_data: sample(2, 10, 0),
        preceding_data: sample(2, 10, 0),
        current_data: sample(2, 10, 0),
    };
    let moved = IncrementalOffsetPointer {
        initial_data: sample(1, 0, 0),
        preceding_data: sample(1, 2, 0),
        current_data: sample(1, 6, 0),
    };
    let data = PinchUpdateData {
        first: moved,
        second: still,
        updated_pointer: PinchUpdatedPointer::First,
    };
    assert_eq!(data.start_client_center(), Point { x: 5, y: 0 });
    assert_eq!(data.preceding_client_center(), Point { x: 6, y: 0 });
    assert_eq!(data.current_client_center(), Point { x: 8, y: 0 });
    assert_eq!(data.start_distance_squared(), 100);
    assert_eq!(data.preceding_distance_squared(), 64);
    assert_eq!(data.current_distance_squared(), 16);
    let step = data.delta_movement();
    assert_eq!((step.x, step.y), (2, 0));
    let total = data.offset_movement();
    assert_eq!((total.x, total.y), (3, 0));
}
