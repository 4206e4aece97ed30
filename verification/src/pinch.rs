//! The pinch gesture: exactly two pressed pointers, threshold gated.

use vstd::prelude::*;

use crate::drag::DEFAULT_THRESHOLD_SQUARED;
use crate::geometry::{center, distance_squared, spec_center, spec_distance_squared};
use crate::pointer::{IncrementalOffsetPointer, InitialPointer, OffsetPointer, Vector2};
use crate::sample::{Point, PointerSample};

verus! {

/// Decides when a two-pointer gesture leaves the pending phase.
///
/// The predicate is consulted with both pointers' initial and current
/// samples, only while the pinch is pending; once active a pinch never
/// reverts. Implementations carry the mathematical meaning of their
/// decision as a specification function.
pub trait PinchThreshold: Sized {
    /// What the predicate decides, as a mathematical function.
    spec fn pinch_started_spec(
        &self,
        first_initial: PointerSample,
        first_current: PointerSample,
        second_initial: PointerSample,
        second_current: PointerSample,
    ) -> bool;

    /// Evaluates the predicate on both pointers' initial and current
    /// samples.
    fn pinch_started(
        &self,
        first_initial: &PointerSample,
        first_current: &PointerSample,
        second_initial: &PointerSample,
        second_current: &PointerSample,
    ) -> (r: bool)
        ensures
            r == self.pinch_started_spec(
                *first_initial,
                *first_current,
                *second_initial,
                *second_current,
            ),
    ;
}

/// The default pinch criterion: either pointer's own displacement is at
/// least 5 units in client space.
pub open spec fn default_pinch_started(
    first_initial: PointerSample,
    first_current: PointerSample,
    second_initial: PointerSample,
    second_current: PointerSample,
) -> bool {
    spec_distance_squared(first_initial.client, first_current.client) >= DEFAULT_THRESHOLD_SQUARED
        || spec_distance_squared(second_initial.client, second_current.client)
        >= DEFAULT_THRESHOLD_SQUARED
}

/// The default pinch threshold, deciding by `default_pinch_started`.
#[derive(Clone, Copy, PartialEq, Eq, Structural, Debug)]
pub struct DefaultPinchThreshold;

impl PinchThreshold for DefaultPinchThreshold {
    open spec fn pinch_started_spec(
        &self,
        first_initial: PointerSample,
        first_current: PointerSample,
        second_initial: PointerSample,
        second_current: PointerSample,
    ) -> bool {
        default_pinch_started(first_initial, first_current, second_initial, second_current)
    }

    fn pinch_started(
        &self,
        first_initial: &PointerSample,
        first_current: &PointerSample,
        second_initial: &PointerSample,
        second_current: &PointerSample,
    ) -> (r: bool) {
        distance_squared(first_initial.client, first_current.client) >= DEFAULT_THRESHOLD_SQUARED
            || distance_squared(second_initial.client, second_current.client)
            >= DEFAULT_THRESHOLD_SQUARED
    }
}

/// A pinch threshold that is already met at the baseline: the pinch
/// becomes active, and pinch-start fires, as soon as two pointers govern
/// the slots — even at zero displacement.
#[derive(Clone, Copy, PartialEq, Eq, Structural, Debug)]
pub struct ImmediatePinchThreshold;

impl PinchThreshold for ImmediatePinchThreshold {
    open spec fn pinch_started_spec(
        &self,
        first_initial: PointerSample,
        first_current: PointerSample,
        second_initial: PointerSample,
        second_current: PointerSample,
    ) -> bool {
        true
    }

    fn pinch_started(
        &self,
        first_initial: &PointerSample,
        first_current: &PointerSample,
        second_initial: &PointerSample,
        second_current: &PointerSample,
    ) -> (r: bool) {
        true
    }
}

/// Which of the two pinch slots a pinch-update reports as changed.
#[derive(Clone, Copy, PartialEq, Eq, Structural, Debug)]
pub enum PinchUpdatedPointer {
    First,
    Second,
}

/// Payload of a pinch-start event: both pointers at their initial samples.
#[derive(Clone, Copy, PartialEq, Eq, Structural, Debug)]
pub struct PinchStartData {
    pub first: InitialPointer,
    pub second: InitialPointer,
}

/// The displacement between two points, coordinate-wise.
fn point_difference(a: Point, b: Point) -> (r: Vector2)
    ensures
        r.x == a.x - b.x,
        r.y == a.y - b.y,
{
    Vector2 { x: a.x as i64 - b.x as i64, y: a.y as i64 - b.y as i64 }
}

impl PinchStartData {
    /// The client-space midpoint of the two pointers at pinch start.
    pub fn client_center(&self) -> (r: Point)
        ensures
            r == spec_center(self.first.data.client, self.second.data.client),
    {
        center(self.first.data.client, self.second.data.client)
    }

    /// The screen-space midpoint of the two pointers at pinch start.
    pub fn screen_center(&self) -> (r: Point)
        ensures
            r == spec_center(self.first.data.screen, self.second.data.screen),
    {
        center(self.first.data.screen, self.second.data.screen)
    }

    /// The page-space midpoint of the two pointers at pinch start.
    pub fn page_center(&self) -> (r: Point)
        ensures
            r == spec_center(self.first.data.page, self.second.data.page),
    {
        center(self.first.data.page, self.second.data.page)
    }

    /// The element-space midpoint of the two pointers at pinch start.
    pub fn element_center(&self) -> (r: Point)
        ensures
            r == spec_center(self.first.data.element, self.second.data.element),
    {
        center(self.first.data.element, self.second.data.element)
    }

    /// The squared client-space distance between the two pointers at
    /// pinch start.
    pub fn distance_squared(&self) -> (r: i128)
        ensures
            r == spec_distance_squared(self.first.data.client, self.second.data.client),
    {
        distance_squared(self.first.data.client, self.second.data.client)
    }
}

/// Payload of a pinch-update event: both pointers' incremental views and
/// the slot that moved. Only the moved slot's current sample differs from
/// its preceding sample.
#[derive(Clone, Copy, PartialEq, Eq, Structural, Debug)]
pub struct PinchUpdateData {
    pub first: IncrementalOffsetPointer,
    pub second: IncrementalOffsetPointer,
    pub updated_pointer: PinchUpdatedPointer,
}

impl PinchUpdateData {
    /// The client-space midpoint of the two initial samples.
    pub fn start_client_center(&self) -> (r: Point)
        ensures
            r == spec_center(self.first.initial_data.client, self.second.initial_data.client),
    {
        center(self.first.initial_data.client, self.second.initial_data.client)
    }

    /// The screen-space midpoint of the two initial samples.
    pub fn start_screen_center(&self) -> (r: Point)
        ensures
            r == spec_center(self.first.initial_data.screen, self.second.initial_data.screen),
    {
        center(self.first.initial_data.screen, self.second.initial_data.screen)
    }

    /// The page-space midpoint of the two initial samples.
    pub fn start_page_center(&self) -> (r: Point)
        ensures
            r == spec_center(self.first.initial_data.page, self.second.initial_data.page),
    {
        center(self.first.initial_data.page, self.second.initial_data.page)
    }

    /// The element-space midpoint of the two initial samples.
    pub fn start_element_center(&self) -> (r: Point)
        ensures
            r == spec_center(self.first.initial_data.element, self.second.initial_data.element),
    {
        center(self.first.initial_data.element, self.second.initial_data.element)
    }

    /// The squared client-space distance between the two initial samples.
    pub fn start_distance_squared(&self) -> (r: i128)
        ensures
            r == spec_distance_squared(
                self.first.initial_data.client,
                self.second.initial_data.client,
            ),
    {
        distance_squared(self.first.initial_data.client, self.second.initial_data.client)
    }

    /// The client-space midpoint of the two preceding samples.
    pub fn preceding_client_center(&self) -> (r: Point)
        ensures
            r == spec_center(self.first.preceding_data.client, self.second.preceding_data.client),
    {
        center(self.first.preceding_data.client, self.second.preceding_data.client)
    }

    /// The screen-space midpoint of the two preceding samples.
    pub fn preceding_screen_center(&self) -> (r: Point)
        ensures
            r == spec_center(self.first.preceding_data.screen, self.second.preceding_data.screen),
    {
        center(self.first.preceding_data.screen, self.second.preceding_data.screen)
    }

    /// The page-space midpoint of the two preceding samples.
    pub fn preceding_page_center(&self) -> (r: Point)
        ensures
            r == spec_center(self.first.preceding_data.page, self.second.preceding_data.page),
    {
        center(self.first.preceding_data.page, self.second.preceding_data.page)
    }

    /// The element-space midpoint of the two preceding samples.
    pub fn preceding_element_center(&self) -> (r: Point)
        ensures
            r == spec_center(
                self.first.preceding_data.element,
                self.second.preceding_data.element,
            ),
    {
        center(self.first.preceding_data.element, self.second.preceding_data.element)
    }

    /// The squared client-space distance between the two preceding
    /// samples.
    pub fn preceding_distance_squared(&self) -> (r: i128)
        ensures
            r == spec_distance_squared(
                self.first.preceding_data.client,
                self.second.preceding_data.client,
            ),
    {
        distance_squared(self.first.preceding_data.client, self.second.preceding_data.client)
    }

    /// The client-space midpoint of the two current samples.
    pub fn current_client_center(&self) -> (r: Point)
        ensures
            r == spec_center(self.first.current_data.client, self.second.current_data.client),
    {
        center(self.first.current_data.client, self.second.current_data.client)
    }

    /// The screen-space midpoint of the two current samples.
    pub fn current_screen_center(&self) -> (r: Point)
        ensures
            r == spec_center(self.first.current_data.screen, self.second.current_data.screen),
    {
        center(self.first.current_data.screen, self.second.current_data.screen)
    }

    /// The page-space midpoint of the two current samples.
    pub fn current_page_center(&self) -> (r: Point)
        ensures
            r == spec_center(self.first.current_data.page, self.second.current_data.page),
    {
        center(self.first.current_data.page, self.second.current_data.page)
    }

    /// The element-space midpoint of the two current samples.
    pub fn current_element_center(&self) -> (r: Point)
        ensures
            r == spec_center(self.first.current_data.element, self.second.current_data.element),
    {
        center(self.first.current_data.element, self.second.current_data.element)
    }

    /// The squared client-space distance between the two current samples.
    pub fn current_distance_squared(&self) -> (r: i128)
        ensures
            r == spec_distance_squared(
                self.first.current_data.client,
                self.second.current_data.client,
            ),
    {
        distance_squared(self.first.current_data.client, self.second.current_data.client)
    }

    /// How the client-space midpoint moved over this update step.
    pub fn delta_movement(&self) -> (r: Vector2)
        ensures
            ({
                let c = spec_center(self.first.current_data.client, self.second.current_data.client);
                let p = spec_center(
                    self.first.preceding_data.client,
                    self.second.preceding_data.client,
                );
                r.x == c.x - p.x && r.y == c.y - p.y
            }),
    {
        point_difference(self.current_client_center(), self.preceding_client_center())
    }

    /// How the client-space midpoint moved since the pinch started.
    pub fn offset_movement(&self) -> (r: Vector2)
        ensures
            ({
                let c = spec_center(self.first.current_data.client, self.second.current_data.client);
                let s = spec_center(self.first.initial_data.client, self.second.initial_data.client);
                r.x == c.x - s.x && r.y == c.y - s.y
            }),
    {
        point_difference(self.current_client_center(), self.start_client_center())
    }
}

/// Payload of a pinch-end event: both pointers' initial and final samples.
#[derive(Clone, Copy, PartialEq, Eq, Structural, Debug)]
pub struct PinchEndData {
    pub first: OffsetPointer,
    pub second: OffsetPointer,
}

/// Payload of a pinch-cancel event: both pointers' initial and final
/// samples.
#[derive(Clone, Copy, PartialEq, Eq, Structural, Debug)]
pub struct PinchCancelData {
    pub first: OffsetPointer,
    pub second: OffsetPointer,
}

impl PinchEndData {
    /// The client-space midpoint of the two initial samples.
    pub fn start_client_center(&self) -> (r: Point)
        ensures
            r == spec_center(self.first.initial_data.client, self.second.initial_data.client),
    {
        center(self.first.initial_data.client, self.second.initial_data.client)
    }

    /// The screen-space midpoint of the two initial samples.
    pub fn start_screen_center(&self) -> (r: Point)
        ensures
            r == spec_center(self.first.initial_data.screen, self.second.initial_data.screen),
    {
        center(self.first.initial_data.screen, self.second.initial_data.screen)
    }

    /// The page-space midpoint of the two initial samples.
    pub fn start_page_center(&self) -> (r: Point)
        ensures
            r == spec_center(self.first.initial_data.page, self.second.initial_data.page),
    {
        center(self.first.initial_data.page, self.second.initial_data.page)
    }

    /// The element-space midpoint of the two initial samples.
    pub fn start_element_center(&self) -> (r: Point)
        ensures
            r == spec_center(self.first.initial_data.element, self.second.initial_data.element),
    {
        center(self.first.initial_data.element, self.second.initial_data.element)
    }

    /// The squared client-space distance between the two initial samples.
    pub fn start_distance_squared(&self) -> (r: i128)
        ensures
            r == spec_distance_squared(
                self.first.initial_data.client,
                self.second.initial_data.client,
            ),
    {
        distance_squared(self.first.initial_data.client, self.second.initial_data.client)
    }

    /// The client-space midpoint of the two final samples.
    pub fn end_client_center(&self) -> (r: Point)
        ensures
            r == spec_center(self.first.final_data.client, self.second.final_data.client),
    {
        center(self.first.final_data.client, self.second.final_data.client)
    }

    /// The screen-space midpoint of the two final samples.
    pub fn end_screen_center(&self) -> (r: Point)
        ensures
            r == spec_center(self.first.final_data.screen, self.second.final_data.screen),
    {
        center(self.first.final_data.screen, self.second.final_data.screen)
    }

    /// The page-space midpoint of the two final samples.
    pub fn end_page_center(&self) -> (r: Point)
        ensures
            r == spec_center(self.first.final_data.page, self.second.final_data.page),
    {
        center(self.first.final_data.page, self.second.final_data.page)
    }

    /// The element-space midpoint of the two final samples.
    pub fn end_element_center(&self) -> (r: Point)
        ensures
            r == spec_center(self.first.final_data.element, self.second.final_data.element),
    {
        center(self.first.final_data.element, self.second.final_data.element)
    }

    /// The squared client-space distance between the two final samples.
    pub fn end_distance_squared(&self) -> (r: i128)
        ensures
            r == spec_distance_squared(
                self.first.final_data.client,
                self.second.final_data.client,
            ),
    {
        distance_squared(self.first.final_data.client, self.second.final_data.client)
    }

    /// How the client-space midpoint moved over the whole pinch.
    pub fn offset_movement(&self) -> (r: Vector2)
        ensures
            ({
                let e = spec_center(self.first.final_data.client, self.second.final_data.client);
                let s = spec_center(self.first.initial_data.client, self.second.initial_data.client);
                r.x == e.x - s.x && r.y == e.y - s.y
            }),
    {
        point_difference(self.end_client_center(), self.start_client_center())
    }
}

impl PinchCancelData {
    /// The client-space midpoint of the two initial samples.
    pub fn start_client_center(&self) -> (r: Point)
        ensures
            r == spec_center(self.first.initial_data.client, self.second.initial_data.client),
    {
        center(self.first.initial_data.client, self.second.initial_data.client)
    }

    /// The screen-space midpoint of the two initial samples.
    pub fn start_screen_center(&self) -> (r: Point)
        ensures
            r == spec_center(self.first.initial_data.screen, self.second.initial_data.screen),
    {
        center(self.first.initial_data.screen, self.second.initial_data.screen)
    }

    /// The page-space midpoint of the two initial samples.
    pub fn start_page_center(&self) -> (r: Point)
        ensures
            r == spec_center(self.first.initial_data.page, self.second.initial_data.page),
    {
        center(self.first.initial_data.page, self.second.initial_data.page)
    }

    /// The element-space midpoint of the two initial samples.
    pub fn start_element_center(&self) -> (r: Point)
        ensures
            r == spec_center(self.first.initial_data.element, self.second.initial_data.element),
    {
        center(self.first.initial_data.element, self.second.initial_data.element)
    }

    /// The squared client-space distance between the two initial samples.
    pub fn start_distance_squared(&self) -> (r: i128)
        ensures
            r == spec_distance_squared(
                self.first.initial_data.client,
                self.second.initial_data.client,
            ),
    {
        distance_squared(self.first.initial_data.client, self.second.initial_data.client)
    }

    /// The client-space midpoint of the two final samples.
    pub fn end_client_center(&self) -> (r: Point)
        ensures
            r == spec_center(self.first.final_data.client, self.second.final_data.client),
    {
        center(self.first.final_data.client, self.second.final_data.client)
    }

    /// The screen-space midpoint of the two final samples.
    pub fn end_screen_center(&self) -> (r: Point)
        ensures
            r == spec_center(self.first.final_data.screen, self.second.final_data.screen),
    {
        center(self.first.final_data.screen, self.second.final_data.screen)
    }

    /// The page-space midpoint of the two final samples.
    pub fn end_page_center(&self) -> (r: Point)
        ensures
            r == spec_center(self.first.final_data.page, self.second.final_data.page),
    {
        center(self.first.final_data.page, self.second.final_data.page)
    }

    /// The element-space midpoint of the two final samples.
    pub fn end_element_center(&self) -> (r: Point)
        ensures
            r == spec_center(self.first.final_data.element, self.second.final_data.element),
    {
        center(self.first.final_data.element, self.second.final_data.element)
    }

    /// The squared client-space distance between the two final samples.
    pub fn end_distance_squared(&self) -> (r: i128)
        ensures
            r == spec_distance_squared(
                self.first.final_data.client,
                self.second.final_data.client,
            ),
    {
        distance_squared(self.first.final_data.client, self.second.final_data.client)
    }

    /// How the client-space midpoint moved over the whole pinch.
    pub fn offset_movement(&self) -> (r: Vector2)
        ensures
            ({
                let e = spec_center(self.first.final_data.client, self.second.final_data.client);
                let s = spec_center(self.first.initial_data.client, self.second.initial_data.client);
                r.x == e.x - s.x && r.y == e.y - s.y
            }),
    {
        point_difference(self.end_client_center(), self.start_client_center())
    }
}

} // verus!
