//! Immutable snapshots of one pointer's attributes at one raw event.

use vstd::prelude::*;

verus! {

/// A point in one of the four coordinate spaces (client, page, screen,
/// element). Coordinates are integral units of the hosting surface.
#[derive(Clone, Copy, PartialEq, Eq, Structural, Debug)]
pub struct Point {
    pub x: i32,
    pub y: i32,
}

/// The platform-assigned identifier of one touch, mouse or pen contact.
#[derive(Clone, Copy, PartialEq, Eq, Structural, Debug)]
pub struct PointerId(pub i32);

impl PointerId {
    /// True exactly when this identifier equals the raw platform id `probe`.
    pub fn is_equal_i32(&self, probe: i32) -> (r: bool)
        ensures
            r == (self.0 == probe),
    {
        self.0 == probe
    }
}

impl From<i32> for PointerId {
    fn from(value: i32) -> (r: Self)
        ensures
            r.0 == value,
    {
        PointerId(value)
    }
}

impl vstd::std_specs::convert::FromSpecImpl<i32> for PointerId {
    open spec fn obeys_from_spec() -> bool {
        true
    }

    open spec fn from_spec(value: i32) -> Self {
        PointerId(value)
    }
}

/// An immutable snapshot of one raw pointer event's attributes.
///
/// Created once per raw event and never mutated. The modifier-key set and
/// the held-button set are bit sets; their encoding is the caller's choice
/// and the engine only ever compares them bitwise.
#[derive(Clone, Copy, PartialEq, Eq, Structural, Debug)]
pub struct PointerSample {
    pub pointer_id: i32,
    pub client: Point,
    pub page: Point,
    pub screen: Point,
    pub element: Point,
    pub width: i32,
    pub height: i32,
    pub pressure: i32,
    pub tangential_pressure: i32,
    pub tilt_x: i32,
    pub tilt_y: i32,
    pub twist: i32,
    pub is_primary: bool,
    pub modifiers: u32,
    pub held_buttons: u32,
}

} // verus!
