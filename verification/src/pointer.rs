//! Derived views over one, two or three samples of the same pointer.
//!
//! These views are not stored by the engine: they are built on demand and
//! handed to the consumer inside gesture events. Every accessor is a pure
//! pointwise difference of two of the held samples: coordinates subtract,
//! booleans take exclusive or, and the set-valued attributes (modifier
//! keys, held buttons) take the symmetric difference of their bit sets.

use vstd::prelude::*;

use crate::sample::PointerSample;

verus! {

/// A two-dimensional displacement in client-space units.
#[derive(Clone, Copy, PartialEq, Eq, Structural, Debug)]
pub struct Vector2 {
    pub x: i64,
    pub y: i64,
}

/// The view of a pointer at the moment a gesture starts: one sample.
#[derive(Clone, Copy, PartialEq, Eq, Structural, Debug)]
pub struct InitialPointer {
    pub data: PointerSample,
}

/// The view of a pointer over a whole gesture: its first and last sample.
#[derive(Clone, Copy, PartialEq, Eq, Structural, Debug)]
pub struct OffsetPointer {
    pub initial_data: PointerSample,
    pub final_data: PointerSample,
}

/// The view of a pointer across one update: its first sample, the sample
/// preceding the update and the current sample.
#[derive(Clone, Copy, PartialEq, Eq, Structural, Debug)]
pub struct IncrementalOffsetPointer {
    pub initial_data: PointerSample,
    pub preceding_data: PointerSample,
    pub current_data: PointerSample,
}

/// The client-space displacement from sample `b` to sample `a`.
pub open spec fn spec_movement(a: PointerSample, b: PointerSample) -> Vector2 {
    Vector2 { x: (a.client.x - b.client.x) as i64, y: (a.client.y - b.client.y) as i64 }
}

/// The client-space displacement from sample `b` to sample `a`.
fn movement(a: &PointerSample, b: &PointerSample) -> (r: Vector2)
    ensures
        r == spec_movement(*a, *b),
{
    Vector2 { x: a.client.x as i64 - b.client.x as i64, y: a.client.y as i64 - b.client.y as i64 }
}

impl IncrementalOffsetPointer {
    /// The displacement of the step from the preceding to the current
    /// sample, in client space.
    pub fn delta_movement(&self) -> (r: Vector2)
        ensures
            r == spec_movement(self.current_data, self.preceding_data),
    {
        movement(&self.current_data, &self.preceding_data)
    }

    /// The change of contact width over the step.
    pub fn delta_width(&self) -> (r: i64)
        ensures
            r == self.current_data.width - self.preceding_data.width,
    {
        self.current_data.width as i64 - self.preceding_data.width as i64
    }

    /// The change of contact height over the step.
    pub fn delta_height(&self) -> (r: i64)
        ensures
            r == self.current_data.height - self.preceding_data.height,
    {
        self.current_data.height as i64 - self.preceding_data.height as i64
    }

    /// The change of pressure over the step.
    pub fn delta_pressure(&self) -> (r: i64)
        ensures
            r == self.current_data.pressure - self.preceding_data.pressure,
    {
        self.current_data.pressure as i64 - self.preceding_data.pressure as i64
    }

    /// The change of tangential pressure over the step.
    pub fn delta_tangential_pressure(&self) -> (r: i64)
        ensures
            r == self.current_data.tangential_pressure - self.preceding_data.tangential_pressure,
    {
        self.current_data.tangential_pressure as i64
            - self.preceding_data.tangential_pressure as i64
    }

    /// The change of x-axis tilt over the step.
    pub fn delta_tilt_x(&self) -> (r: i64)
        ensures
            r == self.current_data.tilt_x - self.preceding_data.tilt_x,
    {
        self.current_data.tilt_x as i64 - self.preceding_data.tilt_x as i64
    }

    /// The change of y-axis tilt over the step.
    pub fn delta_tilt_y(&self) -> (r: i64)
        ensures
            r == self.current_data.tilt_y - self.preceding_data.tilt_y,
    {
        self.current_data.tilt_y as i64 - self.preceding_data.tilt_y as i64
    }

    /// The change of twist over the step.
    pub fn delta_twist(&self) -> (r: i64)
        ensures
            r == self.current_data.twist - self.preceding_data.twist,
    {
        self.current_data.twist as i64 - self.preceding_data.twist as i64
    }

    /// Whether the is-primary flag changed over the step.
    pub fn delta_is_primary(&self) -> (r: bool)
        ensures
            r == (self.current_data.is_primary != self.preceding_data.is_primary),
    {
        self.current_data.is_primary != self.preceding_data.is_primary
    }

    /// The symmetric difference of the modifier-key sets over the step.
    pub fn delta_modifiers(&self) -> (r: u32)
        ensures
            r == (self.current_data.modifiers ^ self.preceding_data.modifiers),
    {
        self.current_data.modifiers ^ self.preceding_data.modifiers
    }

    /// The symmetric difference of the held-button sets over the step.
    pub fn delta_held_buttons(&self) -> (r: u32)
        ensures
            r == (self.current_data.held_buttons ^ self.preceding_data.held_buttons),
    {
        self.current_data.held_buttons ^ self.preceding_data.held_buttons
    }

    /// The cumulative displacement from the initial to the current
    /// sample, in client space.
    pub fn offset_movement(&self) -> (r: Vector2)
        ensures
            r == spec_movement(self.current_data, self.initial_data),
    {
        movement(&self.current_data, &self.initial_data)
    }

    /// The cumulative change of contact width.
    pub fn offset_width(&self) -> (r: i64)
        ensures
            r == self.current_data.width - self.initial_data.width,
    {
        self.current_data.width as i64 - self.initial_data.width as i64
    }

    /// The cumulative change of contact height.
    pub fn offset_height(&self) -> (r: i64)
        ensures
            r == self.current_data.height - self.initial_data.height,
    {
        self.current_data.height as i64 - self.initial_data.height as i64
    }

    /// The cumulative change of pressure.
    pub fn offset_pressure(&self) -> (r: i64)
        ensures
            r == self.current_data.pressure - self.initial_data.pressure,
    {
        self.current_data.pressure as i64 - self.initial_data.pressure as i64
    }

    /// The cumulative change of tangential pressure.
    pub fn offset_tangential_pressure(&self) -> (r: i64)
        ensures
            r == self.current_data.tangential_pressure - self.initial_data.tangential_pressure,
    {
        self.current_data.tangential_pressure as i64 - self.initial_data.tangential_pressure as i64
    }

    /// The cumulative change of x-axis tilt.
    pub fn offset_tilt_x(&self) -> (r: i64)
        ensures
            r == self.current_data.tilt_x - self.initial_data.tilt_x,
    {
        self.current_data.tilt_x as i64 - self.initial_data.tilt_x as i64
    }

    /// The cumulative change of y-axis tilt.
    pub fn offset_tilt_y(&self) -> (r: i64)
        ensures
            r == self.current_data.tilt_y - self.initial_data.tilt_y,
    {
        self.current_data.tilt_y as i64 - self.initial_data.tilt_y as i64
    }

    /// The cumulative change of twist.
    pub fn offset_twist(&self) -> (r: i64)
        ensures
            r == self.current_data.twist - self.initial_data.twist,
    {
        self.current_data.twist as i64 - self.initial_data.twist as i64
    }

    /// Whether the is-primary flag changed since the initial sample.
    pub fn offset_is_primary(&self) -> (r: bool)
        ensures
            r == (self.current_data.is_primary != self.initial_data.is_primary),
    {
        self.current_data.is_primary != self.initial_data.is_primary
    }

    /// The symmetric difference of the modifier-key sets since the
    /// initial sample.
    pub fn offset_modifiers(&self) -> (r: u32)
        ensures
            r == (self.current_data.modifiers ^ self.initial_data.modifiers),
    {
        self.current_data.modifiers ^ self.initial_data.modifiers
    }

    /// The symmetric difference of the held-button sets since the
    /// initial sample.
    pub fn offset_held_buttons(&self) -> (r: u32)
        ensures
            r == (self.current_data.held_buttons ^ self.initial_data.held_buttons),
    {
        self.current_data.held_buttons ^ self.initial_data.held_buttons
    }
}

impl OffsetPointer {
    /// The displacement from the initial to the final sample, in client
    /// space.
    pub fn offset_movement(&self) -> (r: Vector2)
        ensures
            r == spec_movement(self.final_data, self.initial_data),
    {
        movement(&self.final_data, &self.initial_data)
    }

    /// The change of contact width over the gesture.
    pub fn offset_width(&self) -> (r: i64)
        ensures
            r == self.final_data.width - self.initial_data.width,
    {
        self.final_data.width as i64 - self.initial_data.width as i64
    }

    /// The change of contact height over the gesture.
    pub fn offset_height(&self) -> (r: i64)
        ensures
            r == self.final_data.height - self.initial_data.height,
    {
        self.final_data.height as i64 - self.initial_data.height as i64
    }

    /// The change of pressure over the gesture.
    pub fn offset_pressure(&self) -> (r: i64)
        ensures
            r == self.final_data.pressure - self.initial_data.pressure,
    {
        self.final_data.pressure as i64 - self.initial_data.pressure as i64
    }

    /// The change of tangential pressure over the gesture.
    pub fn offset_tangential_pressure(&self) -> (r: i64)
        ensures
            r == self.final_data.tangential_pressure - self.initial_data.tangential_pressure,
    {
        self.final_data.tangential_pressure as i64 - self.initial_data.tangential_pressure as i64
    }

    /// The change of x-axis tilt over the gesture.
    pub fn offset_tilt_x(&self) -> (r: i64)
        ensures
            r == self.final_data.tilt_x - self.initial_data.tilt_x,
    {
        self.final_data.tilt_x as i64 - self.initial_data.tilt_x as i64
    }

    /// The change of y-axis tilt over the gesture.
    pub fn offset_tilt_y(&self) -> (r: i64)
        ensures
            r == self.final_data.tilt_y - self.initial_data.tilt_y,
    {
        self.final_data.tilt_y as i64 - self.initial_data.tilt_y as i64
    }

    /// The change of twist over the gesture.
    pub fn offset_twist(&self) -> (r: i64)
        ensures
            r == self.final_data.twist - self.initial_data.twist,
    {
        self.final_data.twist as i64 - self.initial_data.twist as i64
    }

    /// Whether the is-primary flag changed over the gesture.
    pub fn offset_is_primary(&self) -> (r: bool)
        ensures
            r == (self.final_data.is_primary != self.initial_data.is_primary),
    {
        self.final_data.is_primary != self.initial_data.is_primary
    }

    /// The symmetric difference of the modifier-key sets over the
    /// gesture.
    pub fn offset_modifiers(&self) -> (r: u32)
        ensures
            r == (self.final_data.modifiers ^ self.initial_data.modifiers),
    {
        self.final_data.modifiers ^ self.initial_data.modifiers
    }

    /// The symmetric difference of the held-button sets over the
    /// gesture.
    pub fn offset_held_buttons(&self) -> (r: u32)
        ensures
            r == (self.final_data.held_buttons ^ self.initial_data.held_buttons),
    {
        self.final_data.held_buttons ^ self.initial_data.held_buttons
    }
}

} // verus!
