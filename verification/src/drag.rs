//! The drag gesture: one pressed pointer, threshold gated.

use vstd::prelude::*;

use crate::geometry::{distance_squared, spec_distance_squared};
use crate::pointer::{IncrementalOffsetPointer, InitialPointer, OffsetPointer};
use crate::sample::PointerSample;

verus! {

/// The square of the default activation threshold of 5 client-space units.
pub const DEFAULT_THRESHOLD_SQUARED: i128 = 25;

/// Decides when a one-pointer gesture leaves the pending phase.
///
/// The predicate is consulted with the pointer's initial and current
/// sample, only while the drag is pending; once active a drag never
/// reverts. Implementations carry the mathematical meaning of their
/// decision as a specification function, so everything the state machine
/// guarantees is stated in terms of that meaning.
pub trait DragThreshold: Sized {
    /// What the predicate decides, as a mathematical function.
    spec fn drag_started_spec(&self, initial: PointerSample, current: PointerSample) -> bool;

    /// Evaluates the predicate on two samples of the same pointer.
    fn drag_started(&self, initial: &PointerSample, current: &PointerSample) -> (r: bool)
        ensures
            r == self.drag_started_spec(*initial, *current),
    ;
}

/// The default drag criterion: the pointer has moved at least 5 units in
/// client space, measured by comparing squared distances exactly.
pub open spec fn default_drag_started(initial: PointerSample, current: PointerSample) -> bool {
    spec_distance_squared(initial.client, current.client) >= DEFAULT_THRESHOLD_SQUARED
}

/// The default drag threshold, deciding by `default_drag_started`.
#[derive(Clone, Copy, PartialEq, Eq, Structural, Debug)]
pub struct DefaultDragThreshold;

impl DragThreshold for DefaultDragThreshold {
    open spec fn drag_started_spec(&self, initial: PointerSample, current: PointerSample) -> bool {
        default_drag_started(initial, current)
    }

    fn drag_started(&self, initial: &PointerSample, current: &PointerSample) -> (r: bool) {
        distance_squared(initial.client, current.client) >= DEFAULT_THRESHOLD_SQUARED
    }
}

/// A drag threshold that is already met at the baseline: the drag
/// becomes active, and drag-start fires, as soon as a single pointer
/// governs the slots — even at zero displacement.
#[derive(Clone, Copy, PartialEq, Eq, Structural, Debug)]
pub struct ImmediateDragThreshold;

impl DragThreshold for ImmediateDragThreshold {
    open spec fn drag_started_spec(&self, initial: PointerSample, current: PointerSample) -> bool {
        true
    }

    fn drag_started(&self, initial: &PointerSample, current: &PointerSample) -> (r: bool) {
        true
    }
}

/// Payload of a drag-start event: the pointer at its initial sample.
#[derive(Clone, Copy, PartialEq, Eq, Structural, Debug)]
pub struct DragStartData {
    pub pointer: InitialPointer,
}

/// Payload of a drag-update event: initial, preceding and current sample.
#[derive(Clone, Copy, PartialEq, Eq, Structural, Debug)]
pub struct DragUpdateData {
    pub pointer: IncrementalOffsetPointer,
}

/// Payload of a drag-end event: initial and final sample.
#[derive(Clone, Copy, PartialEq, Eq, Structural, Debug)]
pub struct DragEndData {
    pub pointer: OffsetPointer,
}

/// Payload of a drag-cancel event: initial and final sample.
#[derive(Clone, Copy, PartialEq, Eq, Structural, Debug)]
pub struct DragCancelData {
    pub pointer: OffsetPointer,
}

} // verus!
