//! The raw pointer event protocol consumed by the engine.

use vstd::prelude::*;

verus! {

/// The kind tag of one raw pointer lifecycle event.
#[derive(Clone, Copy, PartialEq, Eq, Structural, Debug)]
pub enum PointerEventKind {
    Over,
    Enter,
    Down,
    Move,
    Up,
    Cancel,
    Out,
    Leave,
}

/// A receiver of the eight raw pointer lifecycle events of one UI target.
///
/// Hosts that sit between a platform event source and the engine implement
/// this trait and forward each raw event to the matching method.
pub trait PointerEventReceiver<E> {
    fn pointer_over(&mut self, event: E);

    fn pointer_enter(&mut self, event: E);

    fn pointer_down(&mut self, event: E);

    fn pointer_move(&mut self, event: E);

    fn pointer_up(&mut self, event: E);

    fn pointer_cancel(&mut self, event: E);

    fn pointer_out(&mut self, event: E);

    fn pointer_leave(&mut self, event: E);
}

} // verus!
