//! The per-target engine: one hover tracker and one drag/pinch
//! recognizer behind a single dispatch entry point.
//!
//! Every incoming raw pointer event is routed in a fixed order: the hover
//! tracker first, then the drag/pinch recognizer. The events each one
//! fired are handed back to the caller in that same order, so a host can
//! deliver them to its callbacks and then invoke any passthrough handler
//! for the raw event itself.

use vstd::prelude::*;

use crate::down_pointer::{down_step, DownPointerGestureState, GestureEvent};
use crate::drag::DragThreshold;
use crate::events::PointerEventKind;
use crate::hover::{hover_step, HoverEvent, HoverGestureState};
use crate::pinch::PinchThreshold;
use crate::sample::PointerSample;

verus! {

/// Everything one routed raw event fired: the hover tracker's events
/// first, then the drag/pinch recognizer's, each in firing order.
#[derive(Clone, Debug)]
pub struct RoutedEvents {
    pub hover: Vec<HoverEvent>,
    pub gesture: Vec<GestureEvent>,
}

/// Relies on `nanoid::format` with the 64-character URL-safe alphabet:
/// it returns a string of exactly the requested number of characters,
/// drawn at random from that alphabet.
#[verifier::external_body]
fn generate_target_id() -> (r: String)
    ensures
        r@.len() == 21,
{
    nanoid::format(nanoid::rngs::default, &nanoid::alphabet::SAFE, 21)
}

/// Law: a release or cancel event of a pointer id the engine has never
/// observed is a no-op for the whole engine: neither tracker changes
/// state and nothing fires. (Enter, down and move events are the paths
/// that create tracks, so only they may react to a fresh id.)
pub proof fn lemma_unknown_id_ignored(
    hover_tracks: Seq<crate::hover::HoverPointerState>,
    down_tracks: Seq<crate::down_pointer::DownPointerState>,
    phase: crate::down_pointer::GesturePhase,
    kind: PointerEventKind,
    s: PointerSample,
    dp: spec_fn(PointerSample, PointerSample) -> bool,
    pp: spec_fn(PointerSample, PointerSample, PointerSample, PointerSample) -> bool,
)
    requires
        !crate::hover::hover_has_id(hover_tracks, s.pointer_id),
        !crate::down_pointer::down_has_id(down_tracks, s.pointer_id),
        kind is Up || kind is Out || kind is Leave || kind is Cancel,
    ensures
        hover_step(hover_tracks, kind, s).0 == hover_tracks,
        hover_step(hover_tracks, kind, s).1 == Seq::<HoverEvent>::empty(),
        down_step(down_tracks, phase, kind, s, dp, pp).0 == down_tracks,
        down_step(down_tracks, phase, kind, s, dp, pp).1 == phase,
        down_step(down_tracks, phase, kind, s, dp, pp).2 == Seq::<GestureEvent>::empty(),
{
    crate::hover::lemma_hover_unknown_id_ignored(hover_tracks, kind, s);
    crate::down_pointer::lemma_down_unknown_id_ignored(down_tracks, phase, kind, s, dp, pp);
}

/// One engine instance: the state behind a single UI target.
#[derive(Clone, Debug)]
pub struct UseGesturesState<D: DragThreshold, P: PinchThreshold> {
    /// A freshly generated identifier correlating this engine instance
    /// with its UI target, for hosts that acquire pointer capture.
    pub target_unique_id: String,
    pub hover: HoverGestureState,
    pub down_pointer: DownPointerGestureState<D, P>,
}

impl<D: DragThreshold, P: PinchThreshold> UseGesturesState<D, P> {
    /// A fresh engine with no tracked pointers and a new target id.
    pub fn new(drag: D, pinch: P) -> (s: Self)
        ensures
            s.hover.pointers@ == Seq::<crate::hover::HoverPointerState>::empty(),
            s.down_pointer.pointers@ == Seq::<crate::down_pointer::DownPointerState>::empty(),
            s.down_pointer.phase == crate::down_pointer::GesturePhase::Pending,
            s.down_pointer.drag == drag,
            s.down_pointer.pinch == pinch,
            s.target_unique_id@.len() == 21,
    {
        UseGesturesState {
            target_unique_id: generate_target_id(),
            hover: HoverGestureState::new(),
            down_pointer: DownPointerGestureState::new(drag, pinch),
        }
    }

    /// Routes one raw pointer event to the hover tracker and then to the
    /// drag/pinch recognizer, returning everything they fired.
    pub fn on_pointer_event(&mut self, kind: PointerEventKind, sample: PointerSample) -> (fired:
        RoutedEvents)
        ensures
            ({
                let h = hover_step(old(self).hover.pointers@, kind, sample);
                &&& final(self).hover.pointers@ == h.0
                &&& fired.hover@ == h.1
            }),
            ({
                let g = down_step(
                    old(self).down_pointer.pointers@,
                    old(self).down_pointer.phase,
                    kind,
                    sample,
                    old(self).down_pointer.drag_pred(),
                    old(self).down_pointer.pinch_pred(),
                );
                &&& final(self).down_pointer.pointers@ == g.0
                &&& final(self).down_pointer.phase == g.1
                &&& fired.gesture@ == g.2
            }),
            final(self).down_pointer.drag == old(self).down_pointer.drag,
            final(self).down_pointer.pinch == old(self).down_pointer.pinch,
            final(self).target_unique_id == old(self).target_unique_id,
    {
        let hover = self.hover.on_pointer_event(kind, sample);
        let gesture = self.down_pointer.on_pointer_event(kind, sample);
        RoutedEvents { hover, gesture }
    }
}

} // verus!
