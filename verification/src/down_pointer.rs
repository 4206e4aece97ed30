//! The drag/pinch recognizer over the currently pressed pointers.
//!
//! Pressed pointers are kept in arrival order. Exactly one gesture phase
//! governs the pressed slots at any time: drag while one pointer is down,
//! pinch while exactly two are down. Three or more pressed pointers are
//! inert. As the pressed count crosses these boundaries the machine hands
//! off between the gestures, ending the governing gesture and re-arming
//! the next one from a fresh baseline; the full transition table is the
//! specification function `down_step`.

use vstd::prelude::*;

use crate::drag::{DragCancelData, DragEndData, DragStartData, DragThreshold, DragUpdateData};
use crate::events::PointerEventKind;
use crate::pinch::{
    PinchCancelData, PinchEndData, PinchStartData, PinchThreshold, PinchUpdateData,
    PinchUpdatedPointer,
};
use crate::pointer::{IncrementalOffsetPointer, InitialPointer, OffsetPointer};
use crate::sample::{PointerId, PointerSample};

verus! {

/// The phase of the gesture currently governing the pressed slots.
#[derive(Clone, Copy, PartialEq, Eq, Structural, Debug)]
pub enum GesturePhase {
    /// Below the activation threshold: no start event has fired yet.
    Pending,
    /// The threshold was crossed: the gesture fired its start event and
    /// never reverts to pending on its own.
    Active,
}

/// One pressed pointer: its identifier, the sample its gesture baseline
/// was (re)set to, and the most recent sample seen for it.
#[derive(Clone, Copy, PartialEq, Eq, Structural, Debug)]
pub struct DownPointerState {
    pub id: PointerId,
    pub initial: PointerSample,
    pub current: PointerSample,
}

/// One callback fired by the drag/pinch recognizer, in firing order.
#[derive(Clone, Copy, PartialEq, Eq, Structural, Debug)]
pub enum GestureEvent {
    DragStart(DragStartData),
    DragUpdate(DragUpdateData),
    DragEnd(DragEndData),
    DragCancel(DragCancelData),
    PinchStart(PinchStartData),
    PinchUpdate(PinchUpdateData),
    PinchEnd(PinchEndData),
    PinchCancel(PinchCancelData),
}

/// A label naming one gesture event variant, used to count events of a
/// kind in a fired stream.
#[derive(Clone, Copy, PartialEq, Eq, Structural, Debug)]
pub enum GestureEventLabel {
    DragStart,
    DragUpdate,
    DragEnd,
    DragCancel,
    PinchStart,
    PinchUpdate,
    PinchEnd,
    PinchCancel,
}

/// The label of a gesture event.
pub open spec fn gesture_label(e: GestureEvent) -> GestureEventLabel {
    match e {
        GestureEvent::DragStart(_) => GestureEventLabel::DragStart,
        GestureEvent::DragUpdate(_) => GestureEventLabel::DragUpdate,
        GestureEvent::DragEnd(_) => GestureEventLabel::DragEnd,
        GestureEvent::DragCancel(_) => GestureEventLabel::DragCancel,
        GestureEvent::PinchStart(_) => GestureEventLabel::PinchStart,
        GestureEvent::PinchUpdate(_) => GestureEventLabel::PinchUpdate,
        GestureEvent::PinchEnd(_) => GestureEventLabel::PinchEnd,
        GestureEvent::PinchCancel(_) => GestureEventLabel::PinchCancel,
    }
}

/// How many events of `evs` carry the label `label`.
pub open spec fn gesture_count(evs: Seq<GestureEvent>, label: GestureEventLabel) -> nat
    decreases evs.len(),
{
    if evs.len() == 0 {
        0
    } else {
        (if gesture_label(evs[0]) == label {
            1nat
        } else {
            0nat
        }) + gesture_count(evs.drop_first(), label)
    }
}

/// Counting a one-event stream: one for the event's own label, zero for
/// every other label.
pub proof fn lemma_gesture_count_singleton(e: GestureEvent)
    ensures
        forall|label: GestureEventLabel|
            #[trigger] gesture_count(seq![e], label) == (if gesture_label(e) == label {
                1nat
            } else {
                0nat
            }),
{
    assert forall|label: GestureEventLabel|
        #[trigger] gesture_count(seq![e], label) == (if gesture_label(e) == label {
            1nat
        } else {
            0nat
        }) by {
        assert(seq![e].drop_first() =~= Seq::<GestureEvent>::empty());
        assert(gesture_count(seq![e].drop_first(), label) == 0);
    }
}

/// Counting distributes over concatenation of fired streams.
pub proof fn lemma_gesture_count_concat(a: Seq<GestureEvent>, b: Seq<GestureEvent>)
    ensures
        forall|label: GestureEventLabel|
            #[trigger] gesture_count(a + b, label) == gesture_count(a, label) + gesture_count(
                b,
                label,
            ),
    decreases a.len(),
{
    if a.len() == 0 {
        assert(a + b =~= b);
    } else {
        assert((a + b).drop_first() =~= a.drop_first() + b);
        lemma_gesture_count_concat(a.drop_first(), b);
        assert forall|label: GestureEventLabel|
            #[trigger] gesture_count(a + b, label) == gesture_count(a, label) + gesture_count(
                b,
                label,
            ) by {
            assert((a + b)[0] == a[0]);
            assert(gesture_count((a + b).drop_first(), label) == gesture_count(
                a.drop_first(),
                label,
            ) + gesture_count(b, label));
        }
    }
}

/// The index of the first track whose pointer id is `id`, or -1 if no
/// track carries that id.
pub open spec fn down_track_index(tracks: Seq<DownPointerState>, id: i32) -> int
    decreases tracks.len(),
{
    if tracks.len() == 0 {
        -1
    } else if tracks[0].id.0 == id {
        0
    } else {
        let rest = down_track_index(tracks.drop_first(), id);
        if rest == -1 {
            -1
        } else {
            rest + 1
        }
    }
}

/// Whether some track carries the pointer id `id`.
pub open spec fn down_has_id(tracks: Seq<DownPointerState>, id: i32) -> bool {
    exists|i: int| 0 <= i < tracks.len() && tracks[i].id.0 == id
}

/// `down_track_index` finds the first matching track, and finds one
/// exactly when one exists.
pub proof fn lemma_down_track_index(tracks: Seq<DownPointerState>, id: i32)
    ensures
        -1 <= down_track_index(tracks, id) < tracks.len(),
        down_track_index(tracks, id) == -1 <==> !down_has_id(tracks, id),
        down_track_index(tracks, id) >= 0 ==> tracks[down_track_index(tracks, id)].id.0 == id,
        forall|i: int| 0 <= i < down_track_index(tracks, id) ==> tracks[i].id.0 != id,
    decreases tracks.len(),
{
    if tracks.len() == 0 {
    } else if tracks[0].id.0 == id {
        assert(down_has_id(tracks, id));
    } else {
        lemma_down_track_index(tracks.drop_first(), id);
        let rest = tracks.drop_first();
        let r = down_track_index(rest, id);
        assert forall|i: int| 1 <= i < tracks.len() implies tracks[i] == rest[i - 1] by {
            assert(rest =~= tracks.subrange(1, tracks.len() as int));
        }
        if r == -1 {
            assert forall|i: int| 0 <= i < tracks.len() implies tracks[i].id.0 != id by {
                if i >= 1 {
                    assert(tracks[i] == rest[i - 1]);
                }
            }
            assert(!down_has_id(tracks, id));
        } else {
            assert(tracks[r + 1] == rest[r]);
            assert(tracks[r + 1].id.0 == id);
            assert(down_has_id(tracks, id));
            assert forall|i: int| 0 <= i < r + 1 implies tracks[i].id.0 != id by {
                if i >= 1 {
                    assert(tracks[i] == rest[i - 1]);
                }
            }
        }
    }
}

/// The step taken when a pressed pointer with a new id arrives.
///
/// The new track is appended with its baseline at the arriving sample.
/// A first pointer arms the drag; a second ends an active drag, resets
/// the existing pointer's baseline and arms the pinch; a third ends the
/// pinch over the first two slots unconditionally; further pointers are
/// registered silently.
pub open spec fn down_add(
    tracks: Seq<DownPointerState>,
    phase: GesturePhase,
    s: PointerSample,
    dp: spec_fn(PointerSample, PointerSample) -> bool,
    pp: spec_fn(PointerSample, PointerSample, PointerSample, PointerSample) -> bool,
) -> (Seq<DownPointerState>, GesturePhase, Seq<GestureEvent>) {
    let t = DownPointerState { id: PointerId(s.pointer_id), initial: s, current: s };
    let tracks1 = tracks.push(t);
    if tracks.len() == 0 {
        if dp(s, s) {
            (
                tracks1,
                GesturePhase::Active,
                seq![
                    GestureEvent::DragStart(DragStartData { pointer: InitialPointer { data: s } }),
                ],
            )
        } else {
            (tracks1, GesturePhase::Pending, Seq::empty())
        }
    } else if tracks.len() == 1 {
        let existing = tracks[0];
        let drag_end = if phase is Active {
            seq![
                GestureEvent::DragEnd(
                    DragEndData {
                        pointer: OffsetPointer { initial_data: existing.initial, final_data: s },
                    },
                ),
            ]
        } else {
            Seq::empty()
        };
        let reset = DownPointerState { initial: existing.current, ..existing };
        let tracks2 = tracks1.update(0, reset);
        if pp(reset.initial, reset.initial, s, s) {
            (
                tracks2,
                GesturePhase::Active,
                drag_end + seq![
                    GestureEvent::PinchStart(
                        PinchStartData {
                            first: InitialPointer { data: reset.initial },
                            second: InitialPointer { data: s },
                        },
                    ),
                ],
            )
        } else {
            (tracks2, GesturePhase::Pending, drag_end)
        }
    } else if tracks.len() == 2 {
        let first = tracks[0];
        let second = tracks[1];
        (
            tracks1,
            phase,
            seq![
                GestureEvent::PinchEnd(
                    PinchEndData {
                        first: OffsetPointer {
                            initial_data: first.initial,
                            final_data: first.current,
                        },
                        second: OffsetPointer {
                            initial_data: second.initial,
                            final_data: second.current,
                        },
                    },
                ),
            ],
        )
    } else {
        (tracks1, phase, Seq::empty())
    }
}

/// The step taken when a known pressed pointer at index `j` moves.
///
/// With one pointer down a pending drag re-evaluates its threshold and an
/// active drag reports the move; with two down the pinch does the same,
/// tagging which slot moved; with three or more down the move is inert.
pub open spec fn down_update(
    tracks: Seq<DownPointerState>,
    phase: GesturePhase,
    j: int,
    s: PointerSample,
    dp: spec_fn(PointerSample, PointerSample) -> bool,
    pp: spec_fn(PointerSample, PointerSample, PointerSample, PointerSample) -> bool,
) -> (Seq<DownPointerState>, GesturePhase, Seq<GestureEvent>)
    recommends
        0 <= j < tracks.len(),
        tracks[j].id.0 == s.pointer_id,
{
    if tracks.len() >= 3 {
        (tracks, phase, Seq::empty())
    } else {
        let t = tracks[j];
        let tracks1 = tracks.update(j, DownPointerState { current: s, ..t });
        if tracks.len() == 1 {
            match phase {
                GesturePhase::Pending => if dp(t.initial, s) {
                    (
                        tracks1,
                        GesturePhase::Active,
                        seq![
                            GestureEvent::DragStart(
                                DragStartData { pointer: InitialPointer { data: t.initial } },
                            ),
                        ],
                    )
                } else {
                    (tracks1, GesturePhase::Pending, Seq::empty())
                },
                GesturePhase::Active => (
                    tracks1,
                    GesturePhase::Active,
                    seq![
                        GestureEvent::DragUpdate(
                            DragUpdateData {
                                pointer: IncrementalOffsetPointer {
                                    initial_data: t.initial,
                                    preceding_data: t.current,
                                    current_data: s,
                                },
                            },
                        ),
                    ],
                ),
            }
        } else {
            let first = tracks1[0];
            let second = tracks1[1];
            match phase {
                GesturePhase::Pending => if pp(
                    first.initial,
                    first.current,
                    second.initial,
                    second.current,
                ) {
                    (
                        tracks1,
                        GesturePhase::Active,
                        seq![
                            GestureEvent::PinchStart(
                                PinchStartData {
                                    first: InitialPointer { data: first.initial },
                                    second: InitialPointer { data: second.initial },
                                },
                            ),
                        ],
                    )
                } else {
                    (tracks1, GesturePhase::Pending, Seq::empty())
                },
                GesturePhase::Active => {
                    let moved = IncrementalOffsetPointer {
                        initial_data: t.initial,
                        preceding_data: t.current,
                        current_data: s,
                    };
                    if j == 0 {
                        let other = tracks[1];
                        (
                            tracks1,
                            GesturePhase::Active,
                            seq![
                                GestureEvent::PinchUpdate(
                                    PinchUpdateData {
                                        first: moved,
                                        second: IncrementalOffsetPointer {
                                            initial_data: other.initial,
                                            preceding_data: other.current,
                                            current_data: other.current,
                                        },
                                        updated_pointer: PinchUpdatedPointer::First,
                                    },
                                ),
                            ],
                        )
                    } else {
                        let other = tracks[0];
                        (
                            tracks1,
                            GesturePhase::Active,
                            seq![
                                GestureEvent::PinchUpdate(
                                    PinchUpdateData {
                                        first: IncrementalOffsetPointer {
                                            initial_data: other.initial,
                                            preceding_data: other.current,
                                            current_data: other.current,
                                        },
                                        second: moved,
                                        updated_pointer: PinchUpdatedPointer::Second,
                                    },
                                ),
                            ],
                        )
                    }
                },
            }
        }
    }
}

/// The step taken when a known pressed pointer at index `j` is released
/// (`cancelled` false) or cancelled (`cancelled` true).
///
/// The track is removed. A last pointer leaving ends an active drag; a
/// second-to-last leaving ends an active pinch and re-arms the drag from
/// the retained pointer's current position; a third-to-last leaving
/// re-arms the pinch from both remaining pointers' current positions.
/// Cancellation fires the cancel variants of the end events but re-arms
/// exactly as a release does.
pub open spec fn down_release(
    tracks: Seq<DownPointerState>,
    phase: GesturePhase,
    j: int,
    s: PointerSample,
    dp: spec_fn(PointerSample, PointerSample) -> bool,
    pp: spec_fn(PointerSample, PointerSample, PointerSample, PointerSample) -> bool,
    cancelled: bool,
) -> (Seq<DownPointerState>, GesturePhase, Seq<GestureEvent>)
    recommends
        0 <= j < tracks.len(),
        tracks[j].id.0 == s.pointer_id,
{
    let removed = tracks[j];
    let rest = tracks.remove(j);
    if rest.len() == 0 {
        let evs = if phase is Active {
            let pointer = OffsetPointer { initial_data: removed.initial, final_data: s };
            if cancelled {
                seq![GestureEvent::DragCancel(DragCancelData { pointer })]
            } else {
                seq![GestureEvent::DragEnd(DragEndData { pointer })]
            }
        } else {
            Seq::empty()
        };
        (rest, phase, evs)
    } else if rest.len() == 1 {
        let retained = rest[0];
        let pinch_end = if phase is Active {
            let removed_pair = OffsetPointer { initial_data: removed.initial, final_data: s };
            let retained_pair = OffsetPointer {
                initial_data: retained.initial,
                final_data: retained.current,
            };
            let pair = if j == 0 {
                (removed_pair, retained_pair)
            } else {
                (retained_pair, removed_pair)
            };
            if cancelled {
                seq![
                    GestureEvent::PinchCancel(PinchCancelData { first: pair.0, second: pair.1 }),
                ]
            } else {
                seq![GestureEvent::PinchEnd(PinchEndData { first: pair.0, second: pair.1 })]
            }
        } else {
            Seq::empty()
        };
        let reset = DownPointerState { initial: retained.current, ..retained };
        let rest2 = rest.update(0, reset);
        if dp(retained.current, retained.current) {
            (
                rest2,
                GesturePhase::Active,
                pinch_end + seq![
                    GestureEvent::DragStart(
                        DragStartData { pointer: InitialPointer { data: reset.initial } },
                    ),
                ],
            )
        } else {
            (rest2, GesturePhase::Pending, pinch_end)
        }
    } else if rest.len() == 2 {
        let reset0 = DownPointerState { initial: rest[0].current, ..rest[0] };
        let reset1 = DownPointerState { initial: rest[1].current, ..rest[1] };
        let rest2 = rest.update(0, reset0).update(1, reset1);
        if pp(reset0.initial, reset0.current, reset1.initial, reset1.current) {
            (
                rest2,
                GesturePhase::Active,
                seq![
                    GestureEvent::PinchStart(
                        PinchStartData {
                            first: InitialPointer { data: reset0.initial },
                            second: InitialPointer { data: reset1.initial },
                        },
                    ),
                ],
            )
        } else {
            (rest2, GesturePhase::Pending, Seq::empty())
        }
    } else {
        (rest, phase, Seq::empty())
    }
}

/// The step taken for a `down` event: a new id is added, a known id is
/// treated as a move of that pointer.
pub open spec fn down_add_or_update(
    tracks: Seq<DownPointerState>,
    phase: GesturePhase,
    s: PointerSample,
    dp: spec_fn(PointerSample, PointerSample) -> bool,
    pp: spec_fn(PointerSample, PointerSample, PointerSample, PointerSample) -> bool,
) -> (Seq<DownPointerState>, GesturePhase, Seq<GestureEvent>) {
    let j = down_track_index(tracks, s.pointer_id);
    if j == -1 {
        down_add(tracks, phase, s, dp, pp)
    } else {
        down_update(tracks, phase, j, s, dp, pp)
    }
}

/// The step taken for a `move` event: known ids are updated, unknown ids
/// are silently ignored.
pub open spec fn down_move(
    tracks: Seq<DownPointerState>,
    phase: GesturePhase,
    s: PointerSample,
    dp: spec_fn(PointerSample, PointerSample) -> bool,
    pp: spec_fn(PointerSample, PointerSample, PointerSample, PointerSample) -> bool,
) -> (Seq<DownPointerState>, GesturePhase, Seq<GestureEvent>) {
    let j = down_track_index(tracks, s.pointer_id);
    if j == -1 {
        (tracks, phase, Seq::empty())
    } else {
        down_update(tracks, phase, j, s, dp, pp)
    }
}

/// The step taken for an `up`, `out`, `leave` or `cancel` event: known
/// ids are released (with the cancel event variants when `cancelled`),
/// unknown ids are silently ignored.
pub open spec fn down_drop(
    tracks: Seq<DownPointerState>,
    phase: GesturePhase,
    s: PointerSample,
    dp: spec_fn(PointerSample, PointerSample) -> bool,
    pp: spec_fn(PointerSample, PointerSample, PointerSample, PointerSample) -> bool,
    cancelled: bool,
) -> (Seq<DownPointerState>, GesturePhase, Seq<GestureEvent>) {
    let j = down_track_index(tracks, s.pointer_id);
    if j == -1 {
        (tracks, phase, Seq::empty())
    } else {
        down_release(tracks, phase, j, s, dp, pp, cancelled)
    }
}

/// The full transition table of the drag/pinch recognizer for one raw
/// event: `over` and `enter` are inert, `down` adds or updates, `move`
/// updates, `up`/`out`/`leave` release, and `cancel` cancels.
pub open spec fn down_step(
    tracks: Seq<DownPointerState>,
    phase: GesturePhase,
    kind: PointerEventKind,
    s: PointerSample,
    dp: spec_fn(PointerSample, PointerSample) -> bool,
    pp: spec_fn(PointerSample, PointerSample, PointerSample, PointerSample) -> bool,
) -> (Seq<DownPointerState>, GesturePhase, Seq<GestureEvent>) {
    match kind {
        PointerEventKind::Over => (tracks, phase, Seq::empty()),
        PointerEventKind::Enter => (tracks, phase, Seq::empty()),
        PointerEventKind::Down => down_add_or_update(tracks, phase, s, dp, pp),
        PointerEventKind::Move => down_move(tracks, phase, s, dp, pp),
        PointerEventKind::Up => down_drop(tracks, phase, s, dp, pp, false),
        PointerEventKind::Out => down_drop(tracks, phase, s, dp, pp, false),
        PointerEventKind::Leave => down_drop(tracks, phase, s, dp, pp, false),
        PointerEventKind::Cancel => down_drop(tracks, phase, s, dp, pp, true),
    }
}

/// Folds a sequence of raw events through `down_step`, concatenating
/// everything fired along the way.
pub open spec fn down_run(
    tracks: Seq<DownPointerState>,
    phase: GesturePhase,
    events: Seq<(PointerEventKind, PointerSample)>,
    dp: spec_fn(PointerSample, PointerSample) -> bool,
    pp: spec_fn(PointerSample, PointerSample, PointerSample, PointerSample) -> bool,
) -> (Seq<DownPointerState>, GesturePhase, Seq<GestureEvent>)
    decreases events.len(),
{
    if events.len() == 0 {
        (tracks, phase, Seq::empty())
    } else {
        let step = down_step(tracks, phase, events[0].0, events[0].1, dp, pp);
        let rest = down_run(step.0, step.1, events.drop_first(), dp, pp);
        (rest.0, rest.1, step.2 + rest.2)
    }
}

/// Law: an event of a pointer id the recognizer has never observed is a
/// no-op on every path but `down` (the one path that creates a track):
/// the state is unchanged and nothing fires.
pub proof fn lemma_down_unknown_id_ignored(
    tracks: Seq<DownPointerState>,
    phase: GesturePhase,
    kind: PointerEventKind,
    s: PointerSample,
    dp: spec_fn(PointerSample, PointerSample) -> bool,
    pp: spec_fn(PointerSample, PointerSample, PointerSample, PointerSample) -> bool,
)
    requires
        !down_has_id(tracks, s.pointer_id),
        !(kind is Down),
    ensures
        down_step(tracks, phase, kind, s, dp, pp).0 == tracks,
        down_step(tracks, phase, kind, s, dp, pp).1 == phase,
        down_step(tracks, phase, kind, s, dp, pp).2 == Seq::<GestureEvent>::empty(),
{
    lemma_down_track_index(tracks, s.pointer_id);
}

/// Law: while a single pointer's drag is active, any run of its move
/// events fires exactly one drag-update per move and nothing else; the
/// drag stays active and never re-fires drag-start, whatever the
/// threshold predicate says of the later samples.
pub proof fn lemma_drag_active_run(
    tracks: Seq<DownPointerState>,
    events: Seq<(PointerEventKind, PointerSample)>,
    dp: spec_fn(PointerSample, PointerSample) -> bool,
    pp: spec_fn(PointerSample, PointerSample, PointerSample, PointerSample) -> bool,
)
    requires
        tracks.len() == 1,
        forall|i: int| 0 <= i < events.len() ==> (#[trigger] events[i]).0 is Move,
        forall|i: int|
            0 <= i < events.len() ==> (#[trigger] events[i]).1.pointer_id == tracks[0].id.0,
    ensures
        ({
            let run = down_run(tracks, GesturePhase::Active, events, dp, pp);
            &&& run.1 is Active
            &&& run.0.len() == 1
            &&& run.0[0].id == tracks[0].id
            &&& run.0[0].initial == tracks[0].initial
            &&& gesture_count(run.2, GestureEventLabel::DragUpdate) == events.len()
            &&& forall|label: GestureEventLabel|
                label != GestureEventLabel::DragUpdate ==> #[trigger] gesture_count(
                    run.2,
                    label,
                ) == 0
        }),
    decreases events.len(),
{
    if events.len() == 0 {
    } else {
        let s0 = events[0].1;
        let step = down_step(tracks, GesturePhase::Active, events[0].0, s0, dp, pp);
        let t = tracks[0];
        let tracks1 = tracks.update(0, DownPointerState { current: s0, ..t });
        assert(down_track_index(tracks, s0.pointer_id) == 0);
        assert(step.0 == tracks1 && step.1 is Active);
        lemma_drag_active_run(tracks1, events.drop_first(), dp, pp);
        let rest = down_run(tracks1, GesturePhase::Active, events.drop_first(), dp, pp);
        lemma_gesture_count_concat(step.2, rest.2);
        lemma_gesture_count_singleton(step.2[0]);
        assert(step.2 =~= seq![step.2[0]]);
    }
}

/// The index of the first sample of `events` that crosses the drag
/// threshold from `initial`, or -1 if none does.
pub open spec fn first_drag_crossing(
    initial: PointerSample,
    events: Seq<(PointerEventKind, PointerSample)>,
    dp: spec_fn(PointerSample, PointerSample) -> bool,
) -> int
    decreases events.len(),
{
    if events.len() == 0 {
        -1
    } else if dp(initial, events[0].1) {
        0
    } else {
        let rest = first_drag_crossing(initial, events.drop_first(), dp);
        if rest == -1 {
            -1
        } else {
            rest + 1
        }
    }
}

/// Law: a single pointer's pending drag, fed any run of its move events,
/// fires drag-start exactly once if some sample crosses the threshold
/// from the unchanged initial sample, and never otherwise; every move
/// after the crossing fires exactly one drag-update; moving back under
/// the threshold afterwards neither reverts the phase nor re-fires
/// drag-start.
pub proof fn lemma_drag_pending_run(
    tracks: Seq<DownPointerState>,
    events: Seq<(PointerEventKind, PointerSample)>,
    dp: spec_fn(PointerSample, PointerSample) -> bool,
    pp: spec_fn(PointerSample, PointerSample, PointerSample, PointerSample) -> bool,
)
    requires
        tracks.len() == 1,
        forall|i: int| 0 <= i < events.len() ==> (#[trigger] events[i]).0 is Move,
        forall|i: int|
            0 <= i < events.len() ==> (#[trigger] events[i]).1.pointer_id == tracks[0].id.0,
    ensures
        ({
            let run = down_run(tracks, GesturePhase::Pending, events, dp, pp);
            let crossing = first_drag_crossing(tracks[0].initial, events, dp);
            &&& run.0.len() == 1
            &&& run.0[0].id == tracks[0].id
            &&& run.0[0].initial == tracks[0].initial
            &&& (run.1 is Active <==> crossing >= 0)
            &&& gesture_count(run.2, GestureEventLabel::DragStart) == (if crossing >= 0 {
                1nat
            } else {
                0nat
            })
            &&& gesture_count(run.2, GestureEventLabel::DragUpdate) == (if crossing >= 0 {
                (events.len() - 1 - crossing) as nat
            } else {
                0nat
            })
            &&& forall|label: GestureEventLabel|
                label != GestureEventLabel::DragUpdate && label != GestureEventLabel::DragStart
                    ==> #[trigger] gesture_count(run.2, label) == 0
        }),
    decreases events.len(),
{
    if events.len() == 0 {
    } else {
        let s0 = events[0].1;
        let step = down_step(tracks, GesturePhase::Pending, events[0].0, s0, dp, pp);
        let t = tracks[0];
        let tracks1 = tracks.update(0, DownPointerState { current: s0, ..t });
        assert(down_track_index(tracks, s0.pointer_id) == 0);
        assert(step.0 == tracks1);
        let rest_events = events.drop_first();
        if dp(t.initial, s0) {
            assert(first_drag_crossing(tracks[0].initial, events, dp) == 0);
            lemma_drag_active_run(tracks1, rest_events, dp, pp);
            let rest = down_run(tracks1, GesturePhase::Active, rest_events, dp, pp);
            lemma_gesture_count_concat(step.2, rest.2);
            lemma_gesture_count_singleton(step.2[0]);
            assert(step.2 =~= seq![step.2[0]]);
        } else {
            lemma_drag_pending_run(tracks1, rest_events, dp, pp);
            let rest = down_run(tracks1, GesturePhase::Pending, rest_events, dp, pp);
            lemma_gesture_count_concat(step.2, rest.2);
            assert(step.2 =~= Seq::<GestureEvent>::empty());
            assert(Seq::<GestureEvent>::empty() + rest.2 =~= rest.2);
            assert(first_drag_crossing(tracks1[0].initial, rest_events, dp)
                == first_drag_crossing(t.initial, rest_events, dp));
        }
    }
}

/// Law: pressing a second pointer while the drag is active fires exactly
/// one drag-end, carrying the first pointer's initial sample against the
/// arriving sample; the pinch then starts pending from a fresh baseline
/// (both pointers' initial samples reset to their current positions), so
/// with the default pinch predicate no pinch-start fires until later
/// movement crosses the threshold.
pub proof fn lemma_second_press_hand_off(
    tracks: Seq<DownPointerState>,
    s: PointerSample,
    dp: spec_fn(PointerSample, PointerSample) -> bool,
    pp: spec_fn(PointerSample, PointerSample, PointerSample, PointerSample) -> bool,
)
    requires
        tracks.len() == 1,
        tracks[0].id.0 != s.pointer_id,
        forall|a: PointerSample, b: PointerSample, c: PointerSample, d: PointerSample|
            #[trigger] pp(a, b, c, d) == crate::pinch::default_pinch_started(a, b, c, d),
    ensures
        ({
            let step = down_add_or_update(tracks, GesturePhase::Active, s, dp, pp);
            &&& step.2 == seq![
                GestureEvent::DragEnd(
                    DragEndData {
                        pointer: OffsetPointer { initial_data: tracks[0].initial, final_data: s },
                    },
                ),
            ]
            &&& step.1 is Pending
            &&& step.0.len() == 2
            &&& step.0[0] == (DownPointerState {
                id: tracks[0].id,
                initial: tracks[0].current,
                current: tracks[0].current,
            })
            &&& step.0[1] == (DownPointerState {
                id: PointerId(s.pointer_id),
                initial: s,
                current: s,
            })
        }),
{
    lemma_down_track_index(tracks, s.pointer_id);
    assert(!down_has_id(tracks, s.pointer_id));
    let existing = tracks[0];
    let reset = DownPointerState { initial: existing.current, ..existing };
    crate::geometry::lemma_distance_squared_self(reset.initial.client);
    crate::geometry::lemma_distance_squared_self(s.client);
    assert(!pp(reset.initial, reset.initial, s, s));
}

/// Law: releasing one of two pointers while the pinch is active fires
/// exactly one pinch-end, keyed by the released pointer's former slot;
/// the drag then re-arms from the retained pointer's current position as
/// its new initial sample, so with the default drag predicate it starts
/// pending and an update computed against that baseline reports zero
/// offset until the pointer moves again.
pub proof fn lemma_pinch_release_rearm(
    tracks: Seq<DownPointerState>,
    j: int,
    s: PointerSample,
    dp: spec_fn(PointerSample, PointerSample) -> bool,
    pp: spec_fn(PointerSample, PointerSample, PointerSample, PointerSample) -> bool,
)
    requires
        tracks.len() == 2,
        0 <= j < 2,
        tracks[j].id.0 == s.pointer_id,
        forall|a: PointerSample, b: PointerSample|
            #[trigger] dp(a, b) == crate::drag::default_drag_started(a, b),
    ensures
        ({
            let step = down_release(tracks, GesturePhase::Active, j, s, dp, pp, false);
            let retained = tracks[1 - j];
            let removed_pair = OffsetPointer { initial_data: tracks[j].initial, final_data: s };
            let retained_pair = OffsetPointer {
                initial_data: retained.initial,
                final_data: retained.current,
            };
            &&& step.2 == seq![
                GestureEvent::PinchEnd(
                    if j == 0 {
                        PinchEndData { first: removed_pair, second: retained_pair }
                    } else {
                        PinchEndData { first: retained_pair, second: removed_pair }
                    },
                ),
            ]
            &&& step.1 is Pending
            &&& step.0.len() == 1
            &&& step.0[0] == (DownPointerState {
                id: retained.id,
                initial: retained.current,
                current: retained.current,
            })
        }),
{
    tracks.remove_ensures(j);
    let rest = tracks.remove(j);
    assert(rest[0] == tracks[1 - j]);
    let retained = rest[0];
    crate::geometry::lemma_distance_squared_self(retained.current.client);
    assert(!dp(retained.current, retained.current));
}

/// The drag/pinch recognizer: the pressed pointers in arrival order, the
/// phase of the governing gesture, and the two threshold predicates.
#[derive(Clone, Debug)]
pub struct DownPointerGestureState<D: DragThreshold, P: PinchThreshold> {
    pub drag: D,
    pub pinch: P,
    pub pointers: Vec<DownPointerState>,
    pub phase: GesturePhase,
}

impl<D: DragThreshold, P: PinchThreshold> DownPointerGestureState<D, P> {
    /// The drag predicate of this machine, as a mathematical function.
    pub open spec fn drag_pred(&self) -> spec_fn(PointerSample, PointerSample) -> bool {
        |a: PointerSample, b: PointerSample| self.drag.drag_started_spec(a, b)
    }

    /// The pinch predicate of this machine, as a mathematical function.
    pub open spec fn pinch_pred(&self) -> spec_fn(
        PointerSample,
        PointerSample,
        PointerSample,
        PointerSample,
    ) -> bool {
        |a: PointerSample, b: PointerSample, c: PointerSample, d: PointerSample|
            self.pinch.pinch_started_spec(a, b, c, d)
    }

    /// Whether this machine's configuration is unchanged from `other`'s.
    pub open spec fn same_config(&self, other: &Self) -> bool {
        self.drag == other.drag && self.pinch == other.pinch
    }

    /// A recognizer with no pressed pointers, using the given threshold
    /// predicates.
    pub fn new(drag: D, pinch: P) -> (s: Self)
        ensures
            s.pointers@ == Seq::<DownPointerState>::empty(),
            s.phase == GesturePhase::Pending,
            s.drag == drag,
            s.pinch == pinch,
    {
        DownPointerGestureState { drag, pinch, pointers: Vec::new(), phase: GesturePhase::Pending }
    }

    /// The position of the track for the raw id `pointer_id`, if any.
    fn position_of(&self, pointer_id: i32) -> (r: Option<usize>)
        ensures
            match r {
                Some(i) => down_track_index(self.pointers@, pointer_id) == i,
                None => down_track_index(self.pointers@, pointer_id) == -1,
            },
    {
        proof {
            lemma_down_track_index(self.pointers@, pointer_id);
        }
        let mut i: usize = 0;
        while i < self.pointers.len()
            invariant
                0 <= i <= self.pointers@.len(),
                forall|j: int| 0 <= j < i ==> self.pointers@[j].id.0 != pointer_id,
            decreases self.pointers@.len() - i,
        {
            if self.pointers[i].id.is_equal_i32(pointer_id) {
                proof {
                    lemma_down_track_index(self.pointers@, pointer_id);
                    assert(self.pointers@[i as int].id.0 == pointer_id);
                    assert(down_has_id(self.pointers@, pointer_id));
                    let j0 = down_track_index(self.pointers@, pointer_id);
                    assert(j0 >= 0);
                    if j0 < i {
                        assert(self.pointers@[j0].id.0 != pointer_id);
                    }
                    if j0 > i {
                        assert(self.pointers@[i as int].id.0 != pointer_id);
                    }
                    assert(j0 == i);
                }
                return Some(i);
            }
            i = i + 1;
        }
        None
    }

    /// Registers a pressed pointer with a new id; returns the fired
    /// events in firing order. This is the transition `down_add`.
    fn add_down_pointer_event(&mut self, sample: PointerSample) -> (fired: Vec<GestureEvent>)
        ensures
            ({
                let step = down_add(
                    old(self).pointers@,
                    old(self).phase,
                    sample,
                    old(self).drag_pred(),
                    old(self).pinch_pred(),
                );
                &&& final(self).pointers@ == step.0
                &&& final(self).phase == step.1
                &&& fired@ == step.2
            }),
            final(self).drag == old(self).drag,
            final(self).pinch == old(self).pinch,
    {
        let mut fired: Vec<GestureEvent> = Vec::new();
        self.pointers.push(
            DownPointerState { id: PointerId(sample.pointer_id), initial: sample, current: sample },
        );
        let len = self.pointers.len();
        if len == 1 {
            if self.drag.drag_started(&sample, &sample) {
                self.phase = GesturePhase::Active;
                fired.push(
                    GestureEvent::DragStart(
                        DragStartData { pointer: InitialPointer { data: sample } },
                    ),
                );
            } else {
                self.phase = GesturePhase::Pending;
            }
        } else if len == 2 {
            let existing = self.pointers[0];
            if self.phase == GesturePhase::Active {
                fired.push(
                    GestureEvent::DragEnd(
                        DragEndData {
                            pointer: OffsetPointer {
                                initial_data: existing.initial,
                                final_data: sample,
                            },
                        },
                    ),
                );
            }
            self.pointers[0].initial = existing.current;
            let p0 = self.pointers[0];
            if self.pinch.pinch_started(&p0.initial, &p0.initial, &sample, &sample) {
                self.phase = GesturePhase::Active;
                fired.push(
                    GestureEvent::PinchStart(
                        PinchStartData {
                            first: InitialPointer { data: p0.initial },
                            second: InitialPointer { data: sample },
                        },
                    ),
                );
            } else {
                self.phase = GesturePhase::Pending;
            }
        } else if len == 3 {
            let first = self.pointers[0];
            let second = self.pointers[1];
            fired.push(
                GestureEvent::PinchEnd(
                    PinchEndData {
                        first: OffsetPointer {
                            initial_data: first.initial,
                            final_data: first.current,
                        },
                        second: OffsetPointer {
                            initial_data: second.initial,
                            final_data: second.current,
                        },
                    },
                ),
            );
        }
        proof {
            let step = down_add(
                old(self).pointers@,
                old(self).phase,
                sample,
                old(self).drag_pred(),
                old(self).pinch_pred(),
            );
            assert(final(self).pointers@ =~= step.0);
            assert(fired@ =~= step.2);
        }
        fired
    }

    /// Applies a move of the known pressed pointer at `index`; returns
    /// the fired events in firing order. This is the transition
    /// `down_update`.
    fn update_known_down_pointer_event(&mut self, index: usize, sample: PointerSample) -> (fired:
        Vec<GestureEvent>)
        requires
            index < old(self).pointers@.len(),
            old(self).pointers@[index as int].id.0 == sample.pointer_id,
        ensures
            ({
                let step = down_update(
                    old(self).pointers@,
                    old(self).phase,
                    index as int,
                    sample,
                    old(self).drag_pred(),
                    old(self).pinch_pred(),
                );
                &&& final(self).pointers@ == step.0
                &&& final(self).phase == step.1
                &&& fired@ == step.2
            }),
            final(self).drag == old(self).drag,
            final(self).pinch == old(self).pinch,
    {
        let mut fired: Vec<GestureEvent> = Vec::new();
        if self.pointers.len() >= 3 {
            return fired;
        }
        let t = self.pointers[index];
        self.pointers[index].current = sample;
        if self.pointers.len() == 1 {
            match self.phase {
                GesturePhase::Pending => {
                    if self.drag.drag_started(&t.initial, &sample) {
                        self.phase = GesturePhase::Active;
                        fired.push(
                            GestureEvent::DragStart(
                                DragStartData { pointer: InitialPointer { data: t.initial } },
                            ),
                        );
                    }
                },
                GesturePhase::Active => {
                    fired.push(
                        GestureEvent::DragUpdate(
                            DragUpdateData {
                                pointer: IncrementalOffsetPointer {
                                    initial_data: t.initial,
                                    preceding_data: t.current,
                                    current_data: sample,
                                },
                            },
                        ),
                    );
                },
            }
        } else {
            let first = self.pointers[0];
            let second = self.pointers[1];
            match self.phase {
                GesturePhase::Pending => {
                    if self.pinch.pinch_started(
                        &first.initial,
                        &first.current,
                        &second.initial,
                        &second.current,
                    ) {
                        self.phase = GesturePhase::Active;
                        fired.push(
                            GestureEvent::PinchStart(
                                PinchStartData {
                                    first: InitialPointer { data: first.initial },
                                    second: InitialPointer { data: second.initial },
                                },
                            ),
                        );
                    }
                },
                GesturePhase::Active => {
                    let moved = IncrementalOffsetPointer {
                        initial_data: t.initial,
                        preceding_data: t.current,
                        current_data: sample,
                    };
                    let data = if index == 0 {
                        PinchUpdateData {
                            first: moved,
                            second: IncrementalOffsetPointer {
                                initial_data: second.initial,
                                preceding_data: second.current,
                                current_data: second.current,
                            },
                            updated_pointer: PinchUpdatedPointer::First,
                        }
                    } else {
                        PinchUpdateData {
                            first: IncrementalOffsetPointer {
                                initial_data: first.initial,
                                preceding_data: first.current,
                                current_data: first.current,
                            },
                            second: moved,
                            updated_pointer: PinchUpdatedPointer::Second,
                        }
                    };
                    fired.push(GestureEvent::PinchUpdate(data));
                },
            }
        }
        proof {
            let step = down_update(
                old(self).pointers@,
                old(self).phase,
                index as int,
                sample,
                old(self).drag_pred(),
                old(self).pinch_pred(),
            );
            assert(final(self).pointers@ =~= step.0);
            assert(fired@ =~= step.2);
        }
        fired
    }

    /// Releases the known pressed pointer at `index`; returns the fired
    /// events in firing order. This is the transition `down_release`
    /// with the end event variants.
    fn remove_known_down_pointer_event(&mut self, index: usize, sample: PointerSample) -> (fired:
        Vec<GestureEvent>)
        requires
            index < old(self).pointers@.len(),
            old(self).pointers@[index as int].id.0 == sample.pointer_id,
        ensures
            ({
                let step = down_release(
                    old(self).pointers@,
                    old(self).phase,
                    index as int,
                    sample,
                    old(self).drag_pred(),
                    old(self).pinch_pred(),
                    false,
                );
                &&& final(self).pointers@ == step.0
                &&& final(self).phase == step.1
                &&& fired@ == step.2
            }),
            final(self).drag == old(self).drag,
            final(self).pinch == old(self).pinch,
    {
        let mut fired: Vec<GestureEvent> = Vec::new();
        let removed = self.pointers.remove(index);
        let len = self.pointers.len();
        if len == 0 {
            if self.phase == GesturePhase::Active {
                fired.push(
                    GestureEvent::DragEnd(
                        DragEndData {
                            pointer: OffsetPointer {
                                initial_data: removed.initial,
                                final_data: sample,
                            },
                        },
                    ),
                );
            }
        } else if len == 1 {
            if self.phase == GesturePhase::Active {
                let retained = self.pointers[0];
                let removed_pair = OffsetPointer {
                    initial_data: removed.initial,
                    final_data: sample,
                };
                let retained_pair = OffsetPointer {
                    initial_data: retained.initial,
                    final_data: retained.current,
                };
                let data = if index == 0 {
                    PinchEndData { first: removed_pair, second: retained_pair }
                } else {
                    PinchEndData { first: retained_pair, second: removed_pair }
                };
                fired.push(GestureEvent::PinchEnd(data));
            }
            self.pointers[0].initial = self.pointers[0].current;
            let p0 = self.pointers[0];
            if self.drag.drag_started(&p0.current, &p0.current) {
                self.phase = GesturePhase::Active;
                fired.push(
                    GestureEvent::DragStart(
                        DragStartData { pointer: InitialPointer { data: p0.initial } },
                    ),
                );
            } else {
                self.phase = GesturePhase::Pending;
            }
        } else if len == 2 {
            self.pointers[0].initial = self.pointers[0].current;
            self.pointers[1].initial = self.pointers[1].current;
            let first = self.pointers[0];
            let second = self.pointers[1];
            if self.pinch.pinch_started(
                &first.initial,
                &first.current,
                &second.initial,
                &second.current,
            ) {
                self.phase = GesturePhase::Active;
                fired.push(
                    GestureEvent::PinchStart(
                        PinchStartData {
                            first: InitialPointer { data: first.initial },
                            second: InitialPointer { data: second.initial },
                        },
                    ),
                );
            } else {
                self.phase = GesturePhase::Pending;
            }
        }
        proof {
            let step = down_release(
                old(self).pointers@,
                old(self).phase,
                index as int,
                sample,
                old(self).drag_pred(),
                old(self).pinch_pred(),
                false,
            );
            assert(final(self).pointers@ =~= step.0);
            assert(fired@ =~= step.2);
        }
        fired
    }

    /// Cancels the known pressed pointer at `index`; returns the fired
    /// events in firing order. This is the transition `down_release`
    /// with the cancel event variants.
    fn cancel_known_down_pointer_event(&mut self, index: usize, sample: PointerSample) -> (fired:
        Vec<GestureEvent>)
        requires
            index < old(self).pointers@.len(),
            old(self).pointers@[index as int].id.0 == sample.pointer_id,
        ensures
            ({
                let step = down_release(
                    old(self).pointers@,
                    old(self).phase,
                    index as int,
                    sample,
                    old(self).drag_pred(),
                    old(self).pinch_pred(),
                    true,
                );
                &&& final(self).pointers@ == step.0
                &&& final(self).phase == step.1
                &&& fired@ == step.2
            }),
            final(self).drag == old(self).drag,
            final(self).pinch == old(self).pinch,
    {
        let mut fired: Vec<GestureEvent> = Vec::new();
        let removed = self.pointers.remove(index);
        let len = self.pointers.len();
        if len == 0 {
            if self.phase == GesturePhase::Active {
                fired.push(
                    GestureEvent::DragCancel(
                        DragCancelData {
                            pointer: OffsetPointer {
                                initial_data: removed.initial,
                                final_data: sample,
                            },
                        },
                    ),
                );
            }
        } else if len == 1 {
            if self.phase == GesturePhase::Active {
                let retained = self.pointers[0];
                let removed_pair = OffsetPointer {
                    initial_data: removed.initial,
                    final_data: sample,
                };
                let retained_pair = OffsetPointer {
                    initial_data: retained.initial,
                    final_data: retained.current,
                };
                let data = if index == 0 {
                    PinchCancelData { first: removed_pair, second: retained_pair }
                } else {
                    PinchCancelData { first: retained_pair, second: removed_pair }
                };
                fired.push(GestureEvent::PinchCancel(data));
            }
            self.pointers[0].initial = self.pointers[0].current;
            let p0 = self.pointers[0];
            if self.drag.drag_started(&p0.current, &p0.current) {
                self.phase = GesturePhase::Active;
                fired.push(
                    GestureEvent::DragStart(
                        DragStartData { pointer: InitialPointer { data: p0.initial } },
                    ),
                );
            } else {
                self.phase = GesturePhase::Pending;
            }
        } else if len == 2 {
            self.pointers[0].initial = self.pointers[0].current;
            self.pointers[1].initial = self.pointers[1].current;
            let first = self.pointers[0];
            let second = self.pointers[1];
            if self.pinch.pinch_started(
                &first.initial,
                &first.current,
                &second.initial,
                &second.current,
            ) {
                self.phase = GesturePhase::Active;
                fired.push(
                    GestureEvent::PinchStart(
                        PinchStartData {
                            first: InitialPointer { data: first.initial },
                            second: InitialPointer { data: second.initial },
                        },
                    ),
                );
            } else {
                self.phase = GesturePhase::Pending;
            }
        }
        proof {
            let step = down_release(
                old(self).pointers@,
                old(self).phase,
                index as int,
                sample,
                old(self).drag_pred(),
                old(self).pinch_pred(),
                true,
            );
            assert(final(self).pointers@ =~= step.0);
            assert(fired@ =~= step.2);
        }
        fired
    }

    /// Routes a `down` sample: a new id is registered, a known id is
    /// treated as a move. Returns the fired events in firing order.
    pub fn add_or_update(&mut self, sample: PointerSample) -> (fired: Vec<GestureEvent>)
        ensures
            ({
                let step = down_add_or_update(
                    old(self).pointers@,
                    old(self).phase,
                    sample,
                    old(self).drag_pred(),
                    old(self).pinch_pred(),
                );
                &&& final(self).pointers@ == step.0
                &&& final(self).phase == step.1
                &&& fired@ == step.2
            }),
            final(self).drag == old(self).drag,
            final(self).pinch == old(self).pinch,
    {
        proof {
            lemma_down_track_index(self.pointers@, sample.pointer_id);
        }
        match self.position_of(sample.pointer_id) {
            Some(i) => self.update_known_down_pointer_event(i, sample),
            None => self.add_down_pointer_event(sample),
        }
    }

    /// Routes a `move` sample: known ids are updated, unknown ids are
    /// silently ignored. Returns the fired events in firing order.
    pub fn update(&mut self, sample: PointerSample) -> (fired: Vec<GestureEvent>)
        ensures
            ({
                let step = down_move(
                    old(self).pointers@,
                    old(self).phase,
                    sample,
                    old(self).drag_pred(),
                    old(self).pinch_pred(),
                );
                &&& final(self).pointers@ == step.0
                &&& final(self).phase == step.1
                &&& fired@ == step.2
            }),
            final(self).drag == old(self).drag,
            final(self).pinch == old(self).pinch,
    {
        proof {
            lemma_down_track_index(self.pointers@, sample.pointer_id);
        }
        match self.position_of(sample.pointer_id) {
            Some(i) => self.update_known_down_pointer_event(i, sample),
            None => Vec::new(),
        }
    }

    /// Routes an `up`, `out` or `leave` sample: known ids are released,
    /// unknown ids are silently ignored. Returns the fired events in
    /// firing order.
    pub fn remove(&mut self, sample: PointerSample) -> (fired: Vec<GestureEvent>)
        ensures
            ({
                let step = down_drop(
                    old(self).pointers@,
                    old(self).phase,
                    sample,
                    old(self).drag_pred(),
                    old(self).pinch_pred(),
                    false,
                );
                &&& final(self).pointers@ == step.0
                &&& final(self).phase == step.1
                &&& fired@ == step.2
            }),
            final(self).drag == old(self).drag,
            final(self).pinch == old(self).pinch,
    {
        proof {
            lemma_down_track_index(self.pointers@, sample.pointer_id);
        }
        match self.position_of(sample.pointer_id) {
            Some(i) => self.remove_known_down_pointer_event(i, sample),
            None => Vec::new(),
        }
    }

    /// Routes a `cancel` sample: known ids are cancelled, unknown ids
    /// are silently ignored. Returns the fired events in firing order.
    pub fn cancel(&mut self, sample: PointerSample) -> (fired: Vec<GestureEvent>)
        ensures
            ({
                let step = down_drop(
                    old(self).pointers@,
                    old(self).phase,
                    sample,
                    old(self).drag_pred(),
                    old(self).pinch_pred(),
                    true,
                );
                &&& final(self).pointers@ == step.0
                &&& final(self).phase == step.1
                &&& fired@ == step.2
            }),
            final(self).drag == old(self).drag,
            final(self).pinch == old(self).pinch,
    {
        proof {
            lemma_down_track_index(self.pointers@, sample.pointer_id);
        }
        match self.position_of(sample.pointer_id) {
            Some(i) => self.cancel_known_down_pointer_event(i, sample),
            None => Vec::new(),
        }
    }

    /// Routes one raw pointer event by its kind; returns the fired events
    /// in firing order. This is exactly the transition `down_step`.
    pub fn on_pointer_event(&mut self, kind: PointerEventKind, sample: PointerSample) -> (fired:
        Vec<GestureEvent>)
        ensures
            ({
                let step = down_step(
                    old(self).pointers@,
                    old(self).phase,
                    kind,
                    sample,
                    old(self).drag_pred(),
                    old(self).pinch_pred(),
                );
                &&& final(self).pointers@ == step.0
                &&& final(self).phase == step.1
                &&& fired@ == step.2
            }),
            final(self).drag == old(self).drag,
            final(self).pinch == old(self).pinch,
    {
        match kind {
            PointerEventKind::Over => Vec::new(),
            PointerEventKind::Enter => Vec::new(),
            PointerEventKind::Down => self.add_or_update(sample),
            PointerEventKind::Move => self.update(sample),
            PointerEventKind::Up => self.remove(sample),
            PointerEventKind::Out => self.remove(sample),
            PointerEventKind::Leave => self.remove(sample),
            PointerEventKind::Cancel => self.cancel(sample),
        }
    }
}

} // verus!
