//! Presence-based tracking of the pointers currently hovering the target.
//!
//! Hover has no activation threshold and no upper bound on the number of
//! concurrently tracked pointers: presence alone drives its lifecycle. A
//! pointer joins the hovered set on its first `enter`, `down` or `move`
//! sample, is updated by later such samples, and leaves the set on `up`,
//! `out`, `leave` (disappear) or `cancel`. The overall hover starts when
//! the set becomes non-empty and ends (or cancels) when it empties again.

use vstd::prelude::*;

use crate::events::PointerEventKind;
use crate::pointer::{IncrementalOffsetPointer, InitialPointer, OffsetPointer};
use crate::sample::{PointerId, PointerSample};

verus! {

/// One tracked hovering pointer: its identifier, the sample that created
/// the track and the most recent sample seen for it.
#[derive(Clone, Copy, PartialEq, Eq, Structural, Debug)]
pub struct HoverPointerState {
    pub id: PointerId,
    pub initial_state: PointerSample,
    pub previous_state: PointerSample,
}

/// Payload of a pointer-appear event: the sample that created the track.
#[derive(Clone, Copy, PartialEq, Eq, Structural, Debug)]
pub struct HoverPointerAppearData {
    pub pointer: InitialPointer,
}

/// Payload of a pointer-update event: initial, preceding and current sample.
#[derive(Clone, Copy, PartialEq, Eq, Structural, Debug)]
pub struct HoverPointerUpdateData {
    pub pointer: IncrementalOffsetPointer,
}

/// Payload of a pointer-disappear event: initial and final sample.
#[derive(Clone, Copy, PartialEq, Eq, Structural, Debug)]
pub struct HoverPointerDisappearData {
    pub pointer: OffsetPointer,
}

/// Payload of a per-pointer cancel event: initial and final sample.
#[derive(Clone, Copy, PartialEq, Eq, Structural, Debug)]
pub struct HoverPointerCancelData {
    pub pointer: OffsetPointer,
}

/// One callback fired by the hover tracker, in firing order.
#[derive(Clone, Copy, PartialEq, Eq, Structural, Debug)]
pub enum HoverEvent {
    Start,
    End,
    Cancel,
    PointerAppear(HoverPointerAppearData),
    PointerUpdate(HoverPointerUpdateData),
    PointerDisappear(HoverPointerDisappearData),
    PointerCancel(HoverPointerCancelData),
}

/// A label naming one hover event variant, used to count events of a
/// kind in a fired stream.
#[derive(Clone, Copy, PartialEq, Eq, Structural, Debug)]
pub enum HoverEventLabel {
    Start,
    End,
    Cancel,
    PointerAppear,
    PointerUpdate,
    PointerDisappear,
    PointerCancel,
}

/// The label of a hover event.
pub open spec fn hover_label(e: HoverEvent) -> HoverEventLabel {
    match e {
        HoverEvent::Start => HoverEventLabel::Start,
        HoverEvent::End => HoverEventLabel::End,
        HoverEvent::Cancel => HoverEventLabel::Cancel,
        HoverEvent::PointerAppear(_) => HoverEventLabel::PointerAppear,
        HoverEvent::PointerUpdate(_) => HoverEventLabel::PointerUpdate,
        HoverEvent::PointerDisappear(_) => HoverEventLabel::PointerDisappear,
        HoverEvent::PointerCancel(_) => HoverEventLabel::PointerCancel,
    }
}

/// How many events of `evs` carry the label `label`.
pub open spec fn hover_count(evs: Seq<HoverEvent>, label: HoverEventLabel) -> nat
    decreases evs.len(),
{
    if evs.len() == 0 {
        0
    } else {
        (if hover_label(evs[0]) == label {
            1nat
        } else {
            0nat
        }) + hover_count(evs.drop_first(), label)
    }
}

/// Counting a one-event stream: one for the event's own label, zero for
/// every other label.
pub proof fn lemma_hover_count_singleton(e: HoverEvent)
    ensures
        forall|label: HoverEventLabel|
            #[trigger] hover_count(seq![e], label) == (if hover_label(e) == label {
                1nat
            } else {
                0nat
            }),
{
    assert forall|label: HoverEventLabel|
        #[trigger] hover_count(seq![e], label) == (if hover_label(e) == label {
            1nat
        } else {
            0nat
        }) by {
        assert(seq![e].drop_first() =~= Seq::<HoverEvent>::empty());
        assert(hover_count(seq![e].drop_first(), label) == 0);
    }
}

/// Counting distributes over concatenation of fired streams.
pub proof fn lemma_hover_count_concat(a: Seq<HoverEvent>, b: Seq<HoverEvent>)
    ensures
        forall|label: HoverEventLabel|
            #[trigger] hover_count(a + b, label) == hover_count(a, label) + hover_count(b, label),
    decreases a.len(),
{
    if a.len() == 0 {
        assert(a + b =~= b);
    } else {
        assert((a + b).drop_first() =~= a.drop_first() + b);
        lemma_hover_count_concat(a.drop_first(), b);
        assert forall|label: HoverEventLabel|
            #[trigger] hover_count(a + b, label) == hover_count(a, label) + hover_count(
                b,
                label,
            ) by {
            assert((a + b)[0] == a[0]);
            assert(hover_count((a + b).drop_first(), label) == hover_count(a.drop_first(), label)
                + hover_count(b, label));
        }
    }
}

/// The index of the first track whose pointer id is `id`, or -1 if no
/// track carries that id.
pub open spec fn hover_track_index(tracks: Seq<HoverPointerState>, id: i32) -> int
    decreases tracks.len(),
{
    if tracks.len() == 0 {
        -1
    } else if tracks[0].id.0 == id {
        0
    } else {
        let rest = hover_track_index(tracks.drop_first(), id);
        if rest == -1 {
            -1
        } else {
            rest + 1
        }
    }
}

/// Whether some track carries the pointer id `id`.
pub open spec fn hover_has_id(tracks: Seq<HoverPointerState>, id: i32) -> bool {
    exists|i: int| 0 <= i < tracks.len() && tracks[i].id.0 == id
}

/// `hover_track_index` finds the first matching track, and finds one
/// exactly when one exists.
pub proof fn lemma_hover_track_index(tracks: Seq<HoverPointerState>, id: i32)
    ensures
        -1 <= hover_track_index(tracks, id) < tracks.len(),
        hover_track_index(tracks, id) == -1 <==> !hover_has_id(tracks, id),
        hover_track_index(tracks, id) >= 0 ==> tracks[hover_track_index(tracks, id)].id.0 == id,
        forall|i: int|
            0 <= i < hover_track_index(tracks, id) ==> tracks[i].id.0 != id,
    decreases tracks.len(),
{
    if tracks.len() == 0 {
    } else if tracks[0].id.0 == id {
        assert(hover_has_id(tracks, id));
    } else {
        lemma_hover_track_index(tracks.drop_first(), id);
        let rest = tracks.drop_first();
        let r = hover_track_index(rest, id);
        assert forall|i: int| 1 <= i < tracks.len() implies tracks[i] == rest[i - 1] by {
            assert(rest =~= tracks.subrange(1, tracks.len() as int));
        }
        if r == -1 {
            assert forall|i: int| 0 <= i < tracks.len() implies tracks[i].id.0 != id by {
                if i >= 1 {
                    assert(tracks[i] == rest[i - 1]);
                }
            }
            assert(!hover_has_id(tracks, id));
        } else {
            assert(tracks[r + 1] == rest[r]);
            assert(tracks[r + 1].id.0 == id);
            assert(hover_has_id(tracks, id));
            assert forall|i: int| 0 <= i < r + 1 implies tracks[i].id.0 != id by {
                if i >= 1 {
                    assert(tracks[i] == rest[i - 1]);
                }
            }
        }
    }
}

/// The step taken for a sample arriving through `enter`, `down` or `move`:
/// an unknown id creates a track (firing the overall start first if the
/// set was empty, then pointer-appear); a known id updates its track and
/// fires pointer-update.
pub open spec fn hover_add_or_update(tracks: Seq<HoverPointerState>, s: PointerSample) -> (Seq<
    HoverPointerState,
>, Seq<HoverEvent>) {
    let j = hover_track_index(tracks, s.pointer_id);
    if j == -1 {
        let t = HoverPointerState { id: PointerId(s.pointer_id), initial_state: s, previous_state: s };
        let appear = HoverEvent::PointerAppear(
            HoverPointerAppearData { pointer: InitialPointer { data: s } },
        );
        if tracks.len() == 0 {
            (tracks.push(t), seq![HoverEvent::Start, appear])
        } else {
            (tracks.push(t), seq![appear])
        }
    } else {
        let t = tracks[j];
        let update = HoverEvent::PointerUpdate(
            HoverPointerUpdateData {
                pointer: IncrementalOffsetPointer {
                    initial_data: t.initial_state,
                    preceding_data: t.previous_state,
                    current_data: s,
                },
            },
        );
        (tracks.update(j, HoverPointerState { previous_state: s, ..t }), seq![update])
    }
}

/// The step taken for a sample arriving through `up`, `out` or `leave`:
/// a known id is removed, firing pointer-disappear and then the overall
/// end if the set emptied; an unknown id is silently ignored.
pub open spec fn hover_remove(tracks: Seq<HoverPointerState>, s: PointerSample) -> (Seq<
    HoverPointerState,
>, Seq<HoverEvent>) {
    let j = hover_track_index(tracks, s.pointer_id);
    if j == -1 {
        (tracks, Seq::empty())
    } else {
        let t = tracks[j];
        let rest = tracks.remove(j);
        let disappear = HoverEvent::PointerDisappear(
            HoverPointerDisappearData {
                pointer: OffsetPointer { initial_data: t.initial_state, final_data: s },
            },
        );
        if rest.len() == 0 {
            (rest, seq![disappear, HoverEvent::End])
        } else {
            (rest, seq![disappear])
        }
    }
}

/// The step taken for a `cancel` sample: like removal, but fires the
/// cancel event variants instead of the end variants.
pub open spec fn hover_cancel(tracks: Seq<HoverPointerState>, s: PointerSample) -> (Seq<
    HoverPointerState,
>, Seq<HoverEvent>) {
    let j = hover_track_index(tracks, s.pointer_id);
    if j == -1 {
        (tracks, Seq::empty())
    } else {
        let t = tracks[j];
        let rest = tracks.remove(j);
        let cancel = HoverEvent::PointerCancel(
            HoverPointerCancelData {
                pointer: OffsetPointer { initial_data: t.initial_state, final_data: s },
            },
        );
        if rest.len() == 0 {
            (rest, seq![cancel, HoverEvent::Cancel])
        } else {
            (rest, seq![cancel])
        }
    }
}

/// The full transition table of the hover tracker for one raw event:
/// `over` is inert, `enter`/`down`/`move` add or update, `up`/`out`/
/// `leave` remove, and `cancel` cancels.
pub open spec fn hover_step(
    tracks: Seq<HoverPointerState>,
    kind: PointerEventKind,
    s: PointerSample,
) -> (Seq<HoverPointerState>, Seq<HoverEvent>) {
    match kind {
        PointerEventKind::Over => (tracks, Seq::empty()),
        PointerEventKind::Enter => hover_add_or_update(tracks, s),
        PointerEventKind::Down => hover_add_or_update(tracks, s),
        PointerEventKind::Move => hover_add_or_update(tracks, s),
        PointerEventKind::Up => hover_remove(tracks, s),
        PointerEventKind::Out => hover_remove(tracks, s),
        PointerEventKind::Leave => hover_remove(tracks, s),
        PointerEventKind::Cancel => hover_cancel(tracks, s),
    }
}

/// Folds a sequence of raw events through `hover_step`, concatenating
/// everything fired along the way.
pub open spec fn hover_run(
    tracks: Seq<HoverPointerState>,
    events: Seq<(PointerEventKind, PointerSample)>,
) -> (Seq<HoverPointerState>, Seq<HoverEvent>)
    decreases events.len(),
{
    if events.len() == 0 {
        (tracks, Seq::empty())
    } else {
        let step = hover_step(tracks, events[0].0, events[0].1);
        let rest = hover_run(step.0, events.drop_first());
        (rest.0, step.1 + rest.1)
    }
}

/// Law: an event of a pointer id the tracker has never observed is a
/// no-op on every path that does not create tracks; the state is
/// unchanged and nothing fires. (`enter`, `down` and `move` are the
/// paths that create a track for an unknown id.)
pub proof fn lemma_hover_unknown_id_ignored(
    tracks: Seq<HoverPointerState>,
    kind: PointerEventKind,
    s: PointerSample,
)
    requires
        !hover_has_id(tracks, s.pointer_id),
        !(kind is Enter),
        !(kind is Down),
        !(kind is Move),
    ensures
        hover_step(tracks, kind, s).0 == tracks,
        hover_step(tracks, kind, s).1 == Seq::<HoverEvent>::empty(),
{
    lemma_hover_track_index(tracks, s.pointer_id);
}

/// Appending a track adds exactly its id to the id set.
proof fn lemma_hover_has_id_push(tracks: Seq<HoverPointerState>, t: HoverPointerState, id: i32)
    ensures
        hover_has_id(tracks.push(t), id) == (hover_has_id(tracks, id) || t.id.0 == id),
{
    if hover_has_id(tracks, id) {
        let w = choose|i: int| 0 <= i < tracks.len() && tracks[i].id.0 == id;
        assert(tracks.push(t)[w].id.0 == id);
    }
    if t.id.0 == id {
        assert(tracks.push(t)[tracks.len() as int].id.0 == id);
    }
    if hover_has_id(tracks.push(t), id) {
        let w = choose|i: int| 0 <= i < tracks.push(t).len() && tracks.push(t)[i].id.0 == id;
        if w < tracks.len() {
            assert(tracks[w].id.0 == id);
        }
    }
}

/// A run of enter events with fresh, pairwise distinct ids: every event
/// appends one track, hover-start fires exactly once if the tracker was
/// empty, pointer-appear fires once per event, and nothing else fires.
pub proof fn lemma_hover_enter_run(
    tracks: Seq<HoverPointerState>,
    events: Seq<(PointerEventKind, PointerSample)>,
)
    requires
        forall|i: int| 0 <= i < events.len() ==> (#[trigger] events[i]).0 is Enter,
        forall|i: int, j: int|
            0 <= i < j < events.len() ==> events[i].1.pointer_id != events[j].1.pointer_id,
        forall|i: int|
            0 <= i < events.len() ==> !hover_has_id(tracks, (#[trigger] events[i]).1.pointer_id),
    ensures
        ({
            let run = hover_run(tracks, events);
            &&& run.0.len() == tracks.len() + events.len()
            &&& forall|i: int| 0 <= i < tracks.len() ==> run.0[i] == tracks[i]
            &&& forall|i: int|
                0 <= i < events.len() ==> run.0[tracks.len() + i].id.0 == (#[trigger] events[i]).1.pointer_id
            &&& hover_count(run.1, HoverEventLabel::Start) == (if tracks.len() == 0
                && events.len() > 0 {
                1nat
            } else {
                0nat
            })
            &&& hover_count(run.1, HoverEventLabel::PointerAppear) == events.len()
            &&& hover_count(run.1, HoverEventLabel::End) == 0
            &&& hover_count(run.1, HoverEventLabel::Cancel) == 0
            &&& hover_count(run.1, HoverEventLabel::PointerUpdate) == 0
            &&& hover_count(run.1, HoverEventLabel::PointerDisappear) == 0
            &&& hover_count(run.1, HoverEventLabel::PointerCancel) == 0
        }),
    decreases events.len(),
{
    if events.len() == 0 {
    } else {
        let s0 = events[0].1;
        lemma_hover_track_index(tracks, s0.pointer_id);
        let step = hover_step(tracks, events[0].0, events[0].1);
        let t0 = HoverPointerState {
            id: PointerId(s0.pointer_id),
            initial_state: s0,
            previous_state: s0,
        };
        assert(step.0 == tracks.push(t0));
        let rest_events = events.drop_first();
        assert forall|i: int|
            0 <= i < rest_events.len() implies !hover_has_id(
            tracks.push(t0),
            (#[trigger] rest_events[i]).1.pointer_id,
        ) by {
            assert(rest_events[i] == events[i + 1]);
            lemma_hover_has_id_push(tracks, t0, rest_events[i].1.pointer_id);
        }
        lemma_hover_enter_run(tracks.push(t0), rest_events);
        let rest = hover_run(tracks.push(t0), rest_events);
        lemma_hover_count_concat(step.1, rest.1);
        let appear_ev = HoverEvent::PointerAppear(
            HoverPointerAppearData { pointer: InitialPointer { data: s0 } },
        );
        if tracks.len() == 0 {
            assert(step.1 =~= seq![HoverEvent::Start] + seq![appear_ev]);
            lemma_hover_count_concat(seq![HoverEvent::Start], seq![appear_ev]);
            lemma_hover_count_singleton(HoverEvent::Start);
            lemma_hover_count_singleton(appear_ev);
        } else {
            assert(step.1 =~= seq![appear_ev]);
            lemma_hover_count_singleton(appear_ev);
        }
        let run = hover_run(tracks, events);
        assert(run.0 == rest.0 && run.1 == step.1 + rest.1);
        assert forall|i: int| 0 <= i < tracks.len() implies run.0[i] == tracks[i] by {
            assert(rest.0[i] == tracks.push(t0)[i]);
            assert(tracks.push(t0)[i] == tracks[i]);
        }
        assert forall|i: int|
            0 <= i < events.len() implies run.0[tracks.len() + i].id.0 == (#[trigger] events[i]).1.pointer_id by {
            if i == 0 {
                assert(run.0[tracks.len() as int] == tracks.push(t0)[tracks.len() as int]);
            } else {
                assert(run.0[(tracks.len() + 1) + (i - 1)].id.0 == rest_events[i
                    - 1].1.pointer_id);
            }
        }
    }
}

/// Removing a track at `j` from a set of pairwise distinct ids leaves
/// the other ids present and the removed id absent.
proof fn lemma_hover_has_id_remove(tracks: Seq<HoverPointerState>, j: int, id: i32)
    requires
        0 <= j < tracks.len(),
        forall|a: int, b: int| 0 <= a < b < tracks.len() ==> tracks[a].id.0 != tracks[b].id.0,
    ensures
        tracks[j].id.0 != id ==> hover_has_id(tracks.remove(j), id) == hover_has_id(tracks, id),
        !hover_has_id(tracks.remove(j), tracks[j].id.0),
        forall|a: int, b: int|
            0 <= a < b < tracks.remove(j).len() ==> tracks.remove(j)[a].id.0 != tracks.remove(
                j,
            )[b].id.0,
{
    tracks.remove_ensures(j);
    let rest = tracks.remove(j);
    if tracks[j].id.0 != id {
        if hover_has_id(tracks, id) {
            let w = choose|i: int| 0 <= i < tracks.len() && tracks[i].id.0 == id;
            if w < j {
                assert(rest[w].id.0 == id);
            } else {
                assert(w > j);
                assert(rest[w - 1].id.0 == id);
            }
            assert(hover_has_id(rest, id));
        }
        if hover_has_id(rest, id) {
            let w = choose|i: int| 0 <= i < rest.len() && rest[i].id.0 == id;
            if w < j {
                assert(tracks[w].id.0 == id);
            } else {
                assert(tracks[w + 1].id.0 == id);
            }
            assert(hover_has_id(tracks, id));
        }
    }
    if hover_has_id(rest, tracks[j].id.0) {
        let w = choose|i: int| 0 <= i < rest.len() && rest[i].id.0 == tracks[j].id.0;
        if w < j {
            assert(tracks[w].id.0 == tracks[j].id.0);
            assert(false);
        } else {
            assert(tracks[w + 1].id.0 == tracks[j].id.0);
            assert(false);
        }
    }
    assert forall|a: int, b: int|
        0 <= a < b < rest.len() implies rest[a].id.0 != rest[b].id.0 by {
        let a0 = if a < j {
            a
        } else {
            a + 1
        };
        let b0 = if b < j {
            b
        } else {
            b + 1
        };
        assert(rest[a] == tracks[a0] && rest[b] == tracks[b0]);
    }
}

/// A run of leave events that drains a tracker of pairwise distinct ids:
/// pointer-disappear fires once per event, hover-end fires exactly once
/// on the last one, and nothing else fires.
pub proof fn lemma_hover_leave_run(
    tracks: Seq<HoverPointerState>,
    events: Seq<(PointerEventKind, PointerSample)>,
)
    requires
        events.len() == tracks.len(),
        forall|i: int| 0 <= i < events.len() ==> (#[trigger] events[i]).0 is Leave,
        forall|i: int, j: int|
            0 <= i < j < events.len() ==> events[i].1.pointer_id != events[j].1.pointer_id,
        forall|a: int, b: int| 0 <= a < b < tracks.len() ==> tracks[a].id.0 != tracks[b].id.0,
        forall|i: int|
            0 <= i < events.len() ==> hover_has_id(tracks, (#[trigger] events[i]).1.pointer_id),
    ensures
        ({
            let run = hover_run(tracks, events);
            &&& run.0.len() == 0
            &&& hover_count(run.1, HoverEventLabel::PointerDisappear) == events.len()
            &&& hover_count(run.1, HoverEventLabel::End) == (if events.len() > 0 {
                1nat
            } else {
                0nat
            })
            &&& hover_count(run.1, HoverEventLabel::Start) == 0
            &&& hover_count(run.1, HoverEventLabel::Cancel) == 0
            &&& hover_count(run.1, HoverEventLabel::PointerAppear) == 0
            &&& hover_count(run.1, HoverEventLabel::PointerUpdate) == 0
            &&& hover_count(run.1, HoverEventLabel::PointerCancel) == 0
        }),
    decreases events.len(),
{
    if events.len() == 0 {
    } else {
        let s0 = events[0].1;
        lemma_hover_track_index(tracks, s0.pointer_id);
        let j = hover_track_index(tracks, s0.pointer_id);
        assert(j >= 0);
        let step = hover_step(tracks, events[0].0, events[0].1);
        let rest_tracks = tracks.remove(j);
        tracks.remove_ensures(j);
        assert(step.0 == rest_tracks);
        let rest_events = events.drop_first();
        assert forall|i: int|
            0 <= i < rest_events.len() implies hover_has_id(
            rest_tracks,
            (#[trigger] rest_events[i]).1.pointer_id,
        ) by {
            assert(rest_events[i] == events[i + 1]);
            lemma_hover_has_id_remove(tracks, j, rest_events[i].1.pointer_id);
        }
        lemma_hover_has_id_remove(tracks, j, s0.pointer_id);
        lemma_hover_leave_run(rest_tracks, rest_events);
        let rest = hover_run(rest_tracks, rest_events);
        lemma_hover_count_concat(step.1, rest.1);
        let disappear_ev = HoverEvent::PointerDisappear(
            HoverPointerDisappearData {
                pointer: OffsetPointer { initial_data: tracks[j].initial_state, final_data: s0 },
            },
        );
        if rest_tracks.len() == 0 {
            assert(step.1 =~= seq![disappear_ev] + seq![HoverEvent::End]);
            lemma_hover_count_concat(seq![disappear_ev], seq![HoverEvent::End]);
            lemma_hover_count_singleton(disappear_ev);
            lemma_hover_count_singleton(HoverEvent::End);
        } else {
            assert(step.1 =~= seq![disappear_ev]);
            lemma_hover_count_singleton(disappear_ev);
        }
    }
}

/// Splitting a run at any point: the final state is the state after
/// running both halves in order, and the fired stream is the
/// concatenation of both halves' streams.
pub proof fn lemma_hover_run_concat(
    tracks: Seq<HoverPointerState>,
    a: Seq<(PointerEventKind, PointerSample)>,
    b: Seq<(PointerEventKind, PointerSample)>,
)
    ensures
        hover_run(tracks, a + b).0 == hover_run(hover_run(tracks, a).0, b).0,
        hover_run(tracks, a + b).1 == hover_run(tracks, a).1 + hover_run(
            hover_run(tracks, a).0,
            b,
        ).1,
    decreases a.len(),
{
    if a.len() == 0 {
        assert(a + b =~= b);
        assert(hover_run(tracks, a).0 == tracks);
        assert(hover_run(tracks, a).1 + hover_run(tracks, b).1 =~= hover_run(tracks, b).1);
    } else {
        let step = hover_step(tracks, a[0].0, a[0].1);
        assert((a + b).drop_first() =~= a.drop_first() + b);
        assert((a + b)[0] == a[0]);
        lemma_hover_run_concat(step.0, a.drop_first(), b);
        assert(step.1 + (hover_run(step.0, a.drop_first()).1 + hover_run(
            hover_run(step.0, a.drop_first()).0,
            b,
        ).1) =~= (step.1 + hover_run(step.0, a.drop_first()).1) + hover_run(
            hover_run(step.0, a.drop_first()).0,
            b,
        ).1);
    }
}

/// Law: for any number of distinct pointers entering an empty tracker
/// and then all leaving, in any leave order, exactly one hover-start and
/// one hover-end fire, together with exactly one pointer-appear /
/// pointer-disappear pair per pointer; nothing else fires and no
/// pointer remains tracked.
pub proof fn lemma_hover_session(
    events: Seq<(PointerEventKind, PointerSample)>,
    n: int,
)
    requires
        1 <= n,
        events.len() == 2 * n,
        forall|i: int| 0 <= i < n ==> (#[trigger] events[i]).0 is Enter,
        forall|i: int| n <= i < 2 * n ==> (#[trigger] events[i]).0 is Leave,
        forall|i: int, j: int|
            0 <= i < j < n ==> events[i].1.pointer_id != events[j].1.pointer_id,
        forall|i: int, j: int|
            n <= i < j < 2 * n ==> events[i].1.pointer_id != events[j].1.pointer_id,
        forall|i: int|
            n <= i < 2 * n ==> (exists|j: int|
                0 <= j < n && events[j].1.pointer_id == (#[trigger] events[i]).1.pointer_id),
    ensures
        ({
            let run = hover_run(Seq::empty(), events);
            &&& run.0.len() == 0
            &&& hover_count(run.1, HoverEventLabel::Start) == 1
            &&& hover_count(run.1, HoverEventLabel::End) == 1
            &&& hover_count(run.1, HoverEventLabel::PointerAppear) == n
            &&& hover_count(run.1, HoverEventLabel::PointerDisappear) == n
            &&& hover_count(run.1, HoverEventLabel::Cancel) == 0
            &&& hover_count(run.1, HoverEventLabel::PointerUpdate) == 0
            &&& hover_count(run.1, HoverEventLabel::PointerCancel) == 0
        }),
{
    let enters = events.subrange(0, n);
    let leaves = events.subrange(n, 2 * n);
    assert(events =~= enters + leaves);
    lemma_hover_run_concat(Seq::empty(), enters, leaves);
    assert forall|i: int|
        0 <= i < enters.len() implies !hover_has_id(
        Seq::<HoverPointerState>::empty(),
        (#[trigger] enters[i]).1.pointer_id,
    ) by {}
    lemma_hover_enter_run(Seq::empty(), enters);
    let mid = hover_run(Seq::empty(), enters).0;
    assert forall|a: int, b: int|
        0 <= a < b < mid.len() implies mid[a].id.0 != mid[b].id.0 by {
        assert(mid[a].id.0 == enters[a].1.pointer_id);
        assert(mid[b].id.0 == enters[b].1.pointer_id);
    }
    assert forall|i: int|
        0 <= i < leaves.len() implies hover_has_id(
        mid,
        (#[trigger] leaves[i]).1.pointer_id,
    ) by {
        let j = choose|j: int|
            0 <= j < n && events[j].1.pointer_id == leaves[i].1.pointer_id;
        assert(mid[j].id.0 == enters[j].1.pointer_id);
        assert(enters[j].1.pointer_id == leaves[i].1.pointer_id);
    }
    lemma_hover_leave_run(mid, leaves);
    lemma_hover_count_concat(hover_run(Seq::empty(), enters).1, hover_run(mid, leaves).1);
}

/// The hover tracker: the set of pointers currently over the target, in
/// arrival order.
#[derive(Clone, Debug)]
pub struct HoverGestureState {
    pub pointers: Vec<HoverPointerState>,
}

impl HoverGestureState {
    /// A tracker with no hovering pointers.
    pub fn new() -> (s: Self)
        ensures
            s.pointers@ == Seq::<HoverPointerState>::empty(),
    {
        HoverGestureState { pointers: Vec::new() }
    }

    /// The position of the track for the raw id `pointer_id`, if any.
    fn position_of(&self, pointer_id: i32) -> (r: Option<usize>)
        ensures
            match r {
                Some(i) => hover_track_index(self.pointers@, pointer_id) == i,
                None => hover_track_index(self.pointers@, pointer_id) == -1,
            },
    {
        proof {
            lemma_hover_track_index(self.pointers@, pointer_id);
        }
        let mut i: usize = 0;
        while i < self.pointers.len()
            invariant
                0 <= i <= self.pointers@.len(),
                forall|j: int| 0 <= j < i ==> self.pointers@[j].id.0 != pointer_id,
            decreases self.pointers@.len() - i,
        {
            if self.pointers[i].id.is_equal_i32(pointer_id) {
                proof {
                    lemma_hover_track_index(self.pointers@, pointer_id);
                    assert(self.pointers@[i as int].id.0 == pointer_id);
                    assert(hover_has_id(self.pointers@, pointer_id));
                    let j0 = hover_track_index(self.pointers@, pointer_id);
                    assert(j0 >= 0);
                    if j0 < i {
                        assert(self.pointers@[j0].id.0 != pointer_id);
                    }
                    if j0 > i {
                        assert(self.pointers@[i as int].id.0 != pointer_id);
                    }
                    assert(j0 == i);
                }
                return Some(i);
            }
            i = i + 1;
        }
        None
    }

    /// Creates the track for a sample with an unknown id, firing the
    /// overall start first if the set was empty, then pointer-appear.
    fn add_hover_event(&mut self, sample: PointerSample) -> (fired: Vec<HoverEvent>)
        requires
            hover_track_index(old(self).pointers@, sample.pointer_id) == -1,
        ensures
            final(self).pointers@ == hover_add_or_update(old(self).pointers@, sample).0,
            fired@ == hover_add_or_update(old(self).pointers@, sample).1,
    {
        let mut fired: Vec<HoverEvent> = Vec::new();
        let is_first = self.pointers.len() == 0;
        self.pointers.push(
            HoverPointerState {
                id: PointerId(sample.pointer_id),
                initial_state: sample,
                previous_state: sample,
            },
        );
        if is_first {
            fired.push(HoverEvent::Start);
        }
        fired.push(
            HoverEvent::PointerAppear(
                HoverPointerAppearData { pointer: InitialPointer { data: sample } },
            ),
        );
        proof {
            assert(fired@ =~= hover_add_or_update(old(self).pointers@, sample).1);
        }
        fired
    }

    /// Updates the known track at `index`, firing pointer-update with
    /// the initial, preceding and current sample.
    fn update_known_hover_event(&mut self, index: usize, sample: PointerSample) -> (fired: Vec<
        HoverEvent,
    >)
        requires
            hover_track_index(old(self).pointers@, sample.pointer_id) == index,
        ensures
            final(self).pointers@ == hover_add_or_update(old(self).pointers@, sample).0,
            fired@ == hover_add_or_update(old(self).pointers@, sample).1,
    {
        proof {
            lemma_hover_track_index(self.pointers@, sample.pointer_id);
        }
        let mut fired: Vec<HoverEvent> = Vec::new();
        let t = self.pointers[index];
        self.pointers[index].previous_state = sample;
        fired.push(
            HoverEvent::PointerUpdate(
                HoverPointerUpdateData {
                    pointer: IncrementalOffsetPointer {
                        initial_data: t.initial_state,
                        preceding_data: t.previous_state,
                        current_data: sample,
                    },
                },
            ),
        );
        proof {
            assert(final(self).pointers@ =~= hover_add_or_update(old(self).pointers@, sample).0);
            assert(fired@ =~= hover_add_or_update(old(self).pointers@, sample).1);
        }
        fired
    }

    /// Removes the known track at `index`, firing pointer-disappear and
    /// then the overall end if the set emptied.
    fn remove_known_hover_event(&mut self, index: usize, sample: PointerSample) -> (fired: Vec<
        HoverEvent,
    >)
        requires
            hover_track_index(old(self).pointers@, sample.pointer_id) == index,
        ensures
            final(self).pointers@ == hover_remove(old(self).pointers@, sample).0,
            fired@ == hover_remove(old(self).pointers@, sample).1,
    {
        proof {
            lemma_hover_track_index(self.pointers@, sample.pointer_id);
        }
        let mut fired: Vec<HoverEvent> = Vec::new();
        let t = self.pointers.remove(index);
        fired.push(
            HoverEvent::PointerDisappear(
                HoverPointerDisappearData {
                    pointer: OffsetPointer { initial_data: t.initial_state, final_data: sample },
                },
            ),
        );
        if self.pointers.len() == 0 {
            fired.push(HoverEvent::End);
        }
        proof {
            assert(fired@ =~= hover_remove(old(self).pointers@, sample).1);
        }
        fired
    }

    /// Removes the known track at `index`, firing the per-pointer cancel
    /// and then the overall cancel if the set emptied.
    fn cancel_known_hover_event(&mut self, index: usize, sample: PointerSample) -> (fired: Vec<
        HoverEvent,
    >)
        requires
            hover_track_index(old(self).pointers@, sample.pointer_id) == index,
        ensures
            final(self).pointers@ == hover_cancel(old(self).pointers@, sample).0,
            fired@ == hover_cancel(old(self).pointers@, sample).1,
    {
        proof {
            lemma_hover_track_index(self.pointers@, sample.pointer_id);
        }
        let mut fired: Vec<HoverEvent> = Vec::new();
        let t = self.pointers.remove(index);
        fired.push(
            HoverEvent::PointerCancel(
                HoverPointerCancelData {
                    pointer: OffsetPointer { initial_data: t.initial_state, final_data: sample },
                },
            ),
        );
        if self.pointers.len() == 0 {
            fired.push(HoverEvent::Cancel);
        }
        proof {
            assert(fired@ =~= hover_cancel(old(self).pointers@, sample).1);
        }
        fired
    }

    /// Routes a sample arriving through `enter`, `down` or `move`; returns
    /// the fired events in firing order.
    pub fn add_or_update(&mut self, sample: PointerSample) -> (fired: Vec<HoverEvent>)
        ensures
            final(self).pointers@ == hover_add_or_update(old(self).pointers@, sample).0,
            fired@ == hover_add_or_update(old(self).pointers@, sample).1,
    {
        match self.position_of(sample.pointer_id) {
            Some(i) => self.update_known_hover_event(i, sample),
            None => self.add_hover_event(sample),
        }
    }

    /// Routes a sample arriving through `up`, `out` or `leave`; returns
    /// the fired events in firing order.
    pub fn remove(&mut self, sample: PointerSample) -> (fired: Vec<HoverEvent>)
        ensures
            final(self).pointers@ == hover_remove(old(self).pointers@, sample).0,
            fired@ == hover_remove(old(self).pointers@, sample).1,
    {
        match self.position_of(sample.pointer_id) {
            Some(i) => self.remove_known_hover_event(i, sample),
            None => Vec::new(),
        }
    }

    /// Routes a `cancel` sample; returns the fired events in firing order.
    pub fn cancel(&mut self, sample: PointerSample) -> (fired: Vec<HoverEvent>)
        ensures
            final(self).pointers@ == hover_cancel(old(self).pointers@, sample).0,
            fired@ == hover_cancel(old(self).pointers@, sample).1,
    {
        match self.position_of(sample.pointer_id) {
            Some(i) => self.cancel_known_hover_event(i, sample),
            None => Vec::new(),
        }
    }

    /// Routes one raw pointer event by its kind; returns the fired events
    /// in firing order. This is exactly the transition `hover_step`.
    pub fn on_pointer_event(&mut self, kind: PointerEventKind, sample: PointerSample) -> (fired:
        Vec<HoverEvent>)
        ensures
            final(self).pointers@ == hover_step(old(self).pointers@, kind, sample).0,
            fired@ == hover_step(old(self).pointers@, kind, sample).1,
    {
        match kind {
            PointerEventKind::Over => Vec::new(),
            PointerEventKind::Enter => self.add_or_update(sample),
            PointerEventKind::Down => self.add_or_update(sample),
            PointerEventKind::Move => self.add_or_update(sample),
            PointerEventKind::Up => self.remove(sample),
            PointerEventKind::Out => self.remove(sample),
            PointerEventKind::Leave => self.remove(sample),
            PointerEventKind::Cancel => self.cancel(sample),
        }
    }
}

} // verus!
