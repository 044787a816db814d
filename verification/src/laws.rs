use vstd::prelude::*;

use crate::player::PlayerView;
use crate::player::VOLUME_MAX;
use crate::player::spec_pause;
use crate::player::spec_resume;
use crate::player::spec_seek;
use crate::player::spec_set_volume;
use crate::player::spec_skip;
use crate::player::spec_stop;
use crate::player::spec_tick;
use crate::queue::QueueView;
use crate::queue::spec_advance;
use crate::queue::spec_enqueue;
use crate::queue::spec_rewind;
use crate::track::TrackView;

verus! {

/// Law: enqueueing preserves insertion order. Every track already queued keeps
/// its place and the new track stands at the end — so any sequence of enqueue
/// operations leaves the snapshot in exactly insertion order.
pub proof fn lemma_enqueue_preserves_insertion_order(q: QueueView, t: TrackView)
    ensures
        spec_enqueue(q, t).tracks.len() == q.tracks.len() + 1,
        forall|i: int| 0 <= i < q.tracks.len() ==> spec_enqueue(q, t).tracks[i] == q.tracks[i],
        spec_enqueue(q, t).tracks[q.tracks.len() as int] == t,
{
}

/// A whole sequence of enqueue operations, applied left to right.
pub open spec fn spec_enqueue_all(q: QueueView, ts: Seq<TrackView>) -> QueueView
    decreases ts.len(),
{
    if ts.len() == 0 {
        q
    } else {
        spec_enqueue_all(spec_enqueue(q, ts[0]), ts.skip(1))
    }
}

/// Law: for every sequence of enqueue operations, the queue's tracks — and so
/// its snapshot — are exactly the tracks that were there before followed by
/// the enqueued ones in insertion order.
pub proof fn lemma_enqueue_all_preserves_insertion_order(q: QueueView, ts: Seq<TrackView>)
    ensures
        spec_enqueue_all(q, ts).tracks == q.tracks + ts,
    decreases ts.len(),
{
    if ts.len() == 0 {
        assert(spec_enqueue_all(q, ts).tracks =~= q.tracks + ts);
    } else {
        lemma_enqueue_all_preserves_insertion_order(spec_enqueue(q, ts[0]), ts.skip(1));
        assert(q.tracks.push(ts[0]) + ts.skip(1) =~= q.tracks + ts);
    }
}

/// Law: advancing never moves the cursor out of `[0, len)` — it either lands
/// on a valid index or becomes `None`; and advancing from the last index
/// yields the empty cursor, after which the queue reports no current track.
pub proof fn lemma_advance_cursor_in_range(q: QueueView)
    requires
        q.wf(),
    ensures
        match spec_advance(q).cursor {
            Some(c) => 0 <= c < q.tracks.len(),
            None => true,
        },
        q.cursor == Some(q.tracks.len() - 1) ==> spec_advance(q).cursor is None && spec_advance(
            q,
        ).current() is None,
{
}

/// Law: rewinding at cursor zero is a no-op, not an error: the cursor stays
/// zero and the tracks are untouched.
pub proof fn lemma_rewind_at_start_noop(q: QueueView)
    requires
        q.cursor == Some(0int),
    ensures
        spec_rewind(q) == q,
{
    assert(spec_rewind(q) =~= q);
}

/// Law: setting a volume beyond the scale leaves the whole player unchanged
/// (and the call reports an invalid argument); a volume on the scale is stored
/// exactly, with status, position and queue untouched.
pub proof fn lemma_set_volume_exact_or_unchanged(p: PlayerView, v: u32)
    ensures
        v <= VOLUME_MAX ==> spec_set_volume(p, v).state.volume == v && spec_set_volume(p, v).queue
            == p.queue && spec_set_volume(p, v).state.status == p.state.status && spec_set_volume(
            p,
            v,
        ).state.position_ms == p.state.position_ms,
        v > VOLUME_MAX ==> spec_set_volume(p, v) == p,
{
}

/// Law: seeking never moves the position past the current track's duration;
/// a target beyond the duration is clamped exactly to the duration.
pub proof fn lemma_seek_clamps_to_duration(p: PlayerView, target_ms: u64)
    requires
        p.wf(),
        p.current() is Some,
    ensures
        spec_seek(p, target_ms).state.position_ms <= p.current()->Some_0.duration_ms,
        (p.state.status is Playing || p.state.status is Paused) && target_ms
            > p.current()->Some_0.duration_ms ==> spec_seek(p, target_ms).state.position_ms
            == p.current()->Some_0.duration_ms,
{
}

/// Law: pausing and then resuming returns a playing player to exactly its
/// prior state — in particular the position is unchanged: no time elapses
/// while paused.
pub proof fn lemma_pause_then_resume_preserves_position(p: PlayerView)
    requires
        p.state.status is Playing,
    ensures
        spec_resume(spec_pause(p)) == p,
        spec_resume(spec_pause(p)).state.position_ms == p.state.position_ms,
{
    assert(spec_resume(spec_pause(p)).state =~= p.state);
    assert(spec_resume(spec_pause(p)) =~= p);
}

/// Law: a pause command preserves well-formedness.
pub proof fn lemma_pause_preserves_wf(p: PlayerView)
    requires
        p.wf(),
    ensures
        spec_pause(p).wf(),
{
}

/// Law: a background tick preserves well-formedness, whatever the elapsed
/// time.
pub proof fn lemma_tick_preserves_wf(p: PlayerView, elapsed_ms: u64)
    requires
        p.wf(),
    ensures
        spec_tick(p, elapsed_ms).wf(),
{
}

/// Law: a pause command and a background tick applied near-simultaneously —
/// that is, serialized in either order through the player's exclusive
/// boundary — always leave the player well-formed: never playing or paused
/// without a current track, never stopped with a nonzero position.
pub proof fn lemma_pause_tick_interleavings_consistent(p: PlayerView, elapsed_ms: u64)
    requires
        p.wf(),
    ensures
        spec_pause(spec_tick(p, elapsed_ms)).wf(),
        spec_tick(spec_pause(p), elapsed_ms).wf(),
{
    lemma_tick_preserves_wf(p, elapsed_ms);
    lemma_pause_preserves_wf(spec_tick(p, elapsed_ms));
    lemma_pause_preserves_wf(p);
    lemma_tick_preserves_wf(spec_pause(p), elapsed_ms);
}

/// Law: while playing, a tick whose elapsed time reaches the end of the
/// current track auto-advances exactly like an explicit skip: the next track,
/// when there is one, plays from position zero; with none the player stops at
/// position zero.
pub proof fn lemma_tick_auto_advance(p: PlayerView, elapsed_ms: u64)
    requires
        p.wf(),
        p.state.status is Playing,
        elapsed_ms >= p.current()->Some_0.duration_ms - p.state.position_ms,
    ensures
        spec_tick(p, elapsed_ms) == spec_skip(p),
        spec_tick(p, elapsed_ms).state.position_ms == 0,
        p.queue.cursor->Some_0 + 1 < p.queue.tracks.len() ==> spec_tick(p, elapsed_ms).state.status
            is Playing && spec_tick(p, elapsed_ms).current() == Some(
            p.queue.tracks[p.queue.cursor->Some_0 + 1],
        ),
        p.queue.cursor->Some_0 + 1 >= p.queue.tracks.len() ==> spec_tick(p, elapsed_ms).state.status
            is Stopped,
{
}

/// Law: stop is idempotent — stopping twice in a row produces exactly the
/// observable state of stopping once: stopped, position zero, queue and
/// volume intact.
pub proof fn lemma_stop_idempotent(p: PlayerView)
    ensures
        spec_stop(spec_stop(p)) == spec_stop(p),
        spec_stop(p).state.status is Stopped,
        spec_stop(p).state.position_ms == 0,
{
    assert(spec_stop(spec_stop(p)) =~= spec_stop(p));
}

} // verus!
