use vstd::prelude::*;

use crate::player::PlayerError;
use crate::track::Track;
use crate::track::TrackView;

verus! {

/// The mathematical value of a [`Queue`]: the track views in insertion order,
/// and the cursor as an index into them, or `None` when no track is current.
#[verifier::ext_equal]
pub struct QueueView {
    pub tracks: Seq<TrackView>,
    pub cursor: Option<int>,
}

impl QueueView {
    /// Well-formedness: a cursor, when present, is an index into the tracks,
    /// and an empty queue has no cursor.
    pub open spec fn wf(self) -> bool {
        &&& match self.cursor {
            Some(c) => 0 <= c < self.tracks.len(),
            None => true,
        }
        &&& self.tracks.len() == 0 ==> self.cursor is None
    }

    /// The track under the cursor, when one is current.
    pub open spec fn current(self) -> Option<TrackView> {
        match self.cursor {
            Some(c) => Some(self.tracks[c]),
            None => None,
        }
    }
}

/// The views of a sequence of tracks, in the same order.
pub open spec fn tracks_view(v: Seq<Track>) -> Seq<TrackView> {
    v.map_values(|t: Track| t@)
}

/// What [`Queue::enqueue`] does: the track goes to the end; a queue that was
/// empty makes it current, any other queue keeps its cursor.
pub open spec fn spec_enqueue(q: QueueView, t: TrackView) -> QueueView {
    QueueView {
        tracks: q.tracks.push(t),
        cursor: if q.tracks.len() == 0 {
            Some(0int)
        } else {
            q.cursor
        },
    }
}

/// What [`Queue::enqueue_as_current`] does: the track goes to the end and
/// becomes current.
pub open spec fn spec_enqueue_as_current(q: QueueView, t: TrackView) -> QueueView {
    QueueView { tracks: q.tracks.push(t), cursor: Some(q.tracks.len() as int) }
}

/// What [`Queue::advance`] does: the cursor moves one step forward, or becomes
/// `None` when it stood on the last track (no wrap-around) or was already
/// `None`.
pub open spec fn spec_advance(q: QueueView) -> QueueView {
    QueueView {
        tracks: q.tracks,
        cursor: match q.cursor {
            Some(c) => if c + 1 < q.tracks.len() {
                Some(c + 1)
            } else {
                None
            },
            None => None,
        },
    }
}

/// What [`Queue::rewind`] does: the cursor moves one step back; at the first
/// track it stays put (the front end restarts the current track rather than
/// getting an error), and without a current track nothing changes.
pub open spec fn spec_rewind(q: QueueView) -> QueueView {
    QueueView {
        tracks: q.tracks,
        cursor: match q.cursor {
            Some(c) => if c > 0 {
                Some(c - 1)
            } else {
                Some(0int)
            },
            None => None,
        },
    }
}

/// What [`Queue::remove`] does on an in-range index: the track leaves the
/// sequence; a cursor before it is unchanged, a cursor after it shifts down by
/// one, and a cursor on it moves to the next remaining track or to `None`.
pub open spec fn spec_remove(q: QueueView, index: int) -> QueueView {
    QueueView {
        tracks: q.tracks.remove(index),
        cursor: match q.cursor {
            Some(c) => if c < index {
                Some(c)
            } else if c > index {
                Some(c - 1)
            } else if index < q.tracks.len() - 1 {
                Some(index)
            } else {
                None
            },
            None => None,
        },
    }
}

/// An ordered collection of tracks with a current-position cursor. Insertion
/// order is playback order; the cursor names the current track, or nothing
/// when the queue is empty or has been played past its end.
pub struct Queue {
    items: Vec<Track>,
    cursor: Option<usize>,
}

impl View for Queue {
    type V = QueueView;

    closed spec fn view(&self) -> QueueView {
        QueueView {
            tracks: tracks_view(self.items@),
            cursor: match self.cursor {
                Some(c) => Some(c as int),
                None => None,
            },
        }
    }
}

impl Queue {
    /// An empty queue with no current track.
    pub fn new() -> (q: Queue)
        ensures
            q@ == (QueueView { tracks: Seq::<TrackView>::empty(), cursor: None::<int> }),
            q@.wf(),
    {
        let q = Queue { items: Vec::new(), cursor: None };
        proof {
            assert(tracks_view(q.items@) =~= Seq::<TrackView>::empty());
        }
        q
    }

    /// How many tracks the queue holds.
    pub fn len(&self) -> (n: usize)
        ensures
            n == self@.tracks.len(),
    {
        self.items.len()
    }

    /// The cursor as an index, or `None` when no track is current.
    pub fn cursor_index(&self) -> (r: Option<usize>)
        ensures
            match r {
                Some(c) => self@.cursor == Some(c as int),
                None => self@.cursor is None,
            },
    {
        self.cursor
    }

    /// Appends a track; a queue that was empty makes it the current one.
    pub fn enqueue(&mut self, track: Track)
        requires
            old(self)@.wf(),
        ensures
            final(self)@ == spec_enqueue(old(self)@, track@),
            final(self)@.wf(),
    {
        let ghost pre = self@;
        let ghost tv = track@;
        if self.items.len() == 0 {
            self.cursor = Some(0);
        }
        self.items.push(track);
        proof {
            assert(tracks_view(self.items@) =~= pre.tracks.push(tv));
        }
    }

    /// Appends a track and makes it the current one.
    pub fn enqueue_as_current(&mut self, track: Track)
        requires
            old(self)@.wf(),
        ensures
            final(self)@ == spec_enqueue_as_current(old(self)@, track@),
            final(self)@.wf(),
    {
        let ghost pre = self@;
        let ghost tv = track@;
        self.cursor = Some(self.items.len());
        self.items.push(track);
        proof {
            assert(tracks_view(self.items@) =~= pre.tracks.push(tv));
        }
    }

    /// The current track, or `None` when the queue is empty or played out.
    /// Read-only: the queue is unchanged.
    pub fn current(&self) -> (r: Option<&Track>)
        requires
            self@.wf(),
        ensures
            match r {
                Some(t) => self@.current() == Some(t@),
                None => self@.current() is None,
            },
    {
        match self.cursor {
            Some(c) => Some(&self.items[c]),
            None => None,
        }
    }

    /// The duration of the current track in milliseconds, when one is current.
    pub fn current_duration_ms(&self) -> (r: Option<u64>)
        requires
            self@.wf(),
        ensures
            match self@.current() {
                Some(t) => r == Some(t.duration_ms),
                None => r is None,
            },
    {
        match self.cursor {
            Some(c) => Some(self.items[c].duration_ms()),
            None => None,
        }
    }

    /// Moves the cursor one step forward and returns a copy of the new current
    /// track; past the last track the cursor becomes `None` and the result
    /// reports that there is no next track.
    pub fn advance(&mut self) -> (r: Option<Track>)
        requires
            old(self)@.wf(),
        ensures
            final(self)@ == spec_advance(old(self)@),
            final(self)@.wf(),
            match final(self)@.current() {
                Some(t) => r matches Some(rt) && rt@ == t,
                None => r is None,
            },
    {
        match self.cursor {
            Some(c) => {
                let n = self.items.len();
                if c + 1 < n {
                    self.cursor = Some(c + 1);
                    Some(self.items[c + 1].clone())
                } else {
                    self.cursor = None;
                    None
                }
            },
            None => None,
        }
    }

    /// Moves the cursor one step back and returns a copy of the new current
    /// track; at the first track it stays put and returns that track, and
    /// without a current track it changes nothing and returns `None`.
    pub fn rewind(&mut self) -> (r: Option<Track>)
        requires
            old(self)@.wf(),
        ensures
            final(self)@ == spec_rewind(old(self)@),
            final(self)@.wf(),
            match final(self)@.current() {
                Some(t) => r matches Some(rt) && rt@ == t,
                None => r is None,
            },
    {
        match self.cursor {
            Some(c) => {
                if c > 0 {
                    self.cursor = Some(c - 1);
                    Some(self.items[c - 1].clone())
                } else {
                    Some(self.items[0].clone())
                }
            },
            None => None,
        }
    }

    /// Removes the track at `index`. A cursor before the index is unchanged,
    /// one after it shifts down by one, and one on it moves to the next
    /// remaining track or to `None`. An out-of-range index is rejected and
    /// nothing changes.
    pub fn remove(&mut self, index: usize) -> (r: Result<(), PlayerError>)
        requires
            old(self)@.wf(),
        ensures
            final(self)@.wf(),
            index < old(self)@.tracks.len() ==> r is Ok && final(self)@ == spec_remove(
                old(self)@,
                index as int,
            ),
            index >= old(self)@.tracks.len() ==> r == Err::<(), PlayerError>(
                PlayerError::InvalidArgument,
            ) && final(self)@ == old(self)@,
    {
        let ghost pre = self@;
        if index >= self.items.len() {
            return Err(PlayerError::InvalidArgument);
        }
        self.items.remove(index);
        match self.cursor {
            Some(c) => {
                if c > index {
                    self.cursor = Some(c - 1);
                } else if c == index {
                    if index < self.items.len() {
                        self.cursor = Some(index);
                    } else {
                        self.cursor = None;
                    }
                }
            },
            None => {},
        }
        proof {
            assert(tracks_view(self.items@) =~= pre.tracks.remove(index as int));
        }
        Ok(())
    }

    /// Empties the queue; no track is current afterwards.
    pub fn clear(&mut self)
        ensures
            final(self)@ == (QueueView { tracks: Seq::<TrackView>::empty(), cursor: None::<int> }),
            final(self)@.wf(),
    {
        self.items = Vec::new();
        self.cursor = None;
        proof {
            assert(tracks_view(self.items@) =~= Seq::<TrackView>::empty());
        }
    }

    /// An ordered copy of the tracks for display: the same views in the same
    /// order, with no way to mutate the queue through it.
    pub fn snapshot(&self) -> (r: Vec<Track>)
        ensures
            tracks_view(r@) == self@.tracks,
    {
        let r = clone_tracks(&self.items);
        proof {
            assert(tracks_view(r@) =~= tracks_view(self.items@));
        }
        r
    }
}

fn clone_tracks(v: &Vec<Track>) -> (r: Vec<Track>)
    ensures
        r@.len() == v@.len(),
        forall|i: int| 0 <= i < v@.len() ==> r@[i]@ == v@[i]@,
{
    let mut r: Vec<Track> = Vec::new();
    let mut i: usize = 0;
    while i < v.len()
        invariant
            i <= v@.len(),
            r@.len() == i,
            forall|j: int| 0 <= j < i ==> r@[j]@ == v@[j]@,
        decreases v@.len() - i,
    {
        r.push(v[i].clone());
        i = i + 1;
    }
    r
}

} // verus!
