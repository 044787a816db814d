use vstd::prelude::*;

use crate::queue::Queue;
use crate::queue::QueueView;
use crate::queue::spec_advance;
use crate::queue::spec_enqueue;
use crate::queue::spec_enqueue_as_current;
use crate::queue::spec_rewind;
use crate::track::Track;
use crate::track::TrackView;

verus! {

/// Full volume on the player's integer scale: volumes are permille values in
/// `0 ..= VOLUME_MAX`, so `0` is silence and `VOLUME_MAX` stands for `1.0`.
pub const VOLUME_MAX: u32 = 1000;

/// The transport status of the player.
#[derive(Clone, Copy, Debug, PartialEq, Eq, Structural)]
pub enum Status {
    Stopped,
    Playing,
    Paused,
}

/// Why an operation did not do what was asked. `InvalidTransition` reports a
/// benign no-op (for example resume while stopped, or seek with nothing
/// playing); the others reject the request outright. `ExternalFailure` reports
/// a failing external collaborator (track loader or output sink) that the
/// engine absorbed.
#[derive(Clone, Copy, Debug, PartialEq, Eq, Structural)]
pub enum PlayerError {
    InvalidArgument,
    InvalidTransition,
    EmptyQueue,
    ExternalFailure,
}

/// The transport part of the player's state: status, elapsed position within
/// the current track in milliseconds, and volume in permille.
pub struct PlaybackState {
    status: Status,
    position_ms: u64,
    volume: u32,
}

/// The mathematical value of a [`PlaybackState`].
#[verifier::ext_equal]
pub struct StateView {
    pub status: Status,
    pub position_ms: u64,
    pub volume: u32,
}

/// The mathematical value of a [`Player`]: its queue and its transport state.
#[verifier::ext_equal]
pub struct PlayerView {
    pub queue: QueueView,
    pub state: StateView,
}

impl PlayerView {
    /// The track under the queue's cursor, when one is current.
    pub open spec fn current(self) -> Option<TrackView> {
        self.queue.current()
    }

    /// Well-formedness of the whole player:
    /// the queue is well-formed; playing or paused status requires a current
    /// track; stopped status means position zero; the position never exceeds
    /// the current track's duration (and is zero with no current track); and
    /// the volume is on the permille scale.
    pub open spec fn wf(self) -> bool {
        &&& self.queue.wf()
        &&& (self.state.status is Playing || self.state.status is Paused) ==> self.queue.cursor
            is Some
        &&& self.state.status is Stopped ==> self.state.position_ms == 0
        &&& match self.current() {
            Some(t) => self.state.position_ms <= t.duration_ms,
            None => self.state.position_ms == 0,
        }
        &&& self.state.volume <= VOLUME_MAX
    }
}

/// What [`Player::play_track`] does: the track joins the queue as current and
/// plays from position zero; the volume persists.
pub open spec fn spec_play_track(p: PlayerView, t: TrackView) -> PlayerView {
    PlayerView {
        queue: spec_enqueue_as_current(p.queue, t),
        state: StateView { status: Status::Playing, position_ms: 0, volume: p.state.volume },
    }
}

/// What [`Player::auto_play`] does: a paused player resumes where it stood;
/// otherwise the current queue track plays from position zero; with no current
/// track nothing changes (and the call reports an empty queue).
pub open spec fn spec_auto_play(p: PlayerView) -> PlayerView {
    if p.state.status is Paused {
        spec_resume(p)
    } else if p.queue.cursor is Some {
        PlayerView {
            queue: p.queue,
            state: StateView { status: Status::Playing, position_ms: 0, volume: p.state.volume },
        }
    } else {
        p
    }
}

/// What [`Player::pause`] does: a playing player freezes at its position;
/// any other state is left untouched.
pub open spec fn spec_pause(p: PlayerView) -> PlayerView {
    if p.state.status is Playing {
        PlayerView {
            queue: p.queue,
            state: StateView {
                status: Status::Paused,
                position_ms: p.state.position_ms,
                volume: p.state.volume,
            },
        }
    } else {
        p
    }
}

/// What [`Player::resume`] does: a paused player plays on from the frozen
/// position; any other state is left untouched.
pub open spec fn spec_resume(p: PlayerView) -> PlayerView {
    if p.state.status is Paused {
        PlayerView {
            queue: p.queue,
            state: StateView {
                status: Status::Playing,
                position_ms: p.state.position_ms,
                volume: p.state.volume,
            },
        }
    } else {
        p
    }
}

/// What [`Player::stop`] does: status stopped and position zero, whatever the
/// state before; queue and volume persist.
pub open spec fn spec_stop(p: PlayerView) -> PlayerView {
    PlayerView {
        queue: p.queue,
        state: StateView { status: Status::Stopped, position_ms: 0, volume: p.state.volume },
    }
}

/// What [`Player::play_next`] does, and what track completion does: the queue
/// advances; if a track is then current it plays from position zero, otherwise
/// the queue is exhausted and the player stops.
pub open spec fn spec_skip(p: PlayerView) -> PlayerView {
    let q = spec_advance(p.queue);
    PlayerView {
        queue: q,
        state: StateView {
            status: if q.cursor is Some {
                Status::Playing
            } else {
                Status::Stopped
            },
            position_ms: 0,
            volume: p.state.volume,
        },
    }
}

/// What [`Player::play_previous`] does: with a current track the queue rewinds
/// (staying put at the first track) and the returned track replays from
/// position zero; with no current track nothing changes.
pub open spec fn spec_previous(p: PlayerView) -> PlayerView {
    if p.queue.cursor is Some {
        PlayerView {
            queue: spec_rewind(p.queue),
            state: StateView { status: Status::Playing, position_ms: 0, volume: p.state.volume },
        }
    } else {
        p
    }
}

/// What [`Player::set_volume`] does: a permille value on the scale is taken
/// exactly; one beyond it changes nothing.
pub open spec fn spec_set_volume(p: PlayerView, v: u32) -> PlayerView {
    if v <= VOLUME_MAX {
        PlayerView {
            queue: p.queue,
            state: StateView {
                status: p.state.status,
                position_ms: p.state.position_ms,
                volume: v,
            },
        }
    } else {
        p
    }
}

/// What [`Player::seek`] does: while a track is playing or paused the position
/// becomes the target clamped to the track's duration; otherwise nothing
/// changes.
pub open spec fn spec_seek(p: PlayerView, target_ms: u64) -> PlayerView {
    if (p.state.status is Playing || p.state.status is Paused) && p.current() is Some {
        let d = p.current()->Some_0.duration_ms;
        PlayerView {
            queue: p.queue,
            state: StateView {
                status: p.state.status,
                position_ms: if target_ms <= d {
                    target_ms
                } else {
                    d
                },
                volume: p.state.volume,
            },
        }
    } else {
        p
    }
}

/// What [`Player::tick`] does: while playing, elapsed time moves the position
/// forward; when it reaches the current track's duration the player
/// auto-advances exactly as [`spec_skip`] says. Paused or stopped, time has no
/// effect.
pub open spec fn spec_tick(p: PlayerView, elapsed_ms: u64) -> PlayerView {
    if p.state.status is Playing && p.current() is Some {
        let d = p.current()->Some_0.duration_ms;
        if elapsed_ms < d - p.state.position_ms {
            PlayerView {
                queue: p.queue,
                state: StateView {
                    status: Status::Playing,
                    position_ms: (p.state.position_ms + elapsed_ms) as u64,
                    volume: p.state.volume,
                },
            }
        } else {
            spec_skip(p)
        }
    } else {
        p
    }
}

/// The playback orchestrator: one queue and one transport state behind a
/// single boundary. A front end issues the transport commands; a background
/// progression loop reports elapsed time through [`Player::tick`]; both must
/// serialize through the same exclusive access to the whole `Player` (for
/// example one mutex around it), so compound transitions such as
/// advance-then-play stay atomic.
///
/// No operation here panics: invalid input degrades to a no-op with a reported
/// condition.
pub struct Player {
    queue: Queue,
    state: PlaybackState,
}

impl View for Player {
    type V = PlayerView;

    closed spec fn view(&self) -> PlayerView {
        PlayerView {
            queue: self.queue@,
            state: StateView {
                status: self.state.status,
                position_ms: self.state.position_ms,
                volume: self.state.volume,
            },
        }
    }
}

impl Player {
    /// A stopped player with an empty queue, position zero and full volume.
    pub fn new() -> (p: Player)
        ensures
            p@.wf(),
            p@.queue.tracks.len() == 0,
            p@.queue.cursor is None,
            p@.state == (StateView { status: Status::Stopped, position_ms: 0, volume: VOLUME_MAX }),
    {
        Player {
            queue: Queue::new(),
            state: PlaybackState { status: Status::Stopped, position_ms: 0, volume: VOLUME_MAX },
        }
    }

    /// Appends the track to the queue, makes it current, and plays it from
    /// position zero. Always succeeds.
    pub fn play_track(&mut self, track: Track)
        requires
            old(self)@.wf(),
        ensures
            final(self)@ == spec_play_track(old(self)@, track@),
            final(self)@.wf(),
    {
        let ghost pre = self@;
        let ghost tv = track@;
        self.queue.enqueue_as_current(track);
        self.state.status = Status::Playing;
        self.state.position_ms = 0;
        proof {
            assert(self@ =~= spec_play_track(pre, tv));
        }
    }

    /// Plays the current queue head, or resumes a paused player. With nothing
    /// current and nothing paused the player stays stopped and the call
    /// reports an empty queue.
    pub fn auto_play(&mut self) -> (r: Result<(), PlayerError>)
        requires
            old(self)@.wf(),
        ensures
            final(self)@ == spec_auto_play(old(self)@),
            final(self)@.wf(),
            r is Ok <==> (old(self)@.state.status is Paused || old(self)@.queue.cursor is Some),
            r matches Err(e) ==> e == PlayerError::EmptyQueue,
    {
        let ghost pre = self@;
        match self.state.status {
            Status::Paused => {
                self.state.status = Status::Playing;
                proof {
                    assert(self@ =~= spec_auto_play(pre));
                }
                Ok(())
            },
            _ => {
                match self.queue.cursor_index() {
                    Some(_) => {
                        self.state.status = Status::Playing;
                        self.state.position_ms = 0;
                        proof {
                            assert(self@ =~= spec_auto_play(pre));
                        }
                        Ok(())
                    },
                    None => Err(PlayerError::EmptyQueue),
                }
            },
        }
    }

    /// Freezes a playing player at its current position. Paused or stopped,
    /// this is a benign no-op, reported as such.
    pub fn pause(&mut self) -> (r: Result<(), PlayerError>)
        requires
            old(self)@.wf(),
        ensures
            final(self)@ == spec_pause(old(self)@),
            final(self)@.wf(),
            r is Ok <==> old(self)@.state.status is Playing,
            r matches Err(e) ==> e == PlayerError::InvalidTransition,
    {
        match self.state.status {
            Status::Playing => {
                self.state.status = Status::Paused;
                Ok(())
            },
            _ => Err(PlayerError::InvalidTransition),
        }
    }

    /// Plays a paused player on from the frozen position: the position right
    /// after resuming is exactly the position at which it was paused. In any
    /// other state this is a benign no-op, reported as such.
    pub fn resume(&mut self) -> (r: Result<(), PlayerError>)
        requires
            old(self)@.wf(),
        ensures
            final(self)@ == spec_resume(old(self)@),
            final(self)@.wf(),
            r is Ok <==> old(self)@.state.status is Paused,
            r matches Err(e) ==> e == PlayerError::InvalidTransition,
    {
        match self.state.status {
            Status::Paused => {
                self.state.status = Status::Playing;
                Ok(())
            },
            _ => Err(PlayerError::InvalidTransition),
        }
    }

    /// Halts playback: status stopped, position zero. Idempotent — on an
    /// already stopped player nothing changes.
    pub fn stop(&mut self)
        requires
            old(self)@.wf(),
        ensures
            final(self)@ == spec_stop(old(self)@),
            final(self)@.wf(),
    {
        self.state.status = Status::Stopped;
        self.state.position_ms = 0;
    }

    /// Absorbs a failure reported by an external collaborator (track loader or
    /// output sink): playback halts exactly as [`Player::stop`] says, the
    /// queue and volume stay intact, and the failure is reported back. The
    /// player remains usable for subsequent commands.
    pub fn absorb_external_failure(&mut self) -> (r: PlayerError)
        requires
            old(self)@.wf(),
        ensures
            final(self)@ == spec_stop(old(self)@),
            final(self)@.wf(),
            r == PlayerError::ExternalFailure,
    {
        self.stop();
        PlayerError::ExternalFailure
    }

    /// Advances the queue and plays the new current track from position zero;
    /// past the last track the player stops and the call reports the queue
    /// exhausted.
    pub fn play_next(&mut self) -> (r: Result<(), PlayerError>)
        requires
            old(self)@.wf(),
        ensures
            final(self)@ == spec_skip(old(self)@),
            final(self)@.wf(),
            r is Ok <==> spec_advance(old(self)@.queue).cursor is Some,
            r matches Err(e) ==> e == PlayerError::EmptyQueue,
    {
        let ghost pre = self@;
        let next = self.queue.advance();
        match next {
            Some(_) => {
                self.state.status = Status::Playing;
                self.state.position_ms = 0;
                proof {
                    assert(self@ =~= spec_skip(pre));
                }
                Ok(())
            },
            None => {
                self.state.status = Status::Stopped;
                self.state.position_ms = 0;
                proof {
                    assert(self@ =~= spec_skip(pre));
                }
                Err(PlayerError::EmptyQueue)
            },
        }
    }

    /// Rewinds the queue and replays the returned track from position zero; at
    /// the first track the current track restarts. With no current track
    /// nothing changes and the call reports an empty queue.
    pub fn play_previous(&mut self) -> (r: Result<(), PlayerError>)
        requires
            old(self)@.wf(),
        ensures
            final(self)@ == spec_previous(old(self)@),
            final(self)@.wf(),
            r is Ok <==> old(self)@.queue.cursor is Some,
            r matches Err(e) ==> e == PlayerError::EmptyQueue,
    {
        let ghost pre = self@;
        let prev = self.queue.rewind();
        match prev {
            Some(_) => {
                self.state.status = Status::Playing;
                self.state.position_ms = 0;
                proof {
                    assert(self@ =~= spec_previous(pre));
                }
                Ok(())
            },
            None => {
                proof {
                    assert(self@.queue =~= pre.queue);
                    assert(self@ =~= spec_previous(pre));
                }
                Err(PlayerError::EmptyQueue)
            },
        }
    }

    /// Sets the volume to `volume` permille when it is on the scale
    /// `0 ..= VOLUME_MAX` — the stored volume is then exactly `volume`. A
    /// value beyond the scale is rejected as an invalid argument and the
    /// volume (and everything else) stays unchanged. The volume persists
    /// across track changes and stop.
    pub fn set_volume(&mut self, volume: u32) -> (r: Result<(), PlayerError>)
        requires
            old(self)@.wf(),
        ensures
            final(self)@ == spec_set_volume(old(self)@, volume),
            final(self)@.wf(),
            r is Ok <==> volume <= VOLUME_MAX,
            r is Ok ==> final(self)@.state.volume == volume,
            r matches Err(e) ==> e == PlayerError::InvalidArgument && final(self)@ == old(self)@,
    {
        if volume <= VOLUME_MAX {
            self.state.volume = volume;
            Ok(())
        } else {
            Err(PlayerError::InvalidArgument)
        }
    }

    /// Seeks within the current track while playing or paused: the position
    /// becomes `target_ms` clamped to the track's duration, so it never
    /// exceeds the duration. With nothing playing the call is a no-op reported
    /// as a benign invalid transition.
    pub fn seek(&mut self, target_ms: u64) -> (r: Result<(), PlayerError>)
        requires
            old(self)@.wf(),
        ensures
            final(self)@ == spec_seek(old(self)@, target_ms),
            final(self)@.wf(),
            r is Ok <==> (old(self)@.state.status is Playing || old(self)@.state.status
                is Paused),
            r matches Err(e) ==> e == PlayerError::InvalidTransition,
    {
        let ghost pre = self@;
        let playing_or_paused = match self.state.status {
            Status::Playing => true,
            Status::Paused => true,
            Status::Stopped => false,
        };
        if playing_or_paused {
            match self.queue.current_duration_ms() {
                Some(d) => {
                    self.state.position_ms = if target_ms <= d {
                        target_ms
                    } else {
                        d
                    };
                    proof {
                        assert(self@ =~= spec_seek(pre, target_ms));
                    }
                    Ok(())
                },
                None => {
                    proof {
                        assert(false);
                    }
                    Err(PlayerError::InvalidTransition)
                },
            }
        } else {
            Err(PlayerError::InvalidTransition)
        }
    }

    /// Reports elapsed playing time from the background progression loop.
    /// While playing, the position moves forward by `elapsed_ms`; when that
    /// reaches the current track's duration the player auto-advances: the next
    /// track plays from position zero, or the player stops with the queue
    /// exhausted. Paused or stopped, time has no effect — the position is
    /// frozen.
    pub fn tick(&mut self, elapsed_ms: u64)
        requires
            old(self)@.wf(),
        ensures
            final(self)@ == spec_tick(old(self)@, elapsed_ms),
            final(self)@.wf(),
    {
        let ghost pre = self@;
        let playing = match self.state.status {
            Status::Playing => true,
            _ => false,
        };
        if playing {
            match self.queue.current_duration_ms() {
                Some(d) => {
                    let pos = self.state.position_ms;
                    if elapsed_ms < d - pos {
                        self.state.position_ms = pos + elapsed_ms;
                        proof {
                            assert(self@ =~= spec_tick(pre, elapsed_ms));
                        }
                    } else {
                        let next = self.queue.advance();
                        match next {
                            Some(_) => {
                                self.state.position_ms = 0;
                            },
                            None => {
                                self.state.status = Status::Stopped;
                                self.state.position_ms = 0;
                            },
                        }
                        proof {
                            assert(self@ =~= spec_skip(pre));
                            assert(self@ =~= spec_tick(pre, elapsed_ms));
                        }
                    }
                },
                None => {
                    proof {
                        assert(false);
                    }
                },
            }
        }
    }

    /// Appends a track to the end of the queue without touching playback; a
    /// queue that was empty makes it the current track.
    pub fn add_to_queue(&mut self, track: Track)
        requires
            old(self)@.wf(),
        ensures
            final(self)@ == (PlayerView {
                queue: spec_enqueue(old(self)@.queue, track@),
                state: old(self)@.state,
            }),
            final(self)@.wf(),
    {
        let ghost pre = self@;
        let ghost tv = track@;
        self.queue.enqueue(track);
        proof {
            assert(self@ =~= (PlayerView { queue: spec_enqueue(pre.queue, tv), state: pre.state }));
        }
    }

    /// An ordered read-only copy of the queued tracks for display.
    pub fn get_queue_snapshot(&self) -> (r: Vec<Track>)
        ensures
            crate::queue::tracks_view(r@) == self@.queue.tracks,
    {
        self.queue.snapshot()
    }

    /// The current track, when one is current.
    pub fn current_track(&self) -> (r: Option<&Track>)
        requires
            self@.wf(),
        ensures
            match r {
                Some(t) => self@.current() == Some(t@),
                None => self@.current() is None,
            },
    {
        self.queue.current()
    }

    /// The transport status.
    pub fn status(&self) -> (s: Status)
        ensures
            s == self@.state.status,
    {
        self.state.status
    }

    /// The elapsed position within the current track, in milliseconds.
    pub fn position_ms(&self) -> (p: u64)
        ensures
            p == self@.state.position_ms,
    {
        self.state.position_ms
    }

    /// The volume in permille of full scale.
    pub fn volume(&self) -> (v: u32)
        ensures
            v == self@.state.volume,
    {
        self.state.volume
    }
}

} // verus!
