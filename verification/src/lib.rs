//! A verified audio playback engine: an immutable `Track` value, an ordered
//! `Queue` of tracks with a current-position cursor, and a `Player` that
//! combines the queue with a transport state machine (stopped / playing /
//! paused), elapsed position and volume. Time is measured in whole
//! milliseconds and volume on an integer permille scale, so that every
//! transition is stated and proved exactly.
//!
//! The player is a single guarded unit: a front end issues transport
//! commands, and a background progression loop calls [`player::Player::tick`]
//! with the elapsed time; both go through the same exclusive boundary, which
//! the embedding program provides (for example a mutex around the `Player`).

pub mod laws;
pub mod player;
pub mod queue;
pub mod track;
