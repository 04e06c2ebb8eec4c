//! Core logic of a terminal music player, verified with Verus.
//!
//! Three pieces live here: the transport state machine (an append-only
//! track queue with a cursor, play/pause, skip and previous-track policy,
//! clamped volume), the spectral band analyzer (bucketing a magnitude
//! spectrum into logarithmic frequency bands and normalizing the result),
//! and the directory browser used to pick tracks.
//!
//! Audio output, decoding, tag reading and terminal drawing are external
//! collaborators: the library speaks to them only through the
//! [`player::AudioSink`] capability and through plain values handed in by
//! the surrounding application, so every function in the crate is verified.

pub mod bands;
pub mod files;
pub mod player;
pub mod song;
