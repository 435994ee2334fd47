//! Core of a terminal music player: the playback transport state machine
//! (position tracking, seek arithmetic, track-advance policy) and the
//! incremental fuzzy-filter engine over the track catalog.
//!
//! Everything here works on plain values: timestamps and durations are
//! milliseconds in `u64`, track names are `Vec<char>`, and fuzzy scores are
//! fixed-point integers. Terminal rendering, key dispatch and the audio
//! decode/output pipeline live outside this crate; they drive this state
//! machine and perform the actions it requests.

pub mod filter;
pub mod keyseq;
pub mod laws;
pub mod player;
pub mod score;
pub mod timefmt;
