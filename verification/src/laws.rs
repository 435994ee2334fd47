//! Laws of the transport: properties of the advance policy, the position
//! model and the seek arithmetic, stated over the spec functions that the
//! transport's contracts use.

use vstd::prelude::*;

use crate::player::next_target;
use crate::player::previous_target;
use crate::player::random_target;
use crate::player::Player;

verus! {

/// Sequential `next` then `previous` from a non-wrapping interior index
/// returns to that index, whatever the loop mode.
pub proof fn lemma_next_then_previous_roundtrip(n: int, i: int, loop_mode: bool)
    requires
        n > 1,
        0 <= i,
        i + 1 < n,
    ensures
        previous_target(n, next_target(n, i, loop_mode), loop_mode) == i,
{
}

/// Sequential `next` at the last index wraps to 0 in loop mode and stays at
/// the last index otherwise.
pub proof fn lemma_next_at_last_index(n: int)
    requires
        n > 0,
    ensures
        next_target(n, n - 1, true) == 0,
        next_target(n, n - 1, false) == n - 1,
{
}

/// A random advance lands in the catalog and never on the current track.
pub proof fn lemma_random_avoids_current(n: int, current: int, rand: u64)
    requires
        n > 1,
        0 <= current < n,
    ensures
        0 <= random_target(n, current, rand) < n,
        random_target(n, current, rand) != current,
{
    vstd::arithmetic::div_mod::lemma_mod_bound(rand as int, n - 1);
}

/// While playing, elapsed time reads as the frozen baseline plus the
/// wall-clock time since playback started.
pub proof fn lemma_elapsed_tracks_clock(p: Player, start: u64, now_ms: u64)
    requires
        p.playback_start == Some(start),
        start <= now_ms,
        p.seek_offset + (now_ms - start) <= u64::MAX,
    ensures
        p.elapsed_at(now_ms) == p.seek_offset + (now_ms - start),
{
}

/// A backward seek past the start clamps to zero, never below.
pub proof fn lemma_seek_clamps_at_zero(p: Player, delta_seconds: int, now_ms: u64)
    requires
        delta_seconds < 0,
        p.elapsed_at(now_ms) <= -delta_seconds * 1000,
    ensures
        p.seek_target_spec(delta_seconds, now_ms) == 0,
{
}

/// A seek never reaches or passes a known nonzero total duration.
pub proof fn lemma_seek_stays_below_duration(
    p: Player,
    delta_seconds: int,
    now_ms: u64,
    dur: u64,
)
    requires
        p.song_duration == Some(dur),
        dur > 0,
    ensures
        (p.seek_target_spec(delta_seconds, now_ms) as int) < dur,
{
}

} // verus!
