//! The playback transport state machine.
//!
//! A [`Player`] owns the track catalog (names only; the audio layer keeps the
//! paths), the cursor and playback indices, the play/pause flags, and a
//! position model (`seek_offset` plus an optional `playback_start`
//! timestamp) from which elapsed playback time is computed without ever
//! asking the decoder. All timestamps and durations are milliseconds.
//!
//! The audio pipeline lives outside this crate. Operations that need it
//! return a [`LoadRequest`] (open this track, skip it forward, enqueue it,
//! start it); the caller performs the request and reports success through
//! [`Player::confirm_playback`]. A failed open/decode needs no report: the
//! optimistic index updates stand, per the transport's failure policy.

use vstd::prelude::*;

verus! {

/// A request to the audio layer: stop what is queued, open the track at
/// `index`, skip it forward by `skip_ms` milliseconds, enqueue it and start
/// playback, then confirm through [`Player::confirm_playback`].
#[derive(Clone, Copy, PartialEq, Eq, Structural, Debug)]
pub struct LoadRequest {
    pub index: usize,
    pub skip_ms: u64,
}

/// What a play/pause keypress should do, given the current state.
#[derive(Clone, Copy, PartialEq, Eq, Structural, Debug)]
pub enum PlaybackDecision {
    /// Empty catalog: nothing to do.
    Ignore,
    /// Load and play the track at this index.
    Load(usize),
    /// Pause the running playback.
    Pause,
    /// Resume the paused playback.
    Resume,
}

/// `a + b`, saturating at `u64::MAX`.
pub open spec fn sat_add_spec(a: u64, b: u64) -> u64 {
    if a + b > u64::MAX {
        u64::MAX
    } else {
        (a + b) as u64
    }
}

fn sat_add(a: u64, b: u64) -> (r: u64)
    ensures
        r == sat_add_spec(a, b),
{
    if a > u64::MAX - b {
        u64::MAX
    } else {
        a + b
    }
}

/// Target of a random advance: a draw over all indices except `current`.
/// `rand % (n - 1)` picks a position among the other tracks in catalog
/// order; uniform draws give a uniform choice among them.
pub open spec fn random_target(n: int, current: int, rand: u64) -> int
    recommends
        n > 1,
{
    let k = (rand as int) % (n - 1);
    if k < current {
        k
    } else {
        k + 1
    }
}

/// Target of a sequential forward advance: the next index, wrapping to 0 in
/// loop mode and staying put at the end otherwise.
pub open spec fn next_target(n: int, current: int, loop_mode: bool) -> int {
    if current + 1 < n {
        current + 1
    } else if loop_mode {
        0
    } else {
        current
    }
}

/// Target of a sequential backward advance: the previous index, wrapping to
/// the last in loop mode and stopping at 0 otherwise.
pub open spec fn previous_target(n: int, current: int, loop_mode: bool) -> int {
    if current > 0 {
        current - 1
    } else if loop_mode {
        n - 1
    } else {
        0
    }
}

/// The playback transport and its catalog-derived state.
pub struct Player {
    /// Display names of the catalog tracks; a track is its index here.
    pub names: Vec<Vec<char>>,
    /// Index of the track loaded into the audio output.
    pub current_index: usize,
    /// Cursor position in the list, movable independently of playback.
    pub selected_index: usize,
    /// Whether audio is actively advancing.
    pub is_playing: bool,
    /// Wrap at the catalog ends when advancing sequentially.
    pub loop_mode: bool,
    /// Pick a random other track when advancing.
    pub random_mode: bool,
    /// Timestamp (ms) at which audio last started advancing; `None` while
    /// paused or stopped.
    pub playback_start: Option<u64>,
    /// Accumulated elapsed-time baseline (ms); elapsed time is this plus the
    /// wall-clock delta since `playback_start`.
    pub seek_offset: u64,
    /// Total duration (ms) of the loaded track, if known.
    pub song_duration: Option<u64>,
    /// Whether any track has ever started playing this session.
    pub ever_played: bool,
    /// Whether the fuzzy filter is active.
    pub search_mode: bool,
    /// The filter query.
    pub search_query: Vec<char>,
    /// Catalog indices of the current matches, score-descending, ties in
    /// catalog order.
    pub filtered_songs: Vec<usize>,
}

impl Player {
    /// Number of tracks in the catalog.
    pub open spec fn track_count(self) -> int {
        self.names@.len() as int
    }

    /// The catalog as a sequence of name character sequences.
    pub open spec fn catalog(self) -> Seq<Seq<char>> {
        self.names@.map_values(|v: Vec<char>| v@)
    }

    /// Well-formedness: indices stay inside the catalog, and the playing
    /// flag and the start timestamp are set together.
    pub open spec fn wf(self) -> bool {
        &&& self.track_count() == 0 ==> self.current_index == 0 && self.selected_index == 0
        &&& self.track_count() > 0 ==> (self.current_index as int) < self.track_count() && (
        self.selected_index as int) < self.track_count()
        &&& self.is_playing <==> self.playback_start is Some
        &&& forall|k: int|
            0 <= k < self.filtered_songs@.len() ==> (self.filtered_songs@[k] as int)
                < self.track_count()
    }

    /// Elapsed playback position at wall-clock time `now_ms`: the baseline
    /// offset, advanced by the time since playback last started.
    pub open spec fn elapsed_at(self, now_ms: u64) -> u64 {
        match self.playback_start {
            Some(t) => if t <= now_ms {
                sat_add_spec(self.seek_offset, (now_ms - t) as u64)
            } else {
                self.seek_offset
            },
            None => self.seek_offset,
        }
    }

    /// Advance target from the current track: random when random mode is on
    /// (and there is a choice), else sequential in the given direction.
    pub open spec fn advance_target(self, forward: bool, rand: u64) -> int {
        let n = self.track_count();
        let c = self.current_index as int;
        if self.random_mode {
            if n > 1 {
                random_target(n, c, rand)
            } else {
                c
            }
        } else if forward {
            next_target(n, c, self.loop_mode)
        } else {
            previous_target(n, c, self.loop_mode)
        }
    }

    /// A fresh transport over the given catalog: stopped, cursor at the
    /// start, loop mode on, random mode off, no filter, all tracks matching.
    pub fn new(names: Vec<Vec<char>>) -> (p: Player)
        ensures
            p.wf(),
            p.names == names,
            p.current_index == 0,
            p.selected_index == 0,
            !p.is_playing,
            p.loop_mode,
            !p.random_mode,
            p.playback_start is None,
            p.seek_offset == 0,
            p.song_duration is None,
            !p.ever_played,
            !p.search_mode,
            p.search_query@.len() == 0,
            p.filtered_songs@.len() == names@.len(),
            forall|k: int| 0 <= k < names@.len() ==> p.filtered_songs@[k] == k,
    {
        let mut filtered: Vec<usize> = Vec::new();
        let n = names.len();
        let mut i: usize = 0;
        while i < n
            invariant
                i <= n,
                filtered@.len() == i,
                forall|k: int| 0 <= k < i ==> filtered@[k] == k,
            decreases n - i,
        {
            filtered.push(i);
            i += 1;
        }
        Player {
            names,
            current_index: 0,
            selected_index: 0,
            is_playing: false,
            loop_mode: true,
            random_mode: false,
            playback_start: None,
            seek_offset: 0,
            song_duration: None,
            ever_played: false,
            search_mode: false,
            search_query: Vec::new(),
            filtered_songs: filtered,
        }
    }

    /// Current elapsed position and total duration, read-only.
    pub fn get_playback_progress(&self, now_ms: u64) -> (r: (u64, Option<u64>))
        ensures
            r.0 == self.elapsed_at(now_ms),
            r.1 == self.song_duration,
    {
        let elapsed = match self.playback_start {
            Some(t) => if t <= now_ms {
                sat_add(self.seek_offset, now_ms - t)
            } else {
                self.seek_offset
            },
            None => self.seek_offset,
        };
        (elapsed, self.song_duration)
    }

    /// Select the track at `index` and request that it be loaded and played.
    ///
    /// Moves both indices to `index` (optimistically: they stand even if the
    /// audio layer later fails to open the track). The request starts the
    /// stream at the current elapsed baseline when the same track is
    /// reloaded — a pending seek survives reloading the current track — and
    /// at zero otherwise. The rest of the transport state, the baseline
    /// included, is untouched until [`Player::confirm_playback`] reports
    /// success: a load that is never confirmed changes nothing but the two
    /// indices. Out-of-range indices are ignored.
    pub fn play_song(&mut self, index: usize) -> (r: Option<LoadRequest>)
        requires
            old(self).wf(),
        ensures
            final(self).wf(),
            index >= old(self).names@.len() ==> *final(self) == *old(self) && r is None,
            index < old(self).names@.len() ==> {
                &&& *final(self) == (Player {
                    current_index: index,
                    selected_index: index,
                    ..*old(self)
                })
                &&& r == (Some(LoadRequest {
                    index,
                    skip_ms: (if index == old(self).current_index {
                        old(self).seek_offset
                    } else {
                        0
                    }),
                }))
            },
    {
        if index >= self.names.len() {
            return None;
        }
        let skip_ms = if self.current_index == index {
            self.seek_offset
        } else {
            0
        };
        self.current_index = index;
        self.selected_index = index;
        Some(LoadRequest { index, skip_ms })
    }

    /// Record that the audio layer opened the requested track and started
    /// playback at wall-clock time `now_ms`, skipped forward by `skip_ms`
    /// (the request's value), with the reported total duration (if any).
    /// This commits the elapsed baseline: elapsed time now reads as
    /// `skip_ms`.
    pub fn confirm_playback(&mut self, skip_ms: u64, now_ms: u64, duration_ms: Option<u64>)
        requires
            old(self).wf(),
        ensures
            final(self).wf(),
            *final(self) == (Player {
                is_playing: true,
                playback_start: Some(now_ms),
                seek_offset: skip_ms,
                song_duration: duration_ms,
                ever_played: true,
                ..*old(self)
            }),
            final(self).elapsed_at(now_ms) == skip_ms,
    {
        self.is_playing = true;
        self.playback_start = Some(now_ms);
        self.seek_offset = skip_ms;
        self.song_duration = duration_ms;
        self.ever_played = true;
    }

    /// What a play/pause keypress should do right now: start the selected
    /// track if nothing ever played or the cursor moved off the current
    /// track, else toggle between pause and resume.
    pub fn play_or_pause_decision(&self) -> (d: PlaybackDecision)
        requires
            self.wf(),
        ensures
            d == (if self.track_count() == 0 {
                PlaybackDecision::Ignore
            } else if !self.ever_played || self.selected_index != self.current_index {
                PlaybackDecision::Load(self.selected_index)
            } else if self.is_playing {
                PlaybackDecision::Pause
            } else {
                PlaybackDecision::Resume
            }),
    {
        if self.names.len() == 0 {
            PlaybackDecision::Ignore
        } else if !self.ever_played || self.selected_index != self.current_index {
            PlaybackDecision::Load(self.selected_index)
        } else if self.is_playing {
            PlaybackDecision::Pause
        } else {
            PlaybackDecision::Resume
        }
    }

    /// Pause: freeze the elapsed position into the baseline offset and clear
    /// the start timestamp. Elapsed time is unchanged by the call. No-op
    /// when not playing.
    pub fn pause_playback(&mut self, now_ms: u64)
        requires
            old(self).wf(),
        ensures
            final(self).wf(),
            !final(self).is_playing,
            old(self).is_playing ==> *final(self) == (Player {
                is_playing: false,
                playback_start: None,
                seek_offset: old(self).elapsed_at(now_ms),
                ..*old(self)
            }),
            !old(self).is_playing ==> *final(self) == *old(self),
            final(self).elapsed_at(now_ms) == old(self).elapsed_at(now_ms),
    {
        if self.is_playing {
            if let Some(start) = self.playback_start {
                if start <= now_ms {
                    self.seek_offset = sat_add(self.seek_offset, now_ms - start);
                }
            }
            self.is_playing = false;
            self.playback_start = None;
        }
    }

    /// Resume after a pause. If the audio layer reports its queue empty (a
    /// pause may have discarded the stream), a full reload of the current
    /// track from the frozen offset is requested instead; otherwise playback
    /// restarts in place at `now_ms`. Elapsed time is unchanged by the call.
    /// No-op while playing or with an empty catalog.
    pub fn resume_playback(&mut self, now_ms: u64, sink_empty: bool) -> (r: Option<LoadRequest>)
        requires
            old(self).wf(),
        ensures
            final(self).wf(),
            (old(self).is_playing || old(self).track_count() == 0) ==> *final(self) == *old(self)
                && r is None,
            (!old(self).is_playing && old(self).track_count() > 0 && sink_empty) ==> {
                &&& *final(self) == (Player {
                    selected_index: old(self).current_index,
                    ..*old(self)
                })
                &&& r == (Some(LoadRequest {
                    index: old(self).current_index,
                    skip_ms: old(self).seek_offset,
                }))
            },
            (!old(self).is_playing && old(self).track_count() > 0 && !sink_empty) ==> {
                &&& *final(self) == (Player {
                    is_playing: true,
                    playback_start: Some(now_ms),
                    ..*old(self)
                })
                &&& r is None
            },
            final(self).elapsed_at(now_ms) == old(self).elapsed_at(now_ms),
    {
        if self.is_playing || self.names.len() == 0 {
            return None;
        }
        if sink_empty {
            self.play_song(self.current_index)
        } else {
            self.is_playing = true;
            self.playback_start = Some(now_ms);
            None
        }
    }

    /// Advance target in the given direction, per the track-advance policy.
    /// `rand` feeds the random-mode draw and is otherwise unused.
    fn advance_index(&self, forward: bool, rand: u64) -> (t: usize)
        requires
            self.wf(),
            self.track_count() > 0,
        ensures
            t as int == self.advance_target(forward, rand),
            (t as int) < self.track_count(),
    {
        let n = self.names.len();
        if self.random_mode {
            if n > 1 {
                let k = rand % ((n - 1) as u64);
                proof {
                    vstd::arithmetic::div_mod::lemma_mod_bound(rand as int, (n - 1) as int);
                }
                let k = k as usize;
                if k < self.current_index {
                    k
                } else {
                    k + 1
                }
            } else {
                self.current_index
            }
        } else if forward {
            if self.current_index + 1 < n {
                self.current_index + 1
            } else if self.loop_mode {
                0
            } else {
                self.current_index
            }
        } else {
            if self.current_index > 0 {
                self.current_index - 1
            } else if self.loop_mode {
                n - 1
            } else {
                0
            }
        }
    }

    /// Advance to the next track (random or sequential per the modes) and
    /// request that it be played. No-op on an empty catalog. In random mode
    /// with more than one track, the target is never the current track.
    pub fn next_song(&mut self, rand: u64) -> (r: Option<LoadRequest>)
        requires
            old(self).wf(),
        ensures
            final(self).wf(),
            old(self).track_count() == 0 ==> *final(self) == *old(self) && r is None,
            old(self).track_count() > 0 ==> {
                let tgt = old(self).advance_target(true, rand);
                &&& final(self).current_index as int == tgt
                &&& *final(self) == (Player {
                    current_index: final(self).current_index,
                    selected_index: final(self).current_index,
                    ..*old(self)
                })
                &&& r == (Some(LoadRequest {
                    index: final(self).current_index,
                    skip_ms: (if tgt == old(self).current_index as int {
                        old(self).seek_offset
                    } else {
                        0
                    }),
                }))
            },
            old(self).random_mode && old(self).track_count() > 1 ==> final(self).current_index
                != old(self).current_index,
    {
        if self.names.len() == 0 {
            return None;
        }
        let t = self.advance_index(true, rand);
        proof {
            if self.random_mode && self.track_count() > 1 {
                vstd::arithmetic::div_mod::lemma_mod_bound(
                    rand as int,
                    self.track_count() - 1,
                );
            }
        }
        self.play_song(t)
    }

    /// Advance to the previous track (random or sequential per the modes)
    /// and request that it be played. No-op on an empty catalog.
    pub fn previous_song(&mut self, rand: u64) -> (r: Option<LoadRequest>)
        requires
            old(self).wf(),
        ensures
            final(self).wf(),
            old(self).track_count() == 0 ==> *final(self) == *old(self) && r is None,
            old(self).track_count() > 0 ==> {
                let tgt = old(self).advance_target(false, rand);
                &&& final(self).current_index as int == tgt
                &&& *final(self) == (Player {
                    current_index: final(self).current_index,
                    selected_index: final(self).current_index,
                    ..*old(self)
                })
                &&& r == (Some(LoadRequest {
                    index: final(self).current_index,
                    skip_ms: (if tgt == old(self).current_index as int {
                        old(self).seek_offset
                    } else {
                        0
                    }),
                }))
            },
            old(self).random_mode && old(self).track_count() > 1 ==> final(self).current_index
                != old(self).current_index,
    {
        if self.names.len() == 0 {
            return None;
        }
        let t = self.advance_index(false, rand);
        proof {
            if self.random_mode && self.track_count() > 1 {
                vstd::arithmetic::div_mod::lemma_mod_bound(
                    rand as int,
                    self.track_count() - 1,
                );
            }
        }
        self.play_song(t)
    }

    /// The queued stream has been fully consumed: stop the position model,
    /// reset the baseline, and request the next track per the advance
    /// policy.
    pub fn on_stream_ended(&mut self, rand: u64) -> (r: Option<LoadRequest>)
        requires
            old(self).wf(),
        ensures
            final(self).wf(),
            !final(self).is_playing,
            final(self).playback_start is None,
            final(self).seek_offset == 0,
            old(self).track_count() == 0 ==> *final(self) == (Player {
                is_playing: false,
                playback_start: None,
                seek_offset: 0,
                ..*old(self)
            }) && r is None,
            old(self).track_count() > 0 ==> {
                let tgt = old(self).advance_target(true, rand);
                &&& final(self).current_index as int == tgt
                &&& *final(self) == (Player {
                    current_index: final(self).current_index,
                    selected_index: final(self).current_index,
                    is_playing: false,
                    playback_start: None,
                    seek_offset: 0,
                    ..*old(self)
                })
                &&& r == (Some(LoadRequest { index: final(self).current_index, skip_ms: 0 }))
            },
    {
        self.is_playing = false;
        self.playback_start = None;
        self.seek_offset = 0;
        self.next_song(rand)
    }

    /// Move the list cursor by one, wrapping around the catalog; positive
    /// direction moves forward. Playback is untouched. No-op on an empty
    /// catalog.
    pub fn move_selection(&mut self, direction: i32)
        requires
            old(self).wf(),
        ensures
            final(self).wf(),
            *final(self) == (Player {
                selected_index: final(self).selected_index,
                ..*old(self)
            }),
            old(self).track_count() == 0 ==> final(self).selected_index == old(
                self,
            ).selected_index,
            old(self).track_count() > 0 && direction > 0 ==> final(self).selected_index as int
                == (old(self).selected_index + 1) as int % old(self).track_count(),
            old(self).track_count() > 0 && direction < 0 ==> final(self).selected_index as int
                == (if old(self).selected_index == 0 {
                old(self).track_count() - 1
            } else {
                old(self).selected_index - 1
            }),
            direction == 0 ==> final(self).selected_index == old(self).selected_index,
    {
        if self.names.len() == 0 {
            return ;
        }
        let len = self.names.len();
        if direction > 0 {
            self.selected_index = (self.selected_index + 1) % len;
        } else if direction < 0 {
            self.selected_index = if self.selected_index == 0 {
                len - 1
            } else {
                self.selected_index - 1
            };
        }
    }

    /// Seek target for a signed delta (seconds) from the current elapsed
    /// position: clamped below at zero and, where the total duration is
    /// known, above at one second short of it.
    pub open spec fn seek_target_spec(self, delta_seconds: int, now_ms: u64) -> u64 {
        let elapsed = self.elapsed_at(now_ms);
        let d = (if delta_seconds < 0 {
            -delta_seconds
        } else {
            delta_seconds
        }) * 1000;
        let raw = if delta_seconds < 0 {
            if elapsed > d {
                (elapsed - d) as u64
            } else {
                0u64
            }
        } else {
            if elapsed + d > u64::MAX {
                u64::MAX
            } else {
                (elapsed + d) as u64
            }
        };
        match self.song_duration {
            Some(dur) => {
                let cap = if dur >= 1000 {
                    (dur - 1000) as u64
                } else {
                    0u64
                };
                if raw > cap {
                    cap
                } else {
                    raw
                }
            },
            None => raw,
        }
    }

    /// Compute where a seek by `delta_seconds` should land, or `None` when
    /// nothing is playing. The caller attempts a live reposition to the
    /// returned target and then commits it with [`Player::seek_commit`] or,
    /// if the output cannot seek in place, reloads via
    /// [`Player::seek_fallback`].
    pub fn seek_target(&self, delta_seconds: i32, now_ms: u64) -> (r: Option<u64>)
        requires
            self.wf(),
        ensures
            (self.track_count() == 0 || !self.is_playing) <==> r is None,
            self.track_count() > 0 && self.is_playing ==> r == Some(
                self.seek_target_spec(delta_seconds as int, now_ms),
            ),
    {
        if self.names.len() == 0 || !self.is_playing {
            return None;
        }
        let (elapsed, _) = self.get_playback_progress(now_ms);
        let d_abs: u64 = if delta_seconds < 0 {
            (-(delta_seconds as i64)) as u64
        } else {
            delta_seconds as u64
        };
        let d = d_abs * 1000;
        let raw = if delta_seconds < 0 {
            if elapsed > d {
                elapsed - d
            } else {
                0
            }
        } else {
            sat_add(elapsed, d)
        };
        let target = match self.song_duration {
            Some(dur) => {
                let cap = if dur >= 1000 {
                    dur - 1000
                } else {
                    0
                };
                if raw > cap {
                    cap
                } else {
                    raw
                }
            },
            None => raw,
        };
        Some(target)
    }

    /// Record a successful live reposition to `target`: the baseline becomes
    /// the target and the clock restarts now.
    pub fn seek_commit(&mut self, target: u64, now_ms: u64)
        requires
            old(self).wf(),
            old(self).is_playing,
        ensures
            final(self).wf(),
            *final(self) == (Player {
                seek_offset: target,
                playback_start: Some(now_ms),
                ..*old(self)
            }),
            final(self).elapsed_at(now_ms) == target,
    {
        self.seek_offset = target;
        self.playback_start = Some(now_ms);
    }

    /// The output rejected the live reposition: set the baseline to the
    /// target and request a full reload of the current track, which starts
    /// from that offset.
    pub fn seek_fallback(&mut self, target: u64) -> (r: Option<LoadRequest>)
        requires
            old(self).wf(),
            old(self).track_count() > 0,
        ensures
            final(self).wf(),
            *final(self) == (Player {
                selected_index: old(self).current_index,
                seek_offset: target,
                ..*old(self)
            }),
            r == (Some(LoadRequest { index: old(self).current_index, skip_ms: target })),
    {
        self.seek_offset = target;
        self.play_song(self.current_index)
    }
}

} // verus!
