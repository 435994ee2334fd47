//! The incremental fuzzy-filter engine.
//!
//! The filter keeps a query and a derived list of catalog indices,
//! `filtered_songs`, holding exactly the tracks whose case-folded name
//! scores positively against the case-folded query (see [`crate::score`]),
//! ordered by score descending with ties in catalog order. The list is
//! recomputed in full from the query on every edit.

use vstd::prelude::*;

use crate::player::Player;
use crate::score::fuzzy_match_score;
use crate::score::lower_of;
use crate::score::score_spec;
use crate::score::to_lower;

verus! {

/// Score of catalog entry `i` against query `q`, both case-folded.
pub open spec fn entry_score(names: Seq<Seq<char>>, q: Seq<char>, i: int) -> int {
    score_spec(lower_of(q), lower_of(names[i]))
}

/// Strict ranking of two distinct catalog entries in a match list: higher
/// score first, catalog order among equal scores.
pub open spec fn ranked_before(names: Seq<Seq<char>>, q: Seq<char>, a: int, b: int) -> bool {
    ||| entry_score(names, q, a) > entry_score(names, q, b)
    ||| (entry_score(names, q, a) == entry_score(names, q, b) && a < b)
}

/// Position of the first occurrence of `v` in `s` at or after `k`, or
/// `s.len()` if there is none.
pub open spec fn find_index(s: Seq<usize>, v: usize, k: int) -> int
    decreases s.len() - k,
{
    if k < 0 || k >= s.len() {
        s.len() as int
    } else if s[k] == v {
        k
    } else {
        find_index(s, v, k + 1)
    }
}

/// Position of the first occurrence of `v` in `s`, or 0 if absent.
pub open spec fn position_or_zero(s: Seq<usize>, v: usize) -> int {
    if find_index(s, v, 0) == s.len() {
        0
    } else {
        find_index(s, v, 0)
    }
}

/// How a full recomputation of the match list for query `q` relates the new
/// state `post` to the old state `pre`: an empty query matches the whole
/// catalog in its own order; otherwise the list holds exactly the entries
/// scoring positively, ranked by [`ranked_before`]. The cursor moves to the
/// top match, or stays where it was when nothing matches.
pub open spec fn filter_recompute_ok(pre: Player, post: Player, q: Seq<char>) -> bool {
    let n = pre.track_count();
    let f = post.filtered_songs@;
    &&& (q.len() == 0 ==> f.len() == n && (forall|k: int| 0 <= k < n ==> f[k] == k))
    &&& (q.len() > 0 ==> {
        &&& forall|k: int|
            0 <= k < f.len() ==> (f[k] as int) < n && entry_score(pre.catalog(), q, f[k] as int)
                > 0
        &&& forall|i: int|
            0 <= i < n && entry_score(pre.catalog(), q, i) > 0 ==> f.contains(i as usize)
        &&& forall|k1: int, k2: int|
            0 <= k1 < k2 < f.len() ==> ranked_before(
                pre.catalog(),
                q,
                f[k1] as int,
                f[k2] as int,
            )
    })
    &&& post.selected_index == (if f.len() > 0 {
        f[0]
    } else {
        pre.selected_index
    })
}

/// A fresh copy of a vector of plain values.
fn copy_vec<T: Copy>(v: &Vec<T>) -> (r: Vec<T>)
    ensures
        r@ == v@,
{
    let mut r: Vec<T> = Vec::new();
    let n = v.len();
    let mut i: usize = 0;
    while i < n
        invariant
            i <= n,
            n == v@.len(),
            r@ == v@.take(i as int),
        decreases n - i,
    {
        r.push(v[i]);
        proof {
            assert(r@ =~= v@.take(i + 1));
        }
        i += 1;
    }
    proof {
        assert(v@.take(n as int) =~= v@);
    }
    r
}

/// Inserting an element keeps the ones already there.
proof fn lemma_insert_preserves_contains<T>(s: Seq<T>, pos: int, v: T, x: T)
    requires
        0 <= pos <= s.len(),
        s.contains(x),
    ensures
        s.insert(pos, v).contains(x),
{
    let k = choose|k: int| 0 <= k < s.len() && s[k] == x;
    if k < pos {
        assert(s.insert(pos, v)[k] == x);
    } else {
        assert(s.insert(pos, v)[k + 1] == x);
    }
}

impl Player {
    /// Recompute the match list for the given query (the stored query is not
    /// touched): every catalog entry whose case-folded name scores positively
    /// against the case-folded query, ranked by score descending, ties in
    /// catalog order. An empty query matches everything in catalog order.
    /// The cursor moves to the top match, if any.
    pub fn fuzzy_search(&mut self, query: &Vec<char>)
        requires
            old(self).wf(),
        ensures
            final(self).wf(),
            *final(self) == (Player {
                filtered_songs: final(self).filtered_songs,
                selected_index: final(self).selected_index,
                ..*old(self)
            }),
            filter_recompute_ok(*old(self), *final(self), query@),
    {
        let n = self.names.len();
        let ghost cat = self.catalog();
        let ghost q = query@;
        let mut filtered: Vec<usize> = Vec::new();
        if query.len() == 0 {
            let mut i: usize = 0;
            while i < n
                invariant
                    i <= n,
                    filtered@.len() == i,
                    forall|k: int| 0 <= k < i ==> filtered@[k] == k,
                decreases n - i,
            {
                filtered.push(i);
                i += 1;
            }
        } else {
            let lq = to_lower(query);
            let mut scored: Vec<(usize, u64)> = Vec::new();
            let mut i: usize = 0;
            while i < n
                invariant
                    i <= n,
                    n == self.names@.len(),
                    cat == self.catalog(),
                    q == query@,
                    lq@ == lower_of(q),
                    q.len() > 0,
                    forall|k: int|
                        0 <= k < scored@.len() ==> (scored@[k].0 as int) < i && scored@[k].1
                            == entry_score(cat, q, scored@[k].0 as int) && scored@[k].1 > 0,
                    forall|j: int|
                        0 <= j < i && entry_score(cat, q, j) > 0 ==> scored@.contains(
                            (j as usize, entry_score(cat, q, j) as u64),
                        ),
                    forall|k1: int, k2: int|
                        0 <= k1 < k2 < scored@.len() ==> (scored@[k1].1 > scored@[k2].1 || (
                        scored@[k1].1 == scored@[k2].1 && scored@[k1].0 < scored@[k2].0)),
                decreases n - i,
            {
                let ln = to_lower(&self.names[i]);
                proof {
                    assert(cat[i as int] == self.names@[i as int]@);
                }
                let s = fuzzy_match_score(&lq, &ln);
                if s > 0 {
                    let mut j: usize = 0;
                    while j < scored.len() && scored[j].1 >= s
                        invariant
                            j <= scored@.len(),
                            forall|k: int| 0 <= k < j ==> scored@[k].1 >= s,
                        decreases scored@.len() - j,
                    {
                        j += 1;
                    }
                    let ghost pre_insert = scored@;
                    scored.insert(j, (i, s));
                    proof {
                        assert forall|jj: int|
                            0 <= jj < i + 1 && entry_score(cat, q, jj) > 0 implies scored@
                            .contains((jj as usize, entry_score(cat, q, jj) as u64)) by {
                            if jj == i {
                                assert(scored@[j as int] == (i, s));
                            } else {
                                lemma_insert_preserves_contains(
                                    pre_insert,
                                    j as int,
                                    (i, s),
                                    (jj as usize, entry_score(cat, q, jj) as u64),
                                );
                            }
                        }
                    }
                }
                i += 1;
            }
            let m = scored.len();
            let mut k: usize = 0;
            while k < m
                invariant
                    k <= m,
                    m == scored@.len(),
                    filtered@.len() == k,
                    forall|kk: int| 0 <= kk < k ==> filtered@[kk] == scored@[kk].0,
                decreases m - k,
            {
                filtered.push(scored[k].0);
                k += 1;
            }
            proof {
                assert forall|jj: int|
                    0 <= jj < n && entry_score(cat, q, jj) > 0 implies filtered@.contains(
                    jj as usize,
                ) by {
                    let pair = (jj as usize, entry_score(cat, q, jj) as u64);
                    let kk = choose|kk: int|
                        0 <= kk < scored@.len() && scored@[kk] == pair;
                    assert(filtered@[kk] == jj as usize);
                }
            }
        }
        self.filtered_songs = filtered;
        if self.filtered_songs.len() > 0 {
            self.selected_index = self.filtered_songs[0];
        }
    }

    /// Activate filtering: clear the query, so the match list becomes the
    /// whole catalog in order, with the cursor on its first entry.
    pub fn enter_search_mode(&mut self)
        requires
            old(self).wf(),
        ensures
            final(self).wf(),
            *final(self) == (Player {
                search_mode: true,
                search_query: final(self).search_query,
                filtered_songs: final(self).filtered_songs,
                selected_index: final(self).selected_index,
                ..*old(self)
            }),
            final(self).search_query@.len() == 0,
            filter_recompute_ok(*old(self), *final(self), Seq::<char>::empty()),
    {
        self.search_mode = true;
        self.search_query = Vec::new();
        let q: Vec<char> = Vec::new();
        self.fuzzy_search(&q);
    }

    /// Deactivate filtering: clear the query and show the whole catalog
    /// again. The cursor stays where it is.
    pub fn exit_search_mode(&mut self)
        requires
            old(self).wf(),
        ensures
            final(self).wf(),
            *final(self) == (Player {
                search_mode: false,
                search_query: final(self).search_query,
                filtered_songs: final(self).filtered_songs,
                ..*old(self)
            }),
            final(self).search_query@.len() == 0,
            final(self).filtered_songs@.len() == old(self).track_count(),
            forall|k: int|
                0 <= k < old(self).track_count() ==> final(self).filtered_songs@[k] == k,
            final(self).selected_index == old(self).selected_index,
    {
        self.search_mode = false;
        self.search_query = Vec::new();
        let n = self.names.len();
        let mut filtered: Vec<usize> = Vec::new();
        let mut i: usize = 0;
        while i < n
            invariant
                i <= n,
                filtered@.len() == i,
                forall|k: int| 0 <= k < i ==> filtered@[k] == k,
            decreases n - i,
        {
            filtered.push(i);
            i += 1;
        }
        self.filtered_songs = filtered;
    }

    /// Replace the query and recompute the match list.
    pub fn set_query(&mut self, query: Vec<char>)
        requires
            old(self).wf(),
        ensures
            final(self).wf(),
            *final(self) == (Player {
                search_query: final(self).search_query,
                filtered_songs: final(self).filtered_songs,
                selected_index: final(self).selected_index,
                ..*old(self)
            }),
            final(self).search_query == query,
            filter_recompute_ok(*old(self), *final(self), query@),
    {
        let q = copy_vec(&query);
        self.search_query = query;
        self.fuzzy_search(&q);
        proof {
            assert(*self == (Player {
                search_query: self.search_query,
                filtered_songs: self.filtered_songs,
                selected_index: self.selected_index,
                ..*old(self)
            }));
        }
    }

    /// Append one character to the query and recompute the match list.
    pub fn append_search_char(&mut self, c: char)
        requires
            old(self).wf(),
        ensures
            final(self).wf(),
            *final(self) == (Player {
                search_query: final(self).search_query,
                filtered_songs: final(self).filtered_songs,
                selected_index: final(self).selected_index,
                ..*old(self)
            }),
            final(self).search_query@ == old(self).search_query@.push(c),
            filter_recompute_ok(*old(self), *final(self), old(self).search_query@.push(c)),
    {
        self.search_query.push(c);
        let q = copy_vec(&self.search_query);
        self.fuzzy_search(&q);
    }

    /// Drop the last character of the query (if any) and recompute the match
    /// list.
    pub fn backspace_search(&mut self)
        requires
            old(self).wf(),
        ensures
            final(self).wf(),
            *final(self) == (Player {
                search_query: final(self).search_query,
                filtered_songs: final(self).filtered_songs,
                selected_index: final(self).selected_index,
                ..*old(self)
            }),
            final(self).search_query@ == (if old(self).search_query@.len() > 0 {
                old(self).search_query@.drop_last()
            } else {
                old(self).search_query@
            }),
            filter_recompute_ok(*old(self), *final(self), final(self).search_query@),
    {
        let _ = self.search_query.pop();
        let q = copy_vec(&self.search_query);
        self.fuzzy_search(&q);
    }

    /// The catalog indices to display, in order: the match list while
    /// filtering, the whole catalog otherwise.
    pub fn get_display_songs(&self) -> (r: Vec<usize>)
        requires
            self.wf(),
        ensures
            self.search_mode ==> r@ == self.filtered_songs@,
            !self.search_mode ==> r@.len() == self.track_count() && (forall|k: int|
                0 <= k < self.track_count() ==> r@[k] == k),
    {
        if self.search_mode {
            copy_vec(&self.filtered_songs)
        } else {
            let n = self.names.len();
            let mut r: Vec<usize> = Vec::new();
            let mut i: usize = 0;
            while i < n
                invariant
                    i <= n,
                    r@.len() == i,
                    forall|k: int| 0 <= k < i ==> r@[k] == k,
                decreases n - i,
            {
                r.push(i);
                i += 1;
            }
            r
        }
    }

    /// Move the cursor to the next or previous entry of the match list,
    /// wrapping; positive direction moves forward. The walk starts from the
    /// cursor's position in the match list, or from its top if the cursor is
    /// not on a match. No-op when nothing matches.
    pub fn move_selection_in_search(&mut self, direction: i32)
        requires
            old(self).wf(),
        ensures
            final(self).wf(),
            old(self).filtered_songs@.len() == 0 ==> *final(self) == *old(self),
            old(self).filtered_songs@.len() > 0 ==> {
                let f = old(self).filtered_songs@;
                let pos = position_or_zero(f, old(self).selected_index);
                let newpos = (if direction > 0 {
                    (pos + 1) % (f.len() as int)
                } else if direction < 0 {
                    if pos == 0 {
                        f.len() - 1
                    } else {
                        pos - 1
                    }
                } else {
                    pos
                });
                *final(self) == (Player { selected_index: f[newpos], ..*old(self) })
            },
    {
        let m = self.filtered_songs.len();
        if m == 0 {
            return ;
        }
        let ghost f = self.filtered_songs@;
        let mut pos: usize = 0;
        let mut scan: usize = 0;
        let mut found = false;
        while scan < m && !found
            invariant
                scan <= m,
                m == f.len(),
                f == self.filtered_songs@,
                !found ==> pos == 0 && find_index(f, self.selected_index, 0) == find_index(
                    f,
                    self.selected_index,
                    scan as int,
                ),
                found ==> pos == find_index(f, self.selected_index, 0) && pos < m,
            decreases m - scan,
        {
            if self.filtered_songs[scan] == self.selected_index {
                found = true;
                pos = scan;
            }
            scan += 1;
        }
        proof {
            if !found {
                assert(find_index(f, self.selected_index, m as int) == m);
                assert(position_or_zero(f, self.selected_index) == 0);
            } else {
                assert(position_or_zero(f, self.selected_index) == pos);
            }
        }
        let newpos = if direction > 0 {
            (pos + 1) % m
        } else if direction < 0 {
            if pos == 0 {
                m - 1
            } else {
                pos - 1
            }
        } else {
            pos
        };
        self.selected_index = self.filtered_songs[newpos];
    }

    /// Move the cursor to the first displayed entry: the top match while
    /// filtering (no-op when nothing matches), the first track otherwise.
    /// No-op on an empty catalog.
    pub fn jump_to_first(&mut self)
        requires
            old(self).wf(),
        ensures
            final(self).wf(),
            *final(self) == (Player {
                selected_index: final(self).selected_index,
                ..*old(self)
            }),
            final(self).selected_index == (if old(self).track_count() == 0 {
                old(self).selected_index
            } else if old(self).search_mode {
                if old(self).filtered_songs@.len() > 0 {
                    old(self).filtered_songs@[0]
                } else {
                    old(self).selected_index
                }
            } else {
                0
            }),
    {
        if self.names.len() == 0 {
            return ;
        }
        if self.search_mode {
            if self.filtered_songs.len() > 0 {
                self.selected_index = self.filtered_songs[0];
            }
        } else {
            self.selected_index = 0;
        }
    }

    /// Move the cursor to the last displayed entry: the bottom match while
    /// filtering (no-op when nothing matches), the last track otherwise.
    /// No-op on an empty catalog.
    pub fn jump_to_last(&mut self)
        requires
            old(self).wf(),
        ensures
            final(self).wf(),
            *final(self) == (Player {
                selected_index: final(self).selected_index,
                ..*old(self)
            }),
            final(self).selected_index as int == (if old(self).track_count() == 0 {
                old(self).selected_index as int
            } else if old(self).search_mode {
                if old(self).filtered_songs@.len() > 0 {
                    old(self).filtered_songs@[old(self).filtered_songs@.len() - 1] as int
                } else {
                    old(self).selected_index as int
                }
            } else {
                old(self).track_count() - 1
            }),
    {
        if self.names.len() == 0 {
            return ;
        }
        if self.search_mode {
            let m = self.filtered_songs.len();
            if m > 0 {
                self.selected_index = self.filtered_songs[m - 1];
            }
        } else {
            self.selected_index = self.names.len() - 1;
        }
    }
}

} // verus!
