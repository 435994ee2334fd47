//! Fuzzy-match scoring of a query against a track name.
//!
//! Scores are fixed-point integers scaled by [`SCORE_SCALE`] (a score of 1.0
//! is `SCORE_SCALE`). An empty query scores 1.0 against everything. A query
//! that occurs as a contiguous substring of the name scores 2.4 when the name
//! equals the query, 1.8 when the name starts with the query, and 1.5
//! otherwise. Failing that, the name is walked once, greedily consuming query
//! characters in order; a query character matched at 0-based name position
//! `p` contributes `1/(p+1)`, and if the whole query is consumed the score is
//! the sum divided by the query length, else 0. Entries scoring 0 are
//! excluded from the match list.

use vstd::prelude::*;

verus! {

/// A score of 1.0 in the fixed-point scale.
pub const SCORE_SCALE: u64 = 1000000;

/// Score of a name that equals the query: 2.0 * 1.2.
pub const SCORE_EXACT: u64 = 2400000;

/// Score of a name that starts with the query (and is not equal): 1.5 * 1.2.
pub const SCORE_PREFIX: u64 = 1800000;

/// Score of a name that contains the query elsewhere: 1.5.
pub const SCORE_SUBSTRING: u64 = 1500000;

/// The Unicode lowercase of a character sequence, as `str::to_lowercase`
/// yields it.
pub uninterp spec fn lower_of(s: Seq<char>) -> Seq<char>;

/// Relies on str::to_lowercase: the lowercase equivalent of the text, a
/// function of its characters alone.
#[verifier::external_body]
pub(crate) fn to_lower(s: &Vec<char>) -> (r: Vec<char>)
    ensures
        r@ == lower_of(s@),
{
    let owned: String = s.iter().collect();
    owned.to_lowercase().chars().collect()
}

/// The query `q` occurs in `t` starting at position `i`.
pub open spec fn match_at(t: Seq<char>, q: Seq<char>, i: int) -> bool {
    0 <= i && i + q.len() <= t.len() && t.subrange(i, i + q.len() as int) == q
}

/// The query `q` occurs somewhere in `t` as a contiguous substring.
pub open spec fn has_substring(t: Seq<char>, q: Seq<char>) -> bool {
    exists|i: int| match_at(t, q, i)
}

/// Contribution of a query character matched at 0-based text position `p`:
/// 1/(p+1), in the fixed-point scale.
pub open spec fn term_value(p: int) -> int {
    (SCORE_SCALE as int) / (p + 1)
}

/// Greedy subsequence scan of `t` from position `ti`, consuming `q` from
/// position `qi`; yields the scaled sum of contributions and the final query
/// position.
pub open spec fn subseq_scan(q: Seq<char>, t: Seq<char>, ti: int, qi: int) -> (int, int)
    decreases t.len() - ti,
{
    if ti < 0 || ti >= t.len() {
        (0, qi)
    } else if 0 <= qi < q.len() && t[ti] == q[qi] {
        let r = subseq_scan(q, t, ti + 1, qi + 1);
        (term_value(ti) + r.0, r.1)
    } else {
        subseq_scan(q, t, ti + 1, qi)
    }
}

/// Subsequence-tier score: the scaled greedy sum divided by the query length
/// if the whole query was consumed, else 0.
pub open spec fn subseq_score(q: Seq<char>, t: Seq<char>) -> int {
    let r = subseq_scan(q, t, 0, 0);
    if r.1 == q.len() {
        r.0 / (q.len() as int)
    } else {
        0
    }
}

/// Score of query `q` against name `t`, both already case-folded.
pub open spec fn score_spec(q: Seq<char>, t: Seq<char>) -> int {
    if q.len() == 0 {
        SCORE_SCALE as int
    } else if has_substring(t, q) {
        if t == q {
            SCORE_EXACT as int
        } else if match_at(t, q, 0) {
            SCORE_PREFIX as int
        } else {
            SCORE_SUBSTRING as int
        }
    } else {
        subseq_score(q, t)
    }
}

/// The greedy scan never consumes more than the whole query, never rolls the
/// query position back, and its sum is bounded by one full contribution per
/// consumed query character.
pub proof fn lemma_scan_bounds(q: Seq<char>, t: Seq<char>, ti: int, qi: int)
    requires
        0 <= qi <= q.len(),
    ensures
        ({
            let r = subseq_scan(q, t, ti, qi);
            qi <= r.1 <= q.len() && 0 <= r.0 <= (r.1 - qi) * (SCORE_SCALE as int)
        }),
    decreases t.len() - ti,
{
    if ti < 0 || ti >= t.len() {
    } else if 0 <= qi < q.len() && t[ti] == q[qi] {
        lemma_scan_bounds(q, t, ti + 1, qi + 1);
        let r = subseq_scan(q, t, ti + 1, qi + 1);
        assert(0 <= term_value(ti) <= SCORE_SCALE as int) by {
            vstd::arithmetic::div_mod::lemma_div_pos_is_pos(SCORE_SCALE as int, ti + 1);
            vstd::arithmetic::div_mod::lemma_div_basics_5(SCORE_SCALE as int, ti + 1);
        }
        assert(term_value(ti) + r.0 <= (r.1 - qi) * (SCORE_SCALE as int)) by (nonlinear_arith)
            requires
                term_value(ti) <= SCORE_SCALE as int,
                r.0 <= (r.1 - (qi + 1)) * (SCORE_SCALE as int),
                qi + 1 <= r.1,
        {}
    } else {
        lemma_scan_bounds(q, t, ti + 1, qi);
    }
}

/// Over a name of at most [`SCORE_SCALE`] characters, every matched position
/// contributes at least one unit, so the greedy sum counts the consumed
/// query characters from below.
proof fn lemma_scan_lower_bound(q: Seq<char>, t: Seq<char>, ti: int, qi: int)
    requires
        0 <= qi <= q.len(),
        0 <= ti,
        t.len() <= SCORE_SCALE,
    ensures
        subseq_scan(q, t, ti, qi).0 >= subseq_scan(q, t, ti, qi).1 - qi,
    decreases t.len() - ti,
{
    if ti >= t.len() {
    } else if 0 <= qi < q.len() && t[ti] == q[qi] {
        lemma_scan_lower_bound(q, t, ti + 1, qi + 1);
        assert(term_value(ti) >= 1) by {
            vstd::arithmetic::div_mod::lemma_div_non_zero(SCORE_SCALE as int, ti + 1);
        }
    } else {
        lemma_scan_lower_bound(q, t, ti + 1, qi);
    }
}

/// A query that is present in the name — as a contiguous substring, or
/// consumed in full by the greedy subsequence walk — scores positively, and
/// so enters the match list, for any name of at most [`SCORE_SCALE`]
/// characters. (A query the walk does not consume scores exactly 0, by
/// definition of [`subseq_score`].)
pub proof fn lemma_present_query_scores_positive(q: Seq<char>, t: Seq<char>)
    requires
        q.len() > 0,
        t.len() <= SCORE_SCALE,
        has_substring(t, q) || subseq_scan(q, t, 0, 0).1 == q.len(),
    ensures
        score_spec(q, t) > 0,
{
    if has_substring(t, q) {
    } else {
        lemma_scan_lower_bound(q, t, 0, 0);
        vstd::arithmetic::div_mod::lemma_div_non_zero(
            subseq_scan(q, t, 0, 0).0,
            q.len() as int,
        );
    }
}

/// Whether `q` occurs in `t` at position `i`, by direct comparison.
fn matches_at(t: &Vec<char>, q: &Vec<char>, i: usize) -> (r: bool)
    requires
        i + q@.len() <= t@.len(),
    ensures
        r == match_at(t@, q@, i as int),
{
    let tn = t.len();
    let mut k: usize = 0;
    while k < q.len()
        invariant
            k <= q@.len(),
            i + q@.len() <= t@.len(),
            tn == t@.len(),
            forall|j: int| 0 <= j < k ==> t@[i + j] == q@[j],
        decreases q@.len() - k,
    {
        if t[i + k] != q[k] {
            proof {
                let sub = t@.subrange(i as int, i + q@.len() as int);
                assert(sub[k as int] == t@[i + k]);
            }
            return false;
        }
        k += 1;
    }
    proof {
        assert(t@.subrange(i as int, i + q@.len() as int) =~= q@);
    }
    true
}

/// Whether `q` occurs somewhere in `t` as a contiguous substring.
fn contains_sub(t: &Vec<char>, q: &Vec<char>) -> (r: bool)
    ensures
        r == has_substring(t@, q@),
{
    if q.len() == 0 {
        proof {
            assert(t@.subrange(0, 0) =~= q@);
            assert(match_at(t@, q@, 0));
        }
        return true;
    }
    if q.len() > t.len() {
        return false;
    }
    let last = t.len() - q.len();
    let mut i: usize = 0;
    while i <= last
        invariant
            1 <= q@.len() <= t@.len(),
            last == t@.len() - q@.len(),
            last < usize::MAX,
            forall|ii: int| 0 <= ii < i ==> !match_at(t@, q@, ii),
        decreases last + 1 - i,
    {
        if matches_at(t, q, i) {
            return true;
        }
        i += 1;
    }
    false
}

/// Whether the two vectors hold the same characters.
fn chars_eq(a: &Vec<char>, b: &Vec<char>) -> (r: bool)
    ensures
        r == (a@ == b@),
{
    if a.len() != b.len() {
        return false;
    }
    if matches_at(a, b, 0) {
        proof {
            assert(a@.subrange(0, a@.len() as int) =~= a@);
        }
        true
    } else {
        proof {
            assert(a@.subrange(0, a@.len() as int) =~= a@);
        }
        false
    }
}

/// Score of query `q` against name `t`, both already case-folded: the
/// executable counterpart of [`score_spec`].
pub fn fuzzy_match_score(query: &Vec<char>, text: &Vec<char>) -> (score: u64)
    ensures
        score == score_spec(query@, text@),
{
    if query.len() == 0 {
        return SCORE_SCALE;
    }
    if contains_sub(text, query) {
        if chars_eq(text, query) {
            return SCORE_EXACT;
        }
        if query.len() <= text.len() && matches_at(text, query, 0) {
            return SCORE_PREFIX;
        }
        return SCORE_SUBSTRING;
    }
    let ghost q = query@;
    let ghost t = text@;
    let mut sum: u128 = 0;
    let mut qi: usize = 0;
    let mut ti: usize = 0;
    while ti < text.len()
        invariant
            q == query@,
            t == text@,
            q.len() > 0,
            ti <= t.len(),
            qi <= q.len(),
            sum <= qi * (SCORE_SCALE as int),
            subseq_scan(q, t, 0, 0) == (
                sum + subseq_scan(q, t, ti as int, qi as int).0,
                subseq_scan(q, t, ti as int, qi as int).1,
            ),
        decreases t.len() - ti,
    {
        if qi < query.len() && text[ti] == query[qi] {
            let term = SCORE_SCALE / (ti as u64 + 1);
            proof {
                assert(term == term_value(ti as int));
                assert(0 <= term_value(ti as int) <= SCORE_SCALE as int) by {
                    vstd::arithmetic::div_mod::lemma_div_pos_is_pos(
                        SCORE_SCALE as int,
                        ti + 1,
                    );
                    vstd::arithmetic::div_mod::lemma_div_basics_5(
                        SCORE_SCALE as int,
                        ti + 1,
                    );
                }
                assert((qi + 1) * (SCORE_SCALE as int) == qi * (SCORE_SCALE as int)
                    + SCORE_SCALE as int) by (nonlinear_arith);
                assert(qi * (SCORE_SCALE as int) + SCORE_SCALE as int <= u128::MAX) by (
                nonlinear_arith)
                    requires
                        0 <= qi <= u64::MAX,
                {}
            }
            sum = sum + term as u128;
            qi += 1;
        }
        ti += 1;
    }
    if qi == query.len() {
        let len = query.len() as u128;
        let s = sum / len;
        proof {
            assert(sum as int / len as int <= SCORE_SCALE as int) by (nonlinear_arith)
                requires
                    0 <= sum <= len * (SCORE_SCALE as int),
                    len > 0,
            {}
        }
        s as u64
    } else {
        0
    }
}

} // verus!
