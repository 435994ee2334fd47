//! Rendering of elapsed/total playback time as `MM:SS`, with minutes and
//! seconds both zero-padded to at least two digits.

use vstd::prelude::*;

use crate::player::Player;

verus! {

/// The decimal digit character for `d`.
pub open spec fn digit_char(d: int) -> char {
    if d == 0 {
        '0'
    } else if d == 1 {
        '1'
    } else if d == 2 {
        '2'
    } else if d == 3 {
        '3'
    } else if d == 4 {
        '4'
    } else if d == 5 {
        '5'
    } else if d == 6 {
        '6'
    } else if d == 7 {
        '7'
    } else if d == 8 {
        '8'
    } else {
        '9'
    }
}

/// The decimal digits of a non-negative number, most significant first.
pub open spec fn dec_digits(n: int) -> Seq<char>
    decreases n,
{
    if n < 10 {
        seq![digit_char(n)]
    } else {
        dec_digits(n / 10).push(digit_char(n % 10))
    }
}

/// The decimal digits of `n`, zero-padded to at least two.
pub open spec fn padded_digits(n: int) -> Seq<char> {
    if n < 10 {
        seq!['0'].push(digit_char(n))
    } else {
        dec_digits(n)
    }
}

/// `MM:SS` for a total number of seconds: whole minutes, a colon, and the
/// leftover seconds, each zero-padded to at least two digits.
pub open spec fn spec_format_duration(total_seconds: int) -> Seq<char> {
    padded_digits(total_seconds / 60) + seq![':'] + padded_digits(total_seconds % 60)
}

/// Relies on String's FromIterator over char: collecting characters yields
/// the string of exactly those characters.
#[verifier::external_body]
fn chars_to_string(v: &Vec<char>) -> (r: String)
    ensures
        r@ == v@,
{
    v.iter().collect()
}

/// The digit character for `d`.
fn digit_of(d: u64) -> (c: char)
    requires
        d < 10,
    ensures
        c == digit_char(d as int),
{
    match d {
        0 => '0',
        1 => '1',
        2 => '2',
        3 => '3',
        4 => '4',
        5 => '5',
        6 => '6',
        7 => '7',
        8 => '8',
        _ => '9',
    }
}

/// Append the decimal digits of `n` to `out`.
fn push_dec(n: u64, out: &mut Vec<char>)
    ensures
        final(out)@ == old(out)@ + dec_digits(n as int),
    decreases n,
{
    let ghost pre = out@;
    if n >= 10 {
        push_dec(n / 10, out);
    }
    out.push(digit_of(n % 10));
    proof {
        if n < 10 {
            assert(pre + dec_digits(n as int) =~= pre.push(digit_char(n as int)));
        } else {
            assert(pre + dec_digits(n as int) =~= (pre + dec_digits(n as int / 10)).push(
                digit_char(n as int % 10),
            ));
        }
    }
}

impl Player {
    /// `MM:SS` rendering of a duration given in whole seconds.
    pub fn format_duration(total_seconds: u64) -> (s: String)
        ensures
            s@ == spec_format_duration(total_seconds as int),
    {
        let minutes = total_seconds / 60;
        let seconds = total_seconds % 60;
        let mut out: Vec<char> = Vec::new();
        if minutes < 10 {
            out.push('0');
        }
        push_dec(minutes, &mut out);
        out.push(':');
        let ghost head = out@;
        if seconds < 10 {
            out.push('0');
        }
        push_dec(seconds, &mut out);
        proof {
            assert(head =~= padded_digits(minutes as int) + seq![':']);
            if seconds < 10 {
                assert(head.push('0') + dec_digits(seconds as int) =~= head + seq!['0'].push(
                    digit_char(seconds as int),
                ));
            }
            assert(out@ =~= spec_format_duration(total_seconds as int));
        }
        chars_to_string(&out)
    }
}

} // verus!
