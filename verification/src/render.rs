//! Rendering of lifecycle events as single log lines.
//!
//! An event line has the fixed shape
//! `[<year>-<month>-<day> <hour>:<minute>:<second>] <label> (<name> (<pid>)): <description>`
//! with the month, day, hour, minute and second zero-padded to two digits and
//! the year to four.  The spec functions here pin every character of the
//! line; the executable functions build it and are proved to match.

use vstd::prelude::*;

use crate::event::EventKind;
use crate::event::Timestamp;

verus! {

/// The character for one decimal digit.
pub open spec fn digit_char(d: nat) -> char {
    if d == 0 {
        '0'
    } else if d == 1 {
        '1'
    } else if d == 2 {
        '2'
    } else if d == 3 {
        '3'
    } else if d == 4 {
        '4'
    } else if d == 5 {
        '5'
    } else if d == 6 {
        '6'
    } else if d == 7 {
        '7'
    } else if d == 8 {
        '8'
    } else {
        '9'
    }
}

/// The decimal representation of a number, most significant digit first,
/// without leading zeros (a single zero for zero itself).
pub open spec fn dec_rep(n: nat) -> Seq<char>
    decreases n,
{
    if n < 10 {
        seq![digit_char(n)]
    } else {
        dec_rep(n / 10).push(digit_char(n % 10))
    }
}

/// A run of `n` zero characters.
pub open spec fn zeros(n: nat) -> Seq<char>
    decreases n,
{
    if n == 0 {
        seq![]
    } else {
        zeros((n - 1) as nat).push('0')
    }
}

/// The decimal representation of `n`, left-padded with zeros to at least
/// `width` characters.
pub open spec fn padded_dec(n: nat, width: nat) -> Seq<char> {
    if dec_rep(n).len() >= width {
        dec_rep(n)
    } else {
        zeros((width - dec_rep(n).len()) as nat) + dec_rep(n)
    }
}

/// The rendering of a calendar year: four zero-padded digits, preceded by a
/// sign for years before the common era.
pub open spec fn year_chars(year: int) -> Seq<char> {
    if year >= 0 {
        padded_dec(year as nat, 4)
    } else {
        "-"@ + padded_dec((-year) as nat, 4)
    }
}

/// The rendering of a timestamp: `<year>-<month>-<day> <hour>:<minute>:<second>`.
pub open spec fn timestamp_chars(ts: Timestamp) -> Seq<char> {
    year_chars(ts.year as int) + "-"@ + padded_dec(ts.month as nat, 2) + "-"@ + padded_dec(
        ts.day as nat,
        2,
    ) + " "@ + padded_dec(ts.hour as nat, 2) + ":"@ + padded_dec(ts.minute as nat, 2) + ":"@
        + padded_dec(ts.second as nat, 2)
}

/// The whole event line for one lifecycle event.
pub open spec fn event_line_chars(
    ts: Timestamp,
    kind: EventKind,
    name: Seq<char>,
    pid: u32,
) -> Seq<char> {
    "["@ + timestamp_chars(ts) + "] "@ + kind.spec_label() + " ("@ + name + " ("@ + dec_rep(
        pid as nat,
    ) + ")): "@ + kind.spec_description()
}

/// Every character of a zero run is a zero.
pub proof fn lemma_zeros(n: nat)
    ensures
        zeros(n).len() == n,
        forall|i: int| 0 <= i < n ==> zeros(n)[i] == '0',
    decreases n,
{
    if n > 0 {
        lemma_zeros((n - 1) as nat);
    }
}

/// How many digits a number has, by decade.
pub proof fn lemma_dec_rep_len(n: nat)
    ensures
        1 <= dec_rep(n).len(),
        n < 10 ==> dec_rep(n).len() == 1,
        n < 100 ==> dec_rep(n).len() <= 2,
        10 <= n ==> 2 <= dec_rep(n).len(),
        n < 1000 ==> dec_rep(n).len() <= 3,
        100 <= n ==> 3 <= dec_rep(n).len(),
        n < 10000 ==> dec_rep(n).len() <= 4,
        1000 <= n ==> 4 <= dec_rep(n).len(),
    decreases n,
{
    if n >= 10 {
        lemma_dec_rep_len(n / 10);
    }
}

/// Appends the character of one decimal digit.
fn append_digit(s: &mut String, d: u64)
    requires
        d < 10,
    ensures
        final(s)@ == old(s)@ + seq![digit_char(d as nat)],
{
    proof {
        reveal_strlit("0");
        reveal_strlit("1");
        reveal_strlit("2");
        reveal_strlit("3");
        reveal_strlit("4");
        reveal_strlit("5");
        reveal_strlit("6");
        reveal_strlit("7");
        reveal_strlit("8");
        reveal_strlit("9");
    }
    if d == 0 {
        s.append("0");
    } else if d == 1 {
        s.append("1");
    } else if d == 2 {
        s.append("2");
    } else if d == 3 {
        s.append("3");
    } else if d == 4 {
        s.append("4");
    } else if d == 5 {
        s.append("5");
    } else if d == 6 {
        s.append("6");
    } else if d == 7 {
        s.append("7");
    } else if d == 8 {
        s.append("8");
    } else {
        s.append("9");
    }
    proof {
        assert(s@ =~= old(s)@ + seq![digit_char(d as nat)]);
    }
}

/// Appends the decimal representation of `n`.
pub fn append_dec_u64(s: &mut String, n: u64)
    ensures
        final(s)@ == old(s)@ + dec_rep(n as nat),
    decreases n,
{
    if n < 10 {
        append_digit(s, n);
    } else {
        append_dec_u64(s, n / 10);
        append_digit(s, n % 10);
        proof {
            assert(s@ =~= old(s)@ + dec_rep(n as nat));
        }
    }
}

/// Appends `n` zero-padded to at least two digits.
fn append_pad2(s: &mut String, n: u64)
    ensures
        final(s)@ == old(s)@ + padded_dec(n as nat, 2),
{
    proof {
        lemma_dec_rep_len(n as nat);
        lemma_zeros(1);
        reveal_strlit("0");
    }
    if n < 10 {
        s.append("0");
    }
    append_dec_u64(s, n);
    proof {
        assert(s@ =~= old(s)@ + padded_dec(n as nat, 2));
    }
}

/// Appends `n` zero-padded to at least four digits.
fn append_pad4(s: &mut String, n: u64)
    ensures
        final(s)@ == old(s)@ + padded_dec(n as nat, 4),
{
    proof {
        lemma_dec_rep_len(n as nat);
        lemma_zeros(1);
        lemma_zeros(2);
        lemma_zeros(3);
        reveal_strlit("0");
    }
    if n < 1000 {
        s.append("0");
    }
    if n < 100 {
        s.append("0");
    }
    if n < 10 {
        s.append("0");
    }
    append_dec_u64(s, n);
    proof {
        assert(s@ =~= old(s)@ + padded_dec(n as nat, 4));
    }
}

/// Appends a calendar year, signed and zero-padded to four digits.
fn append_year(s: &mut String, year: i32)
    ensures
        final(s)@ == old(s)@ + year_chars(year as int),
{
    let wide: i64 = year as i64;
    if wide < 0 {
        s.append("-");
        append_pad4(s, (-wide) as u64);
    } else {
        append_pad4(s, wide as u64);
    }
    proof {
        assert(s@ =~= old(s)@ + year_chars(year as int));
    }
}

/// Renders a timestamp as `<year>-<month>-<day> <hour>:<minute>:<second>`.
pub fn format_timestamp(ts: &Timestamp) -> (r: String)
    ensures
        r@ == timestamp_chars(*ts),
{
    let mut s = String::new();
    append_year(&mut s, ts.year);
    s.append("-");
    append_pad2(&mut s, ts.month as u64);
    s.append("-");
    append_pad2(&mut s, ts.day as u64);
    s.append(" ");
    append_pad2(&mut s, ts.hour as u64);
    s.append(":");
    append_pad2(&mut s, ts.minute as u64);
    s.append(":");
    append_pad2(&mut s, ts.second as u64);
    proof {
        assert(s@ =~= timestamp_chars(*ts));
    }
    s
}

/// Renders one whole event line.
pub fn format_event_line(ts: &Timestamp, kind: EventKind, name: &str, pid: u32) -> (r: String)
    ensures
        r@ == event_line_chars(*ts, kind, name@, pid),
{
    let mut s = String::new();
    s.append("[");
    let stamp = format_timestamp(ts);
    s.append(stamp.as_str());
    s.append("] ");
    s.append(kind.label());
    s.append(" (");
    s.append(name);
    s.append(" (");
    append_dec_u64(&mut s, pid as u64);
    s.append(")): ");
    s.append(kind.description());
    proof {
        assert(s@ =~= event_line_chars(*ts, kind, name@, pid));
    }
    s
}

} // verus!
