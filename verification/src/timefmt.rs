//! Time arguments and the countdown display.
//!
//! The run modes are selected by two textual arguments: an elapsed
//! duration written `H:MM:SS` (hours up to 23) and a twelve-hour clock
//! time written `H:MM:am` or `H:MM:pm`. Both grammars are fixed here as
//! spec-level parsers, and the executable parsers return exactly what the
//! spec parsers denote. The remaining time of a run is rendered as
//! `H:MM:SS` with unpadded hours and two-digit minutes and seconds.

use vstd::prelude::*;
use crate::text::{
    char_of_digit, dec_chars, digit_val, is_digit, num_val, digit_str, push_decimal,
};
use vstd::string::StringExecFns;
use vstd::string::StrSliceExecFns;

verus! {

/// An elapsed time read from a duration argument: at most `23:59:59`.
#[derive(Clone, Copy, PartialEq, Eq, Structural, Debug)]
pub struct Hms {
    pub hours: u32,
    pub minutes: u32,
    pub seconds: u32,
}

/// A twelve-hour clock time read from a time argument.
#[derive(Clone, Copy, PartialEq, Eq, Structural, Debug)]
pub struct ClockTime12 {
    pub hour: u32,
    pub minute: u32,
    pub pm: bool,
}

impl Hms {
    /// The fields stay inside their clock ranges.
    pub open spec fn wf(&self) -> bool {
        self.hours <= 23 && self.minutes <= 59 && self.seconds <= 59
    }

    /// The number of seconds the duration spans.
    pub open spec fn spec_total_seconds(&self) -> int {
        self.hours * 3600 + self.minutes * 60 + self.seconds
    }

    pub fn total_seconds(&self) -> (r: u32)
        requires
            self.wf(),
        ensures
            r == self.spec_total_seconds(),
            r < 86400,
    {
        self.hours * 3600 + self.minutes * 60 + self.seconds
    }
}

impl ClockTime12 {
    /// The hour is written 1 to 12 on a twelve-hour clock.
    pub open spec fn wf(&self) -> bool {
        1 <= self.hour <= 12 && self.minute <= 59
    }

    /// The second of the day the clock time names: hour 12 wraps to 0,
    /// and the afternoon adds twelve hours.
    pub open spec fn spec_target_seconds(&self) -> int {
        ((self.hour % 12) + if self.pm {
            12int
        } else {
            0int
        }) * 3600 + self.minute * 60
    }

    pub fn target_seconds(&self) -> (r: u32)
        requires
            self.wf(),
        ensures
            r == self.spec_target_seconds(),
            r < 86400,
    {
        let h: u32 = self.hour % 12;
        let h24: u32 = if self.pm {
            h + 12
        } else {
            h
        };
        h24 * 3600 + self.minute * 60
    }
}

/// The end of the run of decimal digits that starts at `i`.
pub open spec fn digit_run_end(s: Seq<char>, i: int) -> int
    decreases s.len() - i,
{
    if i < 0 || i >= s.len() {
        i
    } else if is_digit(s[i]) {
        digit_run_end(s, i + 1)
    } else {
        i
    }
}

/// Everything before the run's end is a digit, and the run ends at a
/// non-digit or at the end of the text.
pub proof fn lemma_digit_run(s: Seq<char>, i: int)
    requires
        0 <= i <= s.len(),
    ensures
        i <= digit_run_end(s, i) <= s.len(),
        forall|j: int| i <= j < digit_run_end(s, i) ==> is_digit(#[trigger] s[j]),
        digit_run_end(s, i) < s.len() ==> !is_digit(s[digit_run_end(s, i)]),
    decreases s.len() - i,
{
    if i < s.len() && is_digit(s[i]) {
        lemma_digit_run(s, i + 1);
    }
}

/// A run of digits that ends at a non-digit (or at the end of the text)
/// is scanned to exactly its own end.
pub proof fn lemma_digit_run_of_run(s: Seq<char>, i: int, e: int)
    requires
        0 <= i <= e <= s.len(),
        forall|j: int| i <= j < e ==> is_digit(#[trigger] s[j]),
        e < s.len() ==> !is_digit(s[e]),
    ensures
        digit_run_end(s, i) == e,
    decreases e - i,
{
    if i < e {
        lemma_digit_run_of_run(s, i + 1, e);
    }
}

/// What a duration argument `H:MM:SS` denotes: three runs of one or two
/// digits separated by colons, spanning the whole argument, with the
/// hours below 24 and the minutes and seconds below 60.
pub open spec fn duration_spec(s: Seq<char>) -> Option<Hms> {
    let e1 = digit_run_end(s, 0);
    let b2 = e1 + 1;
    let e2 = digit_run_end(s, b2);
    let b3 = e2 + 1;
    let e3 = digit_run_end(s, b3);
    if !(1 <= e1 <= 2) {
        None
    } else if e1 >= s.len() || s[e1] != ':' {
        None
    } else if !(1 <= e2 - b2 <= 2) {
        None
    } else if e2 >= s.len() || s[e2] != ':' {
        None
    } else if !(1 <= e3 - b3 <= 2) || e3 != s.len() {
        None
    } else {
        let h = num_val(s.subrange(0, e1));
        let m = num_val(s.subrange(b2, e2));
        let sec = num_val(s.subrange(b3, e3));
        if h <= 23 && m <= 59 && sec <= 59 {
            Some(Hms { hours: h as u32, minutes: m as u32, seconds: sec as u32 })
        } else {
            None
        }
    }
}

/// Whether `c` spells the morning marker's first letter.
pub open spec fn is_am_char(c: char) -> bool {
    c == 'a' || c == 'A'
}

/// Whether `c` spells the afternoon marker's first letter.
pub open spec fn is_pm_char(c: char) -> bool {
    c == 'p' || c == 'P'
}

/// What a time argument `H:MM:am` / `H:MM:pm` denotes: an hour of one or
/// two digits between 1 and 12, a colon, minutes of one or two digits
/// below 60, a colon, and a case-insensitive meridiem marker that ends
/// the argument.
pub open spec fn clock12_spec(s: Seq<char>) -> Option<ClockTime12> {
    let e1 = digit_run_end(s, 0);
    let b2 = e1 + 1;
    let e2 = digit_run_end(s, b2);
    let b3 = e2 + 1;
    if !(1 <= e1 <= 2) {
        None
    } else if e1 >= s.len() || s[e1] != ':' {
        None
    } else if !(1 <= e2 - b2 <= 2) {
        None
    } else if e2 >= s.len() || s[e2] != ':' {
        None
    } else if s.len() != b3 + 2 {
        None
    } else if !(is_am_char(s[b3]) || is_pm_char(s[b3])) {
        None
    } else if s[b3 + 1] != 'm' && s[b3 + 1] != 'M' {
        None
    } else {
        let h = num_val(s.subrange(0, e1));
        let m = num_val(s.subrange(b2, e2));
        if 1 <= h <= 12 && m <= 59 {
            Some(ClockTime12 { hour: h as u32, minute: m as u32, pm: is_pm_char(s[b3]) })
        } else {
            None
        }
    }
}

/// Whether `c` is a decimal digit.
fn is_digit_char(c: char) -> (r: bool)
    ensures
        r == is_digit(c),
{
    '0' <= c && c <= '9'
}

/// The numeric value of a digit character.
fn char_digit(c: char) -> (d: u32)
    requires
        is_digit(c),
    ensures
        d == digit_val(c),
        d < 10,
{
    (c as u32) - ('0' as u32)
}

/// Scans the run of digits that starts at `i`.
pub(crate) fn digit_run(s: &str, slen: usize, i: usize) -> (e: usize)
    requires
        slen as nat == s@.len(),
        i <= slen,
    ensures
        e == digit_run_end(s@, i as int),
        i <= e <= slen,
{
    let mut j: usize = i;
    loop
        invariant
            slen as nat == s@.len(),
            i <= j <= slen,
            digit_run_end(s@, i as int) == digit_run_end(s@, j as int),
        decreases slen - j,
    {
        if j == slen {
            return j;
        }
        let c = s.get_char(j);
        if !is_digit_char(c) {
            return j;
        }
        j = j + 1;
    }
}

/// The value of a run of one or two digits.
fn run_value_2(s: &str, from: usize, end: usize) -> (v: u32)
    requires
        from < end <= s@.len(),
        end - from <= 2,
        forall|j: int| from <= j < end ==> is_digit(#[trigger] s@[j]),
    ensures
        v == num_val(s@.subrange(from as int, end as int)),
        v < 100,
{
    let ghost sub = s@.subrange(from as int, end as int);
    let c0 = s.get_char(from);
    let d0 = char_digit(c0);
    if end - from == 1 {
        proof {
            assert(sub.drop_last() =~= Seq::<char>::empty());
            assert(sub.last() == c0);
            assert(num_val(sub) == num_val(Seq::<char>::empty()) * 10 + digit_val(c0));
            assert(num_val(Seq::<char>::empty()) == 0);
        }
        d0
    } else {
        let c1 = s.get_char(from + 1);
        let d1 = char_digit(c1);
        proof {
            assert(sub.drop_last() =~= seq![c0]);
            assert(sub.last() == c1);
            assert(num_val(sub) == num_val(seq![c0]) * 10 + digit_val(c1));
            assert(seq![c0].drop_last() =~= Seq::<char>::empty());
            assert(seq![c0].last() == c0);
            assert(num_val(seq![c0]) == num_val(Seq::<char>::empty()) * 10 + digit_val(c0));
            assert(num_val(Seq::<char>::empty()) == 0);
        }
        d0 * 10 + d1
    }
}

/// Reads a duration argument; returns exactly what the grammar denotes.
pub fn parse_duration_hms(s: &str) -> (r: Option<Hms>)
    ensures
        r == duration_spec(s@),
        r matches Some(h) ==> h.wf(),
{
    let slen = s.unicode_len();
    let e1 = digit_run(s, slen, 0);
    proof {
        lemma_digit_run(s@, 0);
    }
    if !(1 <= e1 && e1 <= 2) {
        return None;
    }
    if e1 >= slen || s.get_char(e1) != ':' {
        return None;
    }
    let b2 = e1 + 1;
    let e2 = digit_run(s, slen, b2);
    proof {
        lemma_digit_run(s@, b2 as int);
    }
    if !(1 <= e2 - b2 && e2 - b2 <= 2) {
        return None;
    }
    if e2 >= slen || s.get_char(e2) != ':' {
        return None;
    }
    let b3 = e2 + 1;
    let e3 = digit_run(s, slen, b3);
    proof {
        lemma_digit_run(s@, b3 as int);
    }
    if !(1 <= e3 - b3 && e3 - b3 <= 2) || e3 != slen {
        return None;
    }
    let h = run_value_2(s, 0, e1);
    let m = run_value_2(s, b2, e2);
    let sec = run_value_2(s, b3, e3);
    if h <= 23 && m <= 59 && sec <= 59 {
        Some(Hms { hours: h, minutes: m, seconds: sec })
    } else {
        None
    }
}

/// Reads a time-of-day argument; returns exactly what the grammar denotes.
pub fn parse_clock_12h(s: &str) -> (r: Option<ClockTime12>)
    ensures
        r == clock12_spec(s@),
        r matches Some(t) ==> t.wf(),
{
    let slen = s.unicode_len();
    let e1 = digit_run(s, slen, 0);
    proof {
        lemma_digit_run(s@, 0);
    }
    if !(1 <= e1 && e1 <= 2) {
        return None;
    }
    if e1 >= slen || s.get_char(e1) != ':' {
        return None;
    }
    let b2 = e1 + 1;
    let e2 = digit_run(s, slen, b2);
    proof {
        lemma_digit_run(s@, b2 as int);
    }
    if !(1 <= e2 - b2 && e2 - b2 <= 2) {
        return None;
    }
    if e2 >= slen || s.get_char(e2) != ':' {
        return None;
    }
    let b3 = e2 + 1;
    if slen != b3 + 2 {
        return None;
    }
    let mer = s.get_char(b3);
    let am = mer == 'a' || mer == 'A';
    let pm = mer == 'p' || mer == 'P';
    if !(am || pm) {
        return None;
    }
    let tail = s.get_char(b3 + 1);
    if tail != 'm' && tail != 'M' {
        return None;
    }
    let h = run_value_2(s, 0, e1);
    let m = run_value_2(s, b2, e2);
    if 1 <= h && h <= 12 && m <= 59 {
        Some(ClockTime12 { hour: h, minute: m, pm })
    } else {
        None
    }
}

/// A clock value below 60 rendered as exactly two digits.
pub open spec fn pad2(v: int) -> Seq<char> {
    seq![char_of_digit(v / 10), char_of_digit(v % 10)]
}

/// A remaining time of `total` seconds rendered as `H:MM:SS`: hours
/// without padding, minutes and seconds zero-padded to two digits.
pub open spec fn hms_chars(total: nat) -> Seq<char> {
    dec_chars(total / 3600) + seq![':'] + pad2(((total % 3600) / 60) as int) + seq![':'] + pad2(
        (total % 60) as int,
    )
}

/// Renders a remaining time in seconds for the status line.
pub fn format_hms(total_secs: u64) -> (r: String)
    ensures
        r@ == hms_chars(total_secs as nat),
{
    let h: u64 = total_secs / 3600;
    let m: u64 = (total_secs % 3600) / 60;
    let sec: u64 = total_secs % 60;
    let mut out = String::new();
    push_decimal(&mut out, h);
    proof {
        reveal_strlit(":");
    }
    out.append(":");
    out.append(digit_str(m / 10));
    out.append(digit_str(m % 10));
    out.append(":");
    out.append(digit_str(sec / 10));
    out.append(digit_str(sec % 10));
    proof {
        assert(out@ =~= hms_chars(total_secs as nat));
    }
    out
}

/// A run that is over but for less than a second renders as the zero
/// countdown: the last value the status line shows before a duration
/// run stops.
pub proof fn lemma_zero_render()
    ensures
        hms_chars(0) == "0:00:00"@,
{
    reveal_strlit("0:00:00");
    assert(hms_chars(0) =~= "0:00:00"@);
}

} // verus!
