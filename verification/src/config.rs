//! The two numeric settings and their settings-file text.
//!
//! The settings file holds one object with two unsigned fields: the
//! quiet-window length and the injected key's hold time, both in
//! milliseconds. The file format is fixed here as a spec-level grammar
//! ([`config_spec`]): one object holding exactly the two keys, in
//! either order, unsigned decimal values, and whitespace allowed
//! between tokens; an object with other members does not parse.
//! Rendering is canonical — the pretty form, quiet-window key first —
//! and parsing a rendered value is proved to give the value back
//! ([`lemma_config_round_trip`]).
//!
//! Reading, writing and deleting the file itself is the unverified
//! shell's work; [`Config::resolve_loaded`] decides from the file's
//! contents what the shell must do: use the values, self-heal a corrupt
//! file by removing it and falling back to the defaults, or create a
//! fresh file with the defaults.

use vstd::prelude::*;
use crate::text::{dec_chars, is_digit, num_val, push_decimal};
use crate::timefmt::digit_run_end;
use vstd::string::StringExecFns;
use vstd::string::StrSliceExecFns;

verus! {

/// The externally supplied settings, immutable for the process lifetime.
#[derive(Clone, Copy, PartialEq, Eq, Structural, Debug)]
pub struct Config {
    /// How long injection stays suppressed after user activity, in ms.
    pub user_input_wait_time_ms: u64,
    /// How long the synthetic key is held down, in ms.
    pub key_press_time_ms: u64,
}

/// The default settings: a sixty-second quiet window and a tenth of a
/// second of key hold.
pub open spec fn spec_default_config() -> Config {
    Config { user_input_wait_time_ms: 60000, key_press_time_ms: 100 }
}

impl Default for Config {
    fn default() -> (c: Config)
        ensures
            c == spec_default_config(),
    {
        Config { user_input_wait_time_ms: 60000, key_press_time_ms: 100 }
    }
}

/// What the unverified shell must do with the settings file after a load.
#[derive(Clone, Copy, PartialEq, Eq, Structural, Debug)]
pub enum LoadOutcome {
    /// No file was present: write a fresh file with the defaults.
    CreatedNew,
    /// The file's values (or, for an empty file, the defaults) are in use.
    UsedFile,
    /// The file was corrupt: remove it and use the defaults.
    RemovedCorrupt,
}

/// Whether `c` is blank space between tokens of the settings file.
pub open spec fn is_ws(c: char) -> bool {
    c == ' ' || c == '\t' || c == '\n' || c == '\r'
}

/// The first position at or after `i` that does not hold whitespace.
pub open spec fn skip_ws_end(s: Seq<char>, i: int) -> int
    decreases s.len() - i,
{
    if i < 0 || i >= s.len() {
        i
    } else if is_ws(s[i]) {
        skip_ws_end(s, i + 1)
    } else {
        i
    }
}

/// Whether the text at position `i` of `s` is exactly `lit`.
pub open spec fn match_at(s: Seq<char>, i: int, lit: Seq<char>) -> bool {
    0 <= i && i + lit.len() <= s.len() && s.subrange(i, i + lit.len()) == lit
}

/// The first field's key, quotes included.
pub open spec fn key_wait_quoted() -> Seq<char> {
    "\"user_input_wait_time_ms\""@
}

/// The second field's key, quotes included.
pub open spec fn key_press_quoted() -> Seq<char> {
    "\"key_press_time_ms\""@
}

/// The two members after the object opened and its first key was read:
/// a colon and a value, a comma, the other key with its colon and
/// value, the closing brace, and nothing but whitespace beyond.
/// `wait_first` says which key came first.
pub open spec fn config_tail(s: Seq<char>, after_key1: int, wait_first: bool) -> Option<Config> {
    let key2 = if wait_first {
        key_press_quoted()
    } else {
        key_wait_quoted()
    };
    let i2 = skip_ws_end(s, after_key1);
    let i3 = skip_ws_end(s, i2 + 1);
    let e1 = digit_run_end(s, i3);
    let i4 = skip_ws_end(s, e1);
    let i5 = skip_ws_end(s, i4 + 1);
    let i6 = skip_ws_end(s, i5 + key2.len());
    let i7 = skip_ws_end(s, i6 + 1);
    let e2 = digit_run_end(s, i7);
    let i8 = skip_ws_end(s, e2);
    if !(i2 < s.len() && s[i2] == ':') {
        None
    } else if !(i3 < e1 && num_val(s.subrange(i3, e1)) <= u64::MAX) {
        None
    } else if !(i4 < s.len() && s[i4] == ',') {
        None
    } else if !match_at(s, i5, key2) {
        None
    } else if !(i6 < s.len() && s[i6] == ':') {
        None
    } else if !(i7 < e2 && num_val(s.subrange(i7, e2)) <= u64::MAX) {
        None
    } else if !(i8 < s.len() && s[i8] == '}') {
        None
    } else if skip_ws_end(s, i8 + 1) != s.len() {
        None
    } else {
        let v1 = num_val(s.subrange(i3, e1)) as u64;
        let v2 = num_val(s.subrange(i7, e2)) as u64;
        if wait_first {
            Some(Config { user_input_wait_time_ms: v1, key_press_time_ms: v2 })
        } else {
            Some(Config { user_input_wait_time_ms: v2, key_press_time_ms: v1 })
        }
    }
}

/// What a settings file denotes: one object holding exactly the two
/// keys, in either order, each value an unsigned decimal that fits the
/// field, whitespace allowed between tokens, nothing but whitespace
/// after the object. An object with other members does not parse.
pub open spec fn config_spec(s: Seq<char>) -> Option<Config> {
    let i0 = skip_ws_end(s, 0);
    let i1 = skip_ws_end(s, i0 + 1);
    if !(i0 < s.len() && s[i0] == '{') {
        None
    } else if match_at(s, i1, key_wait_quoted()) {
        config_tail(s, i1 + key_wait_quoted().len(), true)
    } else if match_at(s, i1, key_press_quoted()) {
        config_tail(s, i1 + key_press_quoted().len(), false)
    } else {
        None
    }
}

/// The canonical settings-file text for `c`: the pretty form, one
/// member per line, the quiet-window key first.
pub open spec fn config_json_chars(c: Config) -> Seq<char> {
    "{\n  \"user_input_wait_time_ms\": "@ + dec_chars(c.user_input_wait_time_ms as nat)
        + ",\n  \"key_press_time_ms\": "@ + dec_chars(c.key_press_time_ms as nat) + "\n}"@
}

/// Scanning stops at once on a non-whitespace character or at the end.
proof fn lemma_skip_ws_stop(s: Seq<char>, i: int)
    requires
        0 <= i <= s.len(),
        i == s.len() || !is_ws(s[i]),
    ensures
        skip_ws_end(s, i) == i,
{
}

/// Scanning steps over one whitespace character.
proof fn lemma_skip_ws_step(s: Seq<char>, i: int)
    requires
        0 <= i < s.len(),
        is_ws(s[i]),
    ensures
        skip_ws_end(s, i) == skip_ws_end(s, i + 1),
{
}

/// A digit is never whitespace.
proof fn lemma_digit_not_ws(c: char)
    requires
        is_digit(c),
    ensures
        !is_ws(c),
{
}

/// Parsing a rendered settings value gives the value back: the settings
/// file round-trips through its canonical text.
pub proof fn lemma_config_round_trip(c: Config)
    ensures
        config_spec(config_json_chars(c)) == Some(c),
{
    reveal_strlit("{\n  \"user_input_wait_time_ms\": ");
    reveal_strlit(",\n  \"key_press_time_ms\": ");
    reveal_strlit("\n}");
    reveal_strlit("\"user_input_wait_time_ms\"");
    reveal_strlit("\"key_press_time_ms\"");
    let p1 = "{\n  \"user_input_wait_time_ms\": "@;
    let d1 = dec_chars(c.user_input_wait_time_ms as nat);
    let p2 = ",\n  \"key_press_time_ms\": "@;
    let d2 = dec_chars(c.key_press_time_ms as nat);
    let p3 = "\n}"@;
    let s = config_json_chars(c);
    crate::text::lemma_dec_chars_digits(c.user_input_wait_time_ms as nat);
    crate::text::lemma_dec_chars_digits(c.key_press_time_ms as nat);
    crate::text::lemma_num_val_dec_chars(c.user_input_wait_time_ms as nat);
    crate::text::lemma_num_val_dec_chars(c.key_press_time_ms as nat);
    let n1 = d1.len() as int;
    let n2 = d2.len() as int;
    assert(p1.len() == 31);
    assert(p2.len() == 25);
    assert(p3.len() == 2);
    assert(s == p1 + d1 + p2 + d2 + p3);
    assert(s.len() == 58 + n1 + n2);
    assert(forall|j: int| 0 <= j < 31 ==> s[j] == p1[j]);
    assert(forall|j: int| 0 <= j < n1 ==> s[31 + j] == d1[j]);
    assert(forall|j: int| 0 <= j < 25 ==> s[31 + n1 + j] == p2[j]);
    assert(forall|j: int| 0 <= j < n2 ==> s[56 + n1 + j] == d2[j]);
    assert(s[56 + n1 + n2] == p3[0]);
    assert(s[57 + n1 + n2] == p3[1]);
    // The object opens at once.
    lemma_skip_ws_stop(s, 0);
    assert(s[0] == '{');
    // The first key follows the line break and the indent.
    lemma_skip_ws_step(s, 1);
    lemma_skip_ws_step(s, 2);
    lemma_skip_ws_step(s, 3);
    lemma_skip_ws_stop(s, 4);
    assert(s.subrange(4, 29) =~= key_wait_quoted());
    assert(match_at(s, 4, key_wait_quoted()));
    lemma_skip_ws_stop(s, 29);
    assert(s[29] == ':');
    // The first value is the canonical digits of the quiet-window field.
    lemma_digit_not_ws(d1[0]);
    lemma_skip_ws_step(s, 30);
    lemma_skip_ws_stop(s, 31);
    crate::timefmt::lemma_digit_run_of_run(s, 31, 31 + n1);
    let e1 = 31 + n1;
    assert(s.subrange(31, e1) =~= d1);
    assert(num_val(s.subrange(31, e1)) == c.user_input_wait_time_ms);
    // The separator, the next line's indent and the second key.
    lemma_skip_ws_stop(s, e1);
    assert(s[e1] == ',');
    lemma_skip_ws_step(s, e1 + 1);
    lemma_skip_ws_step(s, e1 + 2);
    lemma_skip_ws_step(s, e1 + 3);
    lemma_skip_ws_stop(s, e1 + 4);
    assert(s.subrange(e1 + 4, e1 + 23) =~= key_press_quoted());
    assert(match_at(s, e1 + 4, key_press_quoted()));
    lemma_skip_ws_stop(s, e1 + 23);
    assert(s[e1 + 23] == ':');
    // The second value is the canonical digits of the key-hold field.
    lemma_digit_not_ws(d2[0]);
    lemma_skip_ws_step(s, e1 + 24);
    lemma_skip_ws_stop(s, e1 + 25);
    crate::timefmt::lemma_digit_run_of_run(s, e1 + 25, e1 + 25 + n2);
    let e2 = e1 + 25 + n2;
    assert(s.subrange(e1 + 25, e2) =~= d2);
    assert(num_val(s.subrange(e1 + 25, e2)) == c.key_press_time_ms);
    // The object closes on its own line and nothing follows.
    lemma_skip_ws_step(s, e2);
    lemma_skip_ws_stop(s, e2 + 1);
    assert(s[e2 + 1] == '}');
    lemma_skip_ws_stop(s, e2 + 2);
    assert(skip_ws_end(s, e2 + 2) == s.len());
    assert(config_spec(s) == Some(c));
}

/// Whether `c` is blank space between tokens of the settings file.
fn is_ws_char(c: char) -> (r: bool)
    ensures
        r == is_ws(c),
{
    c == ' ' || c == '\t' || c == '\n' || c == '\r'
}

/// Scans past whitespace, starting at `i`.
fn skip_ws(s: &str, slen: usize, i: usize) -> (e: usize)
    requires
        slen as nat == s@.len(),
        i <= slen,
    ensures
        e == skip_ws_end(s@, i as int),
        i <= e <= slen,
{
    let mut j: usize = i;
    loop
        invariant
            slen as nat == s@.len(),
            i <= j <= slen,
            skip_ws_end(s@, i as int) == skip_ws_end(s@, j as int),
        decreases slen - j,
    {
        if j == slen {
            return j;
        }
        let c = s.get_char(j);
        if !is_ws_char(c) {
            return j;
        }
        j = j + 1;
    }
}

/// Compares the text at position `i` of `s` with `lit`.
fn match_lit(s: &str, slen: usize, i: usize, lit: &str) -> (r: bool)
    requires
        slen as nat == s@.len(),
        i <= slen,
    ensures
        r == match_at(s@, i as int, lit@),
{
    let litlen = lit.unicode_len();
    if slen - i < litlen {
        return false;
    }
    let mut j: usize = 0;
    while j < litlen
        invariant
            slen as nat == s@.len(),
            litlen as nat == lit@.len(),
            i + litlen <= slen,
            j <= litlen,
            forall|k: int| 0 <= k < j ==> s@[i + k] == lit@[k],
        decreases litlen - j,
    {
        if s.get_char(i + j) != lit.get_char(j) {
            return false;
        }
        j = j + 1;
    }
    proof {
        assert(s@.subrange(i as int, i + lit@.len()) =~= lit@);
    }
    true
}

/// Reads the run of digits that starts at `from` as an unsigned value;
/// a run whose value does not fit reads as nothing.
fn parse_u64_run(s: &str, slen: usize, from: usize, end: usize) -> (r: Option<u64>)
    requires
        slen as nat == s@.len(),
        from < end <= slen,
        forall|j: int| from <= j < end ==> is_digit(#[trigger] s@[j]),
    ensures
        r == (if num_val(s@.subrange(from as int, end as int)) <= u64::MAX {
            Some(num_val(s@.subrange(from as int, end as int)) as u64)
        } else {
            None::<u64>
        }),
{
    let mut acc: u64 = 0;
    let mut over: bool = false;
    let mut j: usize = from;
    while j < end
        invariant
            slen as nat == s@.len(),
            from <= j <= end <= slen,
            forall|k: int| from <= k < end ==> is_digit(#[trigger] s@[k]),
            !over ==> acc == num_val(s@.subrange(from as int, j as int)),
            over ==> num_val(s@.subrange(from as int, j as int)) > u64::MAX,
        decreases end - j,
    {
        let ghost prefix = s@.subrange(from as int, j as int);
        let c = s.get_char(j);
        let d: u64 = ((c as u32) - ('0' as u32)) as u64;
        proof {
            assert(is_digit(s@[j as int]));
            assert(s@.subrange(from as int, j + 1) =~= prefix.push(c));
            crate::text::lemma_num_val_push(prefix, c);
        }
        if !over {
            let wide: u128 = (acc as u128) * 10 + (d as u128);
            if wide > u64::MAX as u128 {
                over = true;
            } else {
                acc = wide as u64;
            }
        } else {
            proof {
                assert(num_val(prefix.push(c)) == num_val(prefix) * 10 + crate::text::digit_val(c));
                assert(num_val(prefix) * 10 >= num_val(prefix));
            }
        }
        j = j + 1;
    }
    if over {
        None
    } else {
        Some(acc)
    }
}

impl Config {
    /// Renders the canonical settings-file text.
    pub fn to_json(&self) -> (r: String)
        ensures
            r@ == config_json_chars(*self),
    {
        proof {
            reveal_strlit("{\n  \"user_input_wait_time_ms\": ");
            reveal_strlit(",\n  \"key_press_time_ms\": ");
            reveal_strlit("\n}");
        }
        let mut out = String::new();
        out.append("{\n  \"user_input_wait_time_ms\": ");
        push_decimal(&mut out, self.user_input_wait_time_ms);
        out.append(",\n  \"key_press_time_ms\": ");
        push_decimal(&mut out, self.key_press_time_ms);
        out.append("\n}");
        proof {
            assert(out@ =~= config_json_chars(*self));
        }
        out
    }

    /// Reads a settings file; returns exactly what the grammar denotes.
    pub fn from_json(s: &str) -> (r: Option<Config>)
        ensures
            r == config_spec(s@),
    {
        let slen = s.unicode_len();
        let i0 = skip_ws(s, slen, 0);
        if !(i0 < slen) || s.get_char(i0) != '{' {
            return None;
        }
        let i1 = skip_ws(s, slen, i0 + 1);
        proof {
            reveal_strlit("\"user_input_wait_time_ms\"");
            reveal_strlit("\"key_press_time_ms\"");
        }
        let wait_first: bool;
        let key1_len: usize;
        if match_lit(s, slen, i1, "\"user_input_wait_time_ms\"") {
            wait_first = true;
            key1_len = 25;
        } else if match_lit(s, slen, i1, "\"key_press_time_ms\"") {
            wait_first = false;
            key1_len = 19;
        } else {
            return None;
        }
        let i2 = skip_ws(s, slen, i1 + key1_len);
        if !(i2 < slen) || s.get_char(i2) != ':' {
            return None;
        }
        let i3 = skip_ws(s, slen, i2 + 1);
        let e1 = crate::timefmt::digit_run(s, slen, i3);
        proof {
            crate::timefmt::lemma_digit_run(s@, i3 as int);
        }
        if !(i3 < e1) {
            return None;
        }
        let v1 = match parse_u64_run(s, slen, i3, e1) {
            Some(v) => v,
            None => {
                return None;
            },
        };
        let i4 = skip_ws(s, slen, e1);
        if !(i4 < slen) || s.get_char(i4) != ',' {
            return None;
        }
        let i5 = skip_ws(s, slen, i4 + 1);
        let key2_matches = if wait_first {
            match_lit(s, slen, i5, "\"key_press_time_ms\"")
        } else {
            match_lit(s, slen, i5, "\"user_input_wait_time_ms\"")
        };
        if !key2_matches {
            return None;
        }
        let key2_len: usize = if wait_first {
            19
        } else {
            25
        };
        let i6 = skip_ws(s, slen, i5 + key2_len);
        if !(i6 < slen) || s.get_char(i6) != ':' {
            return None;
        }
        let i7 = skip_ws(s, slen, i6 + 1);
        let e2 = crate::timefmt::digit_run(s, slen, i7);
        proof {
            crate::timefmt::lemma_digit_run(s@, i7 as int);
        }
        if !(i7 < e2) {
            return None;
        }
        let v2 = match parse_u64_run(s, slen, i7, e2) {
            Some(v) => v,
            None => {
                return None;
            },
        };
        let i8 = skip_ws(s, slen, e2);
        if !(i8 < slen) || s.get_char(i8) != '}' {
            return None;
        }
        if skip_ws(s, slen, i8 + 1) != slen {
            return None;
        }
        if wait_first {
            Some(Config { user_input_wait_time_ms: v1, key_press_time_ms: v2 })
        } else {
            Some(Config { user_input_wait_time_ms: v2, key_press_time_ms: v1 })
        }
    }

    /// Decides what a load of the settings file amounts to. A missing
    /// file is healed by creating one with the defaults; an empty file
    /// stands for the defaults; a corrupt file is healed by removing it
    /// and falling back to the defaults; anything else supplies its own
    /// two values.
    pub fn resolve_loaded(content: Option<&String>) -> (r: (Config, LoadOutcome))
        ensures
            content is None ==> r == (spec_default_config(), LoadOutcome::CreatedNew),
            content matches Some(s) ==> (s@.len() == 0 ==> r == (
                spec_default_config(),
                LoadOutcome::UsedFile,
            )),
            content matches Some(s) ==> (s@.len() > 0 ==> (config_spec(s@) matches Some(c) ==> r
                == (c, LoadOutcome::UsedFile))),
            content matches Some(s) ==> (s@.len() > 0 && config_spec(s@) is None ==> r == (
                spec_default_config(),
                LoadOutcome::RemovedCorrupt,
            )),
    {
        match content {
            None => (Config::default(), LoadOutcome::CreatedNew),
            Some(text) => {
                if text.as_str().is_empty() {
                    (Config::default(), LoadOutcome::UsedFile)
                } else {
                    match Config::from_json(text.as_str()) {
                        Some(c) => (c, LoadOutcome::UsedFile),
                        None => (Config::default(), LoadOutcome::RemovedCorrupt),
                    }
                }
            },
        }
    }
}

} // verus!
