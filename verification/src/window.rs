//! The maintenance-window gate: a pure predicate over the local clock time,
//! with wrap-around across midnight, and a fail-open reading of the
//! configured `HH:MM` bounds — an absent or unparsable bound never blocks
//! updates.
use vstd::prelude::*;
use vstd::string::StrSliceExecFns;

use crate::apt::lemma_digits_value_lt_pow10;
use crate::apt::lemma_pow10_small;
use crate::scan::digits_value;
use crate::scan::is_digit_char;
use crate::scan::lemma_digit_run_end_bounds;
use crate::scan::lemma_seek_char_bounds;
use crate::scan::parse_digits_u64;
use crate::scan::scan_digit_run;
use crate::scan::scan_to_char;
use crate::scan::seek_char;

verus! {

/// A clock time of the form `H:MM` or `HH:MM`, as minutes since midnight;
/// nothing for anything else.
pub open spec fn spec_parse_clock(s: Seq<char>) -> Option<nat> {
    let c = seek_char(s, ':', 0);
    if 1 <= c <= 2 && c < s.len() && s.len() - c - 1 >= 1 && s.len() - c - 1 <= 2 && (forall|
        k: int,
    | 0 <= k < c ==> is_digit_char(s[k])) && (forall|k: int|
        c < k < s.len() ==> is_digit_char(s[k])) {
        let h = digits_value(s.subrange(0, c));
        let mn = digits_value(s.subrange(c + 1, s.len() as int));
        if h <= 23 && mn <= 59 {
            Some((h * 60 + mn) as nat)
        } else {
            None
        }
    } else {
        None
    }
}

/// Read a window bound; minutes since midnight.
pub fn parse_clock_time(s: &str) -> (r: Option<u16>)
    ensures
        match r {
            Some(v) => spec_parse_clock(s@) == Some(v as nat) && v < 1440,
            None => spec_parse_clock(s@) is None,
        },
{
    let n = s.unicode_len();
    let c = scan_to_char(s, ':', 0);
    proof {
        lemma_seek_char_bounds(s@, ':', 0);
    }
    if c < 1 || c > 2 || c >= n {
        return None;
    }
    if n - c - 1 < 1 || n - c - 1 > 2 {
        return None;
    }
    let dh = scan_digit_run(s, 0);
    proof {
        lemma_digit_run_end_bounds(s@, 0);
    }
    if dh < c {
        return None;
    }
    let dm = scan_digit_run(s, c + 1);
    proof {
        lemma_digit_run_end_bounds(s@, c + 1);
    }
    if dm < n {
        return None;
    }
    proof {
        lemma_digits_value_lt_pow10(s@.subrange(0, c as int));
        lemma_digits_value_lt_pow10(s@.subrange(c + 1, n as int));
        lemma_pow10_small();
    }
    let h = match parse_digits_u64(s, 0, c) {
        Some(x) => x,
        None => {
            proof {
                assert(false);
            }
            return None;
        },
    };
    let mn = match parse_digits_u64(s, c + 1, n) {
        Some(x) => x,
        None => {
            proof {
                assert(false);
            }
            return None;
        },
    };
    if h <= 23 && mn <= 59 {
        Some((h * 60 + mn) as u16)
    } else {
        None
    }
}

/// Is `now` inside the closed window `[start, end]`? A window whose start
/// lies after its end crosses midnight and is the union of `[start, 24:00)`
/// and `[00:00, end]`. All three are in seconds of the day.
pub open spec fn spec_in_window(now_s: nat, start_s: nat, end_s: nat) -> bool {
    if start_s <= end_s {
        start_s <= now_s && now_s <= end_s
    } else {
        now_s >= start_s || now_s <= end_s
    }
}

/// The window check on executable values; the bounds are in minutes since
/// midnight, the current time in seconds.
pub fn in_window(now_seconds: u32, start_minutes: u16, end_minutes: u16) -> (r: bool)
    ensures
        r == spec_in_window(
            now_seconds as nat,
            start_minutes as nat * 60,
            end_minutes as nat * 60,
        ),
{
    let start_s: u32 = start_minutes as u32 * 60;
    let end_s: u32 = end_minutes as u32 * 60;
    if start_s <= end_s {
        start_s <= now_seconds && now_seconds <= end_s
    } else {
        now_seconds >= start_s || now_seconds <= end_s
    }
}

/// The view of an optional owned string.
pub open spec fn opt_str_view(o: Option<String>) -> Option<Seq<char>> {
    match o {
        Some(s) => Some(s@),
        None => None,
    }
}

/// Whether updates may run at `now_s`, given the configured window bounds.
/// Fail-open: no window, or an unparsable bound, allows updates.
pub open spec fn spec_maintenance_allows(
    start: Option<Seq<char>>,
    end: Option<Seq<char>>,
    now_s: nat,
) -> bool {
    match (start, end) {
        (Some(ss), Some(es)) => match (spec_parse_clock(ss), spec_parse_clock(es)) {
            (Some(sm), Some(em)) => spec_in_window(now_s, sm * 60, em * 60),
            _ => true,
        },
        _ => true,
    }
}

/// Evaluate the maintenance gate against the current local time.
pub fn maintenance_allows(start: &Option<String>, end: &Option<String>, now_seconds: u32) -> (r:
    bool)
    ensures
        r == spec_maintenance_allows(opt_str_view(*start), opt_str_view(*end), now_seconds as nat),
{
    let start_str = match start {
        Some(s) => s,
        None => {
            return true;
        },
    };
    let end_str = match end {
        Some(s) => s,
        None => {
            return true;
        },
    };
    let sm = match parse_clock_time(start_str.as_str()) {
        Some(v) => v,
        None => {
            return true;
        },
    };
    let em = match parse_clock_time(end_str.as_str()) {
        Some(v) => v,
        None => {
            return true;
        },
    };
    in_window(now_seconds, sm, em)
}

} // verus!
