//! Parsers for the textual output of the apt tooling: the upgradable-package
//! listing, the "N upgraded, ..." summary line, and the "Need to get ..."
//! download-size line. Each parser carries an exact specification of the
//! pattern it recognises.
use vstd::prelude::*;
use vstd::string::StrSliceExecFns;

use crate::scan::contains_char;
use crate::scan::contains_seq;
use crate::scan::contains_str;
use crate::scan::digit_char_val;
use crate::scan::digit_run_end;
use crate::scan::digits_value;
use crate::scan::is_digit_char;
use crate::scan::lemma_digit_run_end_bounds;
use crate::scan::lemma_digits_value_prefix_le;
use crate::scan::lemma_seek_char_bounds;
use crate::scan::matches_at;
use crate::scan::matches_pat_at;
use crate::scan::parse_digits_u64;
use crate::scan::scan_digit_run;
use crate::scan::scan_space_run;
use crate::scan::scan_to_char;
use crate::scan::seek_char;
use crate::scan::space_run_end;

verus! {

/// Why a count could not be read out of apt's output.
#[derive(Clone, Copy, Debug, PartialEq, Eq, Structural)]
pub enum AptParseError {
    /// The matched number is not a well-formed decimal.
    Malformed,
    /// The matched number does not fit in 64 bits.
    TooLarge,
}

// ---------------------------------------------------------------------------
// Upgradable-package count: skip the first (header) line, and count the
// remaining lines that contain both a '/' and the word "upgradable".
// ---------------------------------------------------------------------------
/// A line of the `list --upgradable` output that names an upgradable package.
pub open spec fn line_qualifies(line: Seq<char>) -> bool {
    line.contains('/') && contains_seq(line, "upgradable"@)
}

/// How many lines of `s` qualify (all lines, no header skipped here).
pub open spec fn count_qualifying_lines(s: Seq<char>) -> nat
    decreases s.len(),
{
    let e = seek_char(s, '\n', 0);
    let c: nat = if line_qualifies(s.subrange(0, e)) {
        1
    } else {
        0
    };
    if 0 <= e < s.len() {
        c + count_qualifying_lines(s.subrange(e + 1, s.len() as int))
    } else {
        c
    }
}

/// The upgradable count: qualifying lines after the first line.
pub open spec fn spec_upgradable_count(s: Seq<char>) -> nat {
    let e = seek_char(s, '\n', 0);
    if 0 <= e < s.len() {
        count_qualifying_lines(s.subrange(e + 1, s.len() as int))
    } else {
        0
    }
}

/// A qualifying line holds the word "upgradable", so it is never empty, and
/// the count is bounded by the text's length.
pub proof fn lemma_count_le_len(s: Seq<char>)
    ensures
        count_qualifying_lines(s) <= s.len(),
    decreases s.len(),
{
    let e = seek_char(s, '\n', 0);
    lemma_seek_char_bounds(s, '\n', 0);
    if line_qualifies(s.subrange(0, e)) {
        let line = s.subrange(0, e);
        let w = choose|i: int| matches_at(line, "upgradable"@, i);
        proof_strlit_upgradable_len();
        assert(line.len() >= 10);
    }
    if 0 <= e < s.len() {
        lemma_count_le_len(s.subrange(e + 1, s.len() as int));
    }
}

proof fn proof_strlit_upgradable_len()
    ensures
        "upgradable"@.len() == 10,
{
    reveal_strlit("upgradable");
}

/// Count the lines, after the first, that name an upgradable package.
pub fn parse_apt_upgradable_count(output: &str) -> (r: Result<u64, AptParseError>)
    ensures
        r matches Ok(v) && v == spec_upgradable_count(output@),
{
    let n = output.unicode_len();
    let e0 = scan_to_char(output, '\n', 0);
    proof {
        lemma_seek_char_bounds(output@, '\n', 0);
    }
    if e0 == n {
        return Ok(0);
    }
    let ghost tail_start: int = e0 + 1;
    let mut pos: usize = e0 + 1;
    let mut acc: u64 = 0;
    loop
        invariant
            tail_start == seek_char(output@, '\n', 0) + 1,
            0 < tail_start <= pos <= n,
            n == output@.len(),
            acc <= pos,
            spec_upgradable_count(output@) == acc + count_qualifying_lines(
                output@.subrange(pos as int, n as int),
            ),
        decreases n - pos,
    {
        let e = scan_to_char(output, '\n', pos);
        proof {
            lemma_seek_char_bounds(output@, '\n', pos as int);
        }
        let line = output.substring_char(pos, e);
        let q = contains_char(line, '/') && contains_str(line, "upgradable");
        let ghost sub = output@.subrange(pos as int, n as int);
        proof {
            // The loop works on the whole text; relate it to the suffix that
            // the specification recurses on.
            lemma_seek_char_bounds(sub, '\n', 0);
            lemma_seek_char_is(sub, '\n', e - pos);
            assert(sub.subrange(0, e - pos) =~= output@.subrange(pos as int, e as int));
            if (e as int) < n {
                assert(sub.subrange(e - pos + 1, sub.len() as int) =~= output@.subrange(
                    e + 1,
                    n as int,
                ));
            }
            if q {
                lemma_count_le_len(sub);
            }
        }
        if q {
            acc = acc + 1;
        }
        if e == n {
            proof {
                assert(count_qualifying_lines(sub) == (if q {
                    1nat
                } else {
                    0nat
                }));
            }
            return Ok(acc);
        }
        pos = e + 1;
    }
}

proof fn lemma_seek_char_is(s: Seq<char>, c: char, j: int)
    requires
        0 <= j <= s.len(),
        forall|k: int| 0 <= k < j ==> s[k] != c,
        j < s.len() ==> s[j] == c,
    ensures
        seek_char(s, c, 0) == j,
{
    lemma_seek_char_unique(s, c, 0, j);
}

proof fn lemma_seek_char_unique(s: Seq<char>, c: char, i: int, j: int)
    requires
        0 <= i <= j <= s.len(),
        forall|k: int| i <= k < j ==> s[k] != c,
        j < s.len() ==> s[j] == c,
    ensures
        seek_char(s, c, i) == j,
    decreases j - i,
{
    if i < j {
        lemma_seek_char_unique(s, c, i + 1, j);
    }
}

// ---------------------------------------------------------------------------
// Packages-updated count: the first run of digits followed by whitespace and
// the word "upgraded"; absent means zero.
// ---------------------------------------------------------------------------
/// A digit run at `i`, then at least one whitespace, then "upgraded".
pub open spec fn upgraded_match_at(s: Seq<char>, i: int) -> bool {
    let d = digit_run_end(s, i);
    let w = space_run_end(s, d);
    &&& 0 <= i < s.len()
    &&& d > i
    &&& w > d
    &&& matches_at(s, "upgraded"@, w)
}

/// The first position at or after `i` where the pattern matches.
pub open spec fn first_upgraded_match(s: Seq<char>, i: int) -> Option<int>
    decreases s.len() - i,
{
    if !(0 <= i < s.len()) {
        None
    } else if upgraded_match_at(s, i) {
        Some(i)
    } else {
        first_upgraded_match(s, i + 1)
    }
}

/// The number of packages apt reports as upgraded, zero when the summary
/// line is absent.
pub open spec fn spec_packages_updated(s: Seq<char>) -> nat {
    match first_upgraded_match(s, 0) {
        Some(i) => digits_value(s.subrange(i, digit_run_end(s, i))),
        None => 0,
    }
}

proof fn lemma_first_upgraded_from(s: Seq<char>, i: int)
    requires
        0 <= i <= s.len(),
        forall|j: int| 0 <= j < i ==> !upgraded_match_at(s, j),
    ensures
        first_upgraded_match(s, 0) == first_upgraded_match(s, i),
    decreases i,
{
    if i > 0 {
        lemma_first_upgraded_from(s, i - 1);
    }
}

/// Read the packages-updated count from apt's upgrade summary.
pub fn parse_apt_packages_updated(output: &str) -> (r: Result<u64, AptParseError>)
    ensures
        match r {
            Ok(v) => v == spec_packages_updated(output@),
            Err(e) => e == AptParseError::TooLarge && spec_packages_updated(output@)
                > u64::MAX,
        },
{
    let n = output.unicode_len();
    let mut i: usize = 0;
    while i < n
        invariant
            0 <= i <= n,
            n == output@.len(),
            forall|j: int| 0 <= j < i ==> !upgraded_match_at(output@, j),
        decreases n - i,
    {
        let d = scan_digit_run(output, i);
        if d > i {
            let w = scan_space_run(output, d);
            if w > d && matches_pat_at(output, "upgraded", w) {
                proof {
                    lemma_first_upgraded_from(output@, i as int);
                    lemma_digit_run_end_bounds(output@, i as int);
                }
                return match parse_digits_u64(output, i, d) {
                    Some(v) => Ok(v),
                    None => Err(AptParseError::TooLarge),
                };
            }
        }
        i = i + 1;
    }
    proof {
        lemma_first_upgraded_from(output@, n as int);
    }
    Ok(0)
}

// ---------------------------------------------------------------------------
// Bytes downloaded: the first "Need to get <number><unit> of archives" style
// occurrence, with decimal multipliers for kB / MB / GB, commas stripped as
// thousands separators, and the fractional part scaled then truncated.
// ---------------------------------------------------------------------------
/// A character that can appear in the size number: digits, the decimal
/// point, and the comma used as a thousands separator.
pub open spec fn is_number_char(c: char) -> bool {
    is_digit_char(c) || c == '.' || c == ','
}

/// End of the run of number characters that starts at `i`.
pub open spec fn number_run_end(s: Seq<char>, i: int) -> int
    decreases s.len() - i,
{
    if 0 <= i < s.len() && is_number_char(s[i]) {
        number_run_end(s, i + 1)
    } else {
        i
    }
}

pub proof fn lemma_number_run_end_bounds(s: Seq<char>, i: int)
    requires
        0 <= i <= s.len(),
    ensures
        i <= number_run_end(s, i) <= s.len(),
        forall|k: int| i <= k < number_run_end(s, i) ==> is_number_char(s[k]),
        number_run_end(s, i) < s.len() ==> !is_number_char(s[number_run_end(s, i)]),
    decreases s.len() - i,
{
    if 0 <= i < s.len() && is_number_char(s[i]) {
        lemma_number_run_end_bounds(s, i + 1);
    }
}

/// Is the character at position `j` a number character?
fn is_number_at(s: &str, j: usize) -> (r: bool)
    requires
        j < s@.len(),
    ensures
        r == is_number_char(s@[j as int]),
{
    let c = s.get_char(j);
    ('0' <= c && c <= '9') || c == '.' || c == ','
}

/// Scan the run of number characters that starts at `from`.
fn scan_number_run(s: &str, from: usize) -> (r: usize)
    requires
        from <= s@.len(),
    ensures
        r == number_run_end(s@, from as int),
        from <= r <= s@.len(),
{
    let n = s.unicode_len();
    let mut j: usize = from;
    while j < n && is_number_at(s, j)
        invariant
            from <= j <= n,
            n == s@.len(),
            number_run_end(s@, from as int) == number_run_end(s@, j as int),
        decreases n - j,
    {
        j = j + 1;
    }
    j
}

/// The decimal exponent of the unit that stands at position `u`: none when
/// no unit stands there, 0 for a bare `B`, 3 / 6 / 9 for `kB` / `MB` / `GB`.
pub open spec fn unit_exp_at(s: Seq<char>, u: int) -> Option<nat> {
    if 0 <= u < s.len() && s[u] == 'B' {
        Some(0 as nat)
    } else if 0 <= u && u + 1 < s.len() && (s[u] == 'k' || s[u] == 'M' || s[u] == 'G') && s[u
        + 1] == 'B' {
        if s[u] == 'k' {
            Some(3 as nat)
        } else if s[u] == 'M' {
            Some(6 as nat)
        } else {
            Some(9 as nat)
        }
    } else {
        None
    }
}

/// The download-size pattern matches at `i`: the literal lead-in, then at
/// least one number character, then optional whitespace, then a unit.
pub open spec fn bytes_match_at(s: Seq<char>, i: int) -> bool {
    let n0 = i + "Need to get "@.len();
    let e = number_run_end(s, n0);
    let u = space_run_end(s, e);
    &&& matches_at(s, "Need to get "@, i)
    &&& e > n0
    &&& unit_exp_at(s, u) is Some
}

/// The first position at or after `i` where the download-size pattern
/// matches.
pub open spec fn first_bytes_match(s: Seq<char>, i: int) -> Option<int>
    decreases s.len() - i,
{
    if !(0 <= i < s.len()) {
        None
    } else if bytes_match_at(s, i) {
        Some(i)
    } else {
        first_bytes_match(s, i + 1)
    }
}

/// The size number with its thousands separators removed.
pub open spec fn strip_commas(s: Seq<char>) -> Seq<char>
    decreases s.len(),
{
    if s.len() == 0 {
        Seq::empty()
    } else {
        let t = strip_commas(s.drop_last());
        if s.last() == ',' {
            t
        } else {
            t.push(s.last())
        }
    }
}

/// Powers of ten.
pub open spec fn pow10(m: nat) -> nat
    decreases m,
{
    if m == 0 {
        1
    } else {
        10 * pow10((m - 1) as nat)
    }
}

pub proof fn lemma_pow10_pos(m: nat)
    ensures
        pow10(m) >= 1,
    decreases m,
{
    if m > 0 {
        lemma_pow10_pos((m - 1) as nat);
    }
}

pub proof fn lemma_pow10_adds(a: nat, b: nat)
    ensures
        pow10(a) * pow10(b) == pow10(a + b),
    decreases a,
{
    if a > 0 {
        lemma_pow10_adds((a - 1) as nat, b);
        assert(pow10(a) == 10 * pow10((a - 1) as nat));
        assert(pow10(a + b) == 10 * pow10((a + b - 1) as nat));
        assert((a + b - 1) as nat == (a - 1) as nat + b);
        assert(pow10(a) * pow10(b) == pow10(a + b)) by (nonlinear_arith)
            requires
                pow10(a) == 10 * pow10((a - 1) as nat),
                pow10(a + b) == 10 * pow10((a - 1) as nat + b),
                pow10((a - 1) as nat) * pow10(b) == pow10((a - 1) as nat + b),
        ;
    } else {
        assert(pow10(a) == 1);
        assert(pow10(a) * pow10(b) == 1 * pow10(b));
        assert(1 * pow10(b) == pow10(b));
    }
}

/// A string of `n` digits is worth less than ten to the `n`.
pub proof fn lemma_digits_value_lt_pow10(s: Seq<char>)
    ensures
        digits_value(s) < pow10(s.len()),
    decreases s.len(),
{
    if s.len() > 0 {
        lemma_digits_value_lt_pow10(s.drop_last());
    }
}

/// A well-formed size number, after comma stripping: non-empty, at most one
/// decimal point, and at least one digit around it.
pub open spec fn number_valid(t: Seq<char>) -> bool {
    let d = seek_char(t, '.', 0);
    &&& t.len() > 0
    &&& forall|k: int| d < k < t.len() ==> t[k] != '.'
    &&& (d == t.len() || d > 0 || d + 1 < t.len())
}

/// How many bytes a number of the form `<digits>[.<digits>]`, scaled by ten
/// to the `m`, stands for, with the fractional remainder truncated.
pub open spec fn number_scaled(t: Seq<char>, m: nat) -> nat {
    let d = seek_char(t, '.', 0);
    let intpart = t.subrange(0, d);
    let frac = if d < t.len() {
        t.subrange(d + 1, t.len() as int)
    } else {
        Seq::<char>::empty()
    };
    digits_value(intpart) * pow10(m) + frac_scaled(frac, m)
}

/// The whole-byte part contributed by the fractional digits.
pub open spec fn frac_scaled(f: Seq<char>, m: nat) -> nat {
    if f.len() >= m {
        digits_value(f.take(m as int))
    } else {
        digits_value(f) * pow10((m - f.len()) as nat)
    }
}

/// The download size that apt's output reports, in bytes: zero when the
/// pattern is absent, an error when the matched number is malformed.
pub open spec fn spec_bytes_downloaded(s: Seq<char>) -> Result<nat, AptParseError> {
    match first_bytes_match(s, 0) {
        None => Ok(0 as nat),
        Some(i) => {
            let n0 = i + "Need to get "@.len();
            let e = number_run_end(s, n0);
            let u = space_run_end(s, e);
            match unit_exp_at(s, u) {
                Some(m) => {
                    let t = strip_commas(s.subrange(n0, e));
                    if number_valid(t) {
                        Ok(number_scaled(t, m))
                    } else {
                        Err(AptParseError::Malformed)
                    }
                },
                None => Ok(0 as nat),
            }
        },
    }
}

proof fn lemma_first_bytes_from(s: Seq<char>, i: int)
    requires
        0 <= i <= s.len(),
        forall|j: int| 0 <= j < i ==> !bytes_match_at(s, j),
    ensures
        first_bytes_match(s, 0) == first_bytes_match(s, i),
    decreases i,
{
    if i > 0 {
        lemma_first_bytes_from(s, i - 1);
    }
}

proof fn lemma_need_to_get_len()
    ensures
        "Need to get "@.len() == 12,
{
    reveal_strlit("Need to get ");
}

/// Check the download-size pattern at `i`; hand back the end of the number
/// run and the unit's decimal exponent.
fn bytes_match_info(s: &str, i: usize) -> (r: Option<(usize, u32)>)
    requires
        i <= s@.len(),
    ensures
        r is Some <==> bytes_match_at(s@, i as int),
        r matches Some((e, m)) ==> {
            let n0 = i + "Need to get "@.len();
            &&& e == number_run_end(s@, n0)
            &&& i + 12 < e <= s@.len()
            &&& unit_exp_at(s@, space_run_end(s@, e as int)) == Some(m as nat)
        },
{
    proof {
        lemma_need_to_get_len();
    }
    if !matches_pat_at(s, "Need to get ", i) {
        return None;
    }
    let n = s.unicode_len();
    let n0 = i + 12;
    let e = scan_number_run(s, n0);
    if e == n0 {
        return None;
    }
    let u = scan_space_run(s, e);
    if u < n {
        let c = s.get_char(u);
        if c == 'B' {
            return Some((e, 0));
        }
        if (c == 'k' || c == 'M' || c == 'G') && u + 1 < n {
            if s.get_char(u + 1) == 'B' {
                if c == 'k' {
                    return Some((e, 3));
                }
                if c == 'M' {
                    return Some((e, 6));
                }
                return Some((e, 9));
            }
        }
    }
    None
}

/// Seek the first occurrence of `c` at or after `from`.
fn vec_seek_char(v: &Vec<char>, c: char, from: usize) -> (r: usize)
    requires
        from <= v@.len(),
    ensures
        r == seek_char(v@, c, from as int),
        from <= r <= v@.len(),
{
    let mut j: usize = from;
    let n = v.len();
    while j < n && *vec_ref(v, j) != c
        invariant
            from <= j <= n,
            n == v@.len(),
            seek_char(v@, c, from as int) == seek_char(v@, c, j as int),
        decreases n - j,
    {
        j = j + 1;
    }
    j
}

/// Borrow the element at `j`.
fn vec_ref<T>(v: &Vec<T>, j: usize) -> (r: &T)
    requires
        j < v@.len(),
    ensures
        *r == v@[j as int],
{
    &v[j]
}

/// Read the digits in `v[from..to)` as a base-ten number, if it fits.
fn parse_digits_chars(v: &Vec<char>, from: usize, to: usize) -> (r: Option<u64>)
    requires
        from <= to <= v@.len(),
        forall|k: int| from <= k < to ==> is_digit_char(v@[k]),
    ensures
        match r {
            Some(x) => x == digits_value(v@.subrange(from as int, to as int)),
            None => digits_value(v@.subrange(from as int, to as int)) > u64::MAX,
        },
{
    let mut acc: u64 = 0;
    let mut k: usize = from;
    while k < to
        invariant
            from <= k <= to <= v@.len(),
            forall|j: int| from <= j < to ==> is_digit_char(v@[j]),
            acc == digits_value(v@.subrange(from as int, k as int)),
        decreases to - k,
    {
        let c = *vec_ref(v, k);
        let d: u64 = (c as u32 as u64) - 48;
        assert(d == digit_char_val(v@[k as int]));
        let next = match acc.checked_mul(10) {
            Some(t) => t.checked_add(d),
            None => None,
        };
        proof {
            assert(v@.subrange(from as int, k + 1).drop_last() =~= v@.subrange(
                from as int,
                k as int,
            ));
        }
        match next {
            Some(x) => {
                acc = x;
            },
            None => {
                proof {
                    let full = v@.subrange(from as int, to as int);
                    assert(full.take(k + 1 - from) =~= v@.subrange(from as int, k + 1));
                    lemma_digits_value_prefix_le(full, k + 1 - from);
                }
                return None;
            },
        }
        k = k + 1;
    }
    Some(acc)
}

/// Ten to the `m`, for small `m`.
fn pow10_u64(m: u32) -> (r: u64)
    requires
        m <= 9,
    ensures
        r == pow10(m as nat),
{
    proof {
        lemma_pow10_small();
    }
    let mut pm: u64 = 1;
    let mut j: u32 = 0;
    while j < m
        invariant
            0 <= j <= m <= 9,
            pm == pow10(j as nat),
        decreases m - j,
    {
        proof {
            lemma_pow10_small();
            lemma_pow10_mono(j as nat + 1, 9);
        }
        pm = pm * 10;
        j = j + 1;
    }
    pm
}

pub proof fn lemma_pow10_small()
    ensures
        pow10(0) == 1,
        pow10(1) == 10,
        pow10(2) == 100,
        pow10(3) == 1000,
        pow10(4) == 10000,
        pow10(5) == 100000,
        pow10(6) == 1000000,
        pow10(7) == 10000000,
        pow10(8) == 100000000,
        pow10(9) == 1000000000,
{
    assert(pow10(0) == 1);
    assert(pow10(1) == 10);
    assert(pow10(2) == 100);
    assert(pow10(3) == 1000);
    assert(pow10(4) == 10000);
    assert(pow10(5) == 100000);
    assert(pow10(6) == 1000000);
    assert(pow10(7) == 10000000);
    assert(pow10(8) == 100000000);
    assert(pow10(9) == 1000000000);
}

pub proof fn lemma_pow10_mono(a: nat, b: nat)
    requires
        a <= b,
    ensures
        pow10(a) <= pow10(b),
    decreases b,
{
    if a < b {
        lemma_pow10_mono(a, (b - 1) as nat);
        lemma_pow10_pos((b - 1) as nat);
    }
}

/// Read the download size out of apt's upgrade output.
pub fn parse_apt_bytes_downloaded(output: &str) -> (r: Result<u64, AptParseError>)
    ensures
        match spec_bytes_downloaded(output@) {
            Ok(v) => if v <= u64::MAX {
                r matches Ok(x) && x == v
            } else {
                r matches Err(e) && e == AptParseError::TooLarge
            },
            Err(e) => r matches Err(x) && x == e,
        },
{
    let n = output.unicode_len();
    let mut i: usize = 0;
    while i < n
        invariant
            0 <= i <= n,
            n == output@.len(),
            forall|j: int| 0 <= j < i ==> !bytes_match_at(output@, j),
        decreases n - i,
    {
        if let Some((e, m)) = bytes_match_info(output, i) {
            proof {
                lemma_first_bytes_from(output@, i as int);
                lemma_need_to_get_len();
            }
            return parse_matched_size(output, i, e, m);
        }
        i = i + 1;
    }
    proof {
        lemma_first_bytes_from(output@, n as int);
    }
    Ok(0)
}

/// Turn the matched size number into bytes.
fn parse_matched_size(output: &str, i: usize, e: usize, m: u32) -> (r: Result<
    u64,
    AptParseError,
>)
    requires
        bytes_match_at(output@, i as int),
        first_bytes_match(output@, 0) == Some(i as int),
        e == number_run_end(output@, i + "Need to get "@.len()),
        i + 12 < e <= output@.len(),
        "Need to get "@.len() == 12,
        unit_exp_at(output@, space_run_end(output@, e as int)) == Some(m as nat),
        m <= 9,
    ensures
        match spec_bytes_downloaded(output@) {
            Ok(v) => if v <= u64::MAX {
                r matches Ok(x) && x == v
            } else {
                r matches Err(x) && x == AptParseError::TooLarge
            },
            Err(x) => r matches Err(y) && y == x,
        },
{
    let n0 = i + 12;
    proof {
        lemma_number_run_end_bounds(output@, n0 as int);
    }
    // Strip the thousands separators.
    let mut v: Vec<char> = Vec::new();
    let mut k: usize = n0;
    while k < e
        invariant
            n0 == i + 12,
            n0 <= k <= e <= output@.len(),
            forall|j: int| n0 <= j < e ==> is_number_char(output@[j]),
            v@ == strip_commas(output@.subrange(n0 as int, k as int)),
            v@.len() <= k - n0,
            forall|j: int|
                0 <= j < v@.len() ==> (is_digit_char(v@[j]) || v@[j] == '.'),
        decreases e - k,
    {
        let c = output.get_char(k);
        proof {
            assert(output@.subrange(n0 as int, k + 1).drop_last() =~= output@.subrange(
                n0 as int,
                k as int,
            ));
        }
        if c != ',' {
            v.push(c);
        }
        k = k + 1;
    }
    let ghost t = strip_commas(output@.subrange(n0 as int, e as int));
    proof {
        assert(v@ == t);
        assert(t == strip_commas(
            output@.subrange(i + "Need to get "@.len(), e as int),
        ));
    }
    let d = vec_seek_char(&v, '.', 0);
    proof {
        lemma_seek_char_bounds(v@, '.', 0);
    }
    let len = v.len();
    if len == 0 {
        assert(!number_valid(t));
        return Err(AptParseError::Malformed);
    }
    // Refuse a second decimal point.
    let d2 = vec_seek_char(&v, '.', if d < len {
        d + 1
    } else {
        len
    });
    proof {
        lemma_seek_char_bounds(v@, '.', if d < len {
            d + 1
        } else {
            len as int
        });
    }
    if d2 < len {
        assert(!number_valid(t)) by {
            assert(t[d2 as int] == '.');
        }
        return Err(AptParseError::Malformed);
    }
    assert(forall|j: int| d < j < t.len() ==> t[j] != '.');
    // At least one digit must stand around the decimal point.
    if d == 0 && d + 1 == len {
        assert(!number_valid(t));
        return Err(AptParseError::Malformed);
    }
    assert(number_valid(t));
    let ghost dspec: int = seek_char(t, '.', 0);
    assert(dspec == d as int);
    // Whole part.
    let intv = match parse_digits_chars(&v, 0, d) {
        Some(x) => x,
        None => {
            proof {
                lemma_intpart_overflow(t, m as nat);
            }
            return Err(AptParseError::TooLarge);
        },
    };
    assert(intv == digits_value(t.subrange(0, dspec)));
    let mult = pow10_u64(m);
    // Fractional part: the first `m` digits after the point, padded with
    // zeros on the right.
    let fl: usize = if d < len {
        len - d - 1
    } else {
        0
    };
    let taken: usize = if fl < m as usize {
        fl
    } else {
        m as usize
    };
    let ffrom: usize = if d < len {
        d + 1
    } else {
        len
    };
    let fto: usize = ffrom + taken;
    proof {
        if d < len {
            assert(frac_seq(t).take(taken as int) =~= t.subrange(
                ffrom as int,
                fto as int,
            ));
        } else {
            assert(frac_seq(t).take(taken as int) =~= t.subrange(
                ffrom as int,
                fto as int,
            ));
        }
    }
    let facc = match parse_digits_chars(&v, ffrom, fto) {
        Some(x) => x,
        None => {
            proof {
                let f = frac_seq(t);
                lemma_digits_value_lt_pow10(f.take(taken as int));
                lemma_pow10_small();
                lemma_pow10_mono((fto - ffrom) as nat, 9);
                assert(false);
            }
            return Err(AptParseError::Malformed);
        },
    };
    assert(facc == digits_value(frac_seq(t).take(taken as int)));
    let pad = pow10_u64(m - taken as u32);
    proof {
        lemma_frac_fits(t, m as nat, taken as nat);
        lemma_scaled_value(t, m as nat, taken as nat);
    }
    let scaled = facc * pad;
    assert(scaled == frac_scaled(frac_seq(t), m as nat));
    let total = match intv.checked_mul(mult) {
        Some(x) => x.checked_add(scaled),
        None => None,
    };
    match total {
        Some(x) => {
            assert(x == number_scaled(t, m as nat));
            Ok(x)
        },
        None => {
            proof {
                lemma_pow10_pos(m as nat);
                assert(number_scaled(t, m as nat) > u64::MAX);
            }
            Err(AptParseError::TooLarge)
        },
    }
}

/// The fractional digits of a stripped number.
pub open spec fn frac_seq(t: Seq<char>) -> Seq<char> {
    let d = seek_char(t, '.', 0);
    if d < t.len() {
        t.subrange(d + 1, t.len() as int)
    } else {
        Seq::<char>::empty()
    }
}

/// When the whole part alone exceeds 64 bits, so does the scaled number.
proof fn lemma_intpart_overflow(t: Seq<char>, m: nat)
    requires
        digits_value(t.subrange(0, seek_char(t, '.', 0))) > u64::MAX,
    ensures
        number_scaled(t, m) > u64::MAX,
{
    let iv = digits_value(t.subrange(0, seek_char(t, '.', 0)));
    lemma_pow10_pos(m);
    assert(iv * pow10(m) >= iv * 1) by (nonlinear_arith)
        requires
            pow10(m) >= 1,
            iv >= 0,
    ;
}

/// The scaled fractional contribution stays under ten to the `m`.
proof fn lemma_frac_fits(t: Seq<char>, m: nat, taken: nat)
    requires
        m <= 9,
        taken == if frac_seq(t).len() < m {
            frac_seq(t).len()
        } else {
            m
        },
    ensures
        digits_value(frac_seq(t).take(taken as int)) * pow10((m - taken) as nat) < pow10(m),
        digits_value(frac_seq(t).take(taken as int)) * pow10((m - taken) as nat) <= u64::MAX,
        frac_seq(t).take(taken as int).len() == taken,
{
    let f = frac_seq(t);
    let fv = digits_value(f.take(taken as int));
    lemma_digits_value_lt_pow10(f.take(taken as int));
    lemma_pow10_pos((m - taken) as nat);
    lemma_pow10_adds(taken, (m - taken) as nat);
    assert(fv * pow10((m - taken) as nat) < pow10(taken) * pow10((m - taken) as nat))
        by (nonlinear_arith)
        requires
            fv < pow10(taken),
            pow10((m - taken) as nat) >= 1,
    ;
    lemma_pow10_small();
    lemma_pow10_mono(m, 9);
}

/// The computed fractional contribution equals the specification's.
proof fn lemma_scaled_value(t: Seq<char>, m: nat, taken: nat)
    requires
        taken == if frac_seq(t).len() < m {
            frac_seq(t).len()
        } else {
            m
        },
    ensures
        frac_scaled(frac_seq(t), m) == digits_value(frac_seq(t).take(taken as int)) * pow10(
            (m - taken) as nat,
        ),
{
    let f = frac_seq(t);
    if f.len() >= m {
        assert(taken == m);
        assert(pow10((m - taken) as nat) == 1);
        assert(digits_value(f.take(taken as int)) * 1 == digits_value(f.take(taken as int)));
        assert(frac_scaled(f, m) == digits_value(f.take(m as int)));
    } else {
        assert(taken == f.len());
        assert(f.take(taken as int) =~= f);
        assert(frac_scaled(f, m) == digits_value(f) * pow10((m - f.len()) as nat));
    }
}

} // verus!
