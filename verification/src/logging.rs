//! The log-level vocabulary. The caller owns the log sinks; the library
//! only says which levels exist and how a configured name maps onto them,
//! ignoring ASCII case and accepting "warning" for the warn level.
use vstd::prelude::*;
use vstd::string::StrSliceExecFns;
use vstd::string::StringExecFns;

verus! {

/// A log verbosity level.
#[derive(Clone, Copy, Debug, PartialEq, Eq, Structural)]
pub enum LogLevel {
    Trace,
    Debug,
    Info,
    Warn,
    Error,
}

/// Two characters that agree up to ASCII case.
pub open spec fn char_eq_ci(a: char, b: char) -> bool {
    ||| a == b
    ||| ('A' <= a && a <= 'Z' && 'a' <= b && b <= 'z' && a as u32 + 32 == b as u32)
    ||| ('A' <= b && b <= 'Z' && 'a' <= a && a <= 'z' && b as u32 + 32 == a as u32)
}

/// Two strings that agree up to ASCII case.
pub open spec fn str_eq_ci(a: Seq<char>, b: Seq<char>) -> bool {
    a.len() == b.len() && forall|i: int| 0 <= i < a.len() ==> char_eq_ci(a[i], b[i])
}

/// The level a configured name stands for, if any.
pub open spec fn spec_parse_log_level(s: Seq<char>) -> Option<LogLevel> {
    if str_eq_ci(s, "trace"@) {
        Some(LogLevel::Trace)
    } else if str_eq_ci(s, "debug"@) {
        Some(LogLevel::Debug)
    } else if str_eq_ci(s, "info"@) {
        Some(LogLevel::Info)
    } else if str_eq_ci(s, "warn"@) || str_eq_ci(s, "warning"@) {
        Some(LogLevel::Warn)
    } else if str_eq_ci(s, "error"@) {
        Some(LogLevel::Error)
    } else {
        None
    }
}

/// Case-insensitive comparison of a string against a pattern.
fn str_ci_eq(a: &str, b: &str) -> (r: bool)
    ensures
        r == str_eq_ci(a@, b@),
{
    let n = a.unicode_len();
    let m = b.unicode_len();
    if n != m {
        return false;
    }
    let mut i: usize = 0;
    while i < n
        invariant
            0 <= i <= n,
            n == a@.len(),
            n == b@.len(),
            forall|j: int| 0 <= j < i ==> char_eq_ci(a@[j], b@[j]),
        decreases n - i,
    {
        let x = a.get_char(i);
        let y = b.get_char(i);
        let eq = x == y || ('A' <= x && x <= 'Z' && 'a' <= y && y <= 'z' && x as u32 + 32 == y
            as u32) || ('A' <= y && y <= 'Z' && 'a' <= x && x <= 'z' && y as u32 + 32 == x as u32);
        if !eq {
            return false;
        }
        i = i + 1;
    }
    true
}

/// Map a configured level name onto a level; the message names the rejected
/// input.
pub fn parse_log_level(level: &str) -> (r: Result<LogLevel, crate::config::ConfigError>)
    ensures
        match r {
            Ok(l) => spec_parse_log_level(level@) == Some(l),
            Err(e) => spec_parse_log_level(level@) is None && e.message@
                == "Invalid log level: "@ + level@,
        },
{
    if str_ci_eq(level, "trace") {
        Ok(LogLevel::Trace)
    } else if str_ci_eq(level, "debug") {
        Ok(LogLevel::Debug)
    } else if str_ci_eq(level, "info") {
        Ok(LogLevel::Info)
    } else if str_ci_eq(level, "warn") || str_ci_eq(level, "warning") {
        Ok(LogLevel::Warn)
    } else if str_ci_eq(level, "error") {
        Ok(LogLevel::Error)
    } else {
        Err(
            crate::config::ConfigError {
                message: String::from_str("Invalid log level: ").concat(level),
            },
        )
    }
}

} // verus!
