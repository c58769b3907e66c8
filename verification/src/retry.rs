//! The retry policy of the secure transport: any 2xx returns at once, any
//! 4xx fails at once and is never retried, and every other outcome — a 5xx
//! or a transport failure — is retried with exponential backoff until the
//! attempts are exhausted, after which the last outcome is surfaced.
use vstd::prelude::*;

verus! {

/// What one delivery attempt came back with.
pub enum HttpOutcome {
    /// The server answered with a status code and a body.
    Status { code: u16, body: String },
    /// The request never produced a response.
    Transport { message: String },
}

/// How the policy classifies one outcome.
#[derive(Clone, Copy, Debug, PartialEq, Eq, Structural)]
pub enum RetryVerdict {
    /// 2xx: hand the response back.
    Success,
    /// 4xx: a client defect; fail at once, never retry.
    ClientError,
    /// Anything else: retry while attempts remain.
    Retry,
}

/// A status code in the 2xx range.
pub open spec fn is_success_code(code: u16) -> bool {
    200 <= code < 300
}

/// A status code in the 4xx range.
pub open spec fn is_client_error_code(code: u16) -> bool {
    400 <= code < 500
}

/// The policy's verdict on one outcome.
pub open spec fn spec_verdict(o: HttpOutcome) -> RetryVerdict {
    match o {
        HttpOutcome::Status { code, .. } => if is_success_code(code) {
            RetryVerdict::Success
        } else if is_client_error_code(code) {
            RetryVerdict::ClientError
        } else {
            RetryVerdict::Retry
        },
        HttpOutcome::Transport { .. } => RetryVerdict::Retry,
    }
}

/// Classify one outcome.
pub fn classify_outcome(o: &HttpOutcome) -> (r: RetryVerdict)
    ensures
        r == spec_verdict(*o),
{
    match o {
        HttpOutcome::Status { code, .. } => {
            let c = *code;
            if 200 <= c && c < 300 {
                RetryVerdict::Success
            } else if 400 <= c && c < 500 {
                RetryVerdict::ClientError
            } else {
                RetryVerdict::Retry
            }
        },
        HttpOutcome::Transport { .. } => RetryVerdict::Retry,
    }
}

/// Two to the `n`.
pub open spec fn pow2(n: nat) -> nat
    decreases n,
{
    if n == 0 {
        1
    } else {
        2 * pow2((n - 1) as nat)
    }
}

/// The backoff before retry number `attempt + 1`: the base delay doubled
/// once per attempt already made.
pub open spec fn spec_delay(base_ms: nat, attempt: nat) -> nat {
    base_ms * pow2(attempt)
}

pub proof fn lemma_pow2_pos(n: nat)
    ensures
        pow2(n) >= 1,
    decreases n,
{
    if n > 0 {
        lemma_pow2_pos((n - 1) as nat);
    }
}

/// The backoff never shrinks as the attempts go on.
pub proof fn lemma_delay_mono(base_ms: nat, a: nat, b: nat)
    requires
        a <= b,
    ensures
        spec_delay(base_ms, a) <= spec_delay(base_ms, b),
    decreases b,
{
    if a < b {
        lemma_delay_mono(base_ms, a, (b - 1) as nat);
        lemma_pow2_pos((b - 1) as nat);
        assert(base_ms * pow2(b) == 2 * (base_ms * pow2((b - 1) as nat))) by (nonlinear_arith)
            requires
                pow2(b) == 2 * pow2((b - 1) as nat),
        ;
    }
}

/// Compute the backoff for one attempt.
pub fn backoff_delay_ms(base_delay_ms: u64, attempt: u32) -> (r: u64)
    requires
        spec_delay(base_delay_ms as nat, attempt as nat) <= u64::MAX,
    ensures
        r == spec_delay(base_delay_ms as nat, attempt as nat),
{
    let mut d: u64 = base_delay_ms;
    let mut i: u32 = 0;
    proof {
        assert(pow2(0) == 1);
        assert(base_delay_ms as nat * 1 == base_delay_ms as nat);
    }
    while i < attempt
        invariant
            0 <= i <= attempt,
            d == spec_delay(base_delay_ms as nat, i as nat),
            spec_delay(base_delay_ms as nat, attempt as nat) <= u64::MAX,
        decreases attempt - i,
    {
        proof {
            lemma_delay_mono(base_delay_ms as nat, i as nat + 1, attempt as nat);
            assert(base_delay_ms as nat * pow2(i as nat + 1) == 2 * (base_delay_ms as nat * pow2(
                i as nat,
            ))) by (nonlinear_arith)
                requires
                    pow2(i as nat + 1) == 2 * pow2(i as nat),
            ;
        }
        d = d * 2;
        i = i + 1;
    }
    d
}

/// What the policy does after one attempt's outcome.
pub enum RetryDecision {
    /// Stop and hand this result to the caller.
    Finish(RetryResult),
    /// Sleep this long, then attempt again.
    RetryAfter { delay_ms: u64 },
}

/// What a whole delivery ends in.
pub enum RetryResult {
    /// A 2xx response.
    Success { code: u16, body: String },
    /// A 4xx response, surfaced at once.
    ClientError { code: u16, body: String },
    /// Attempts exhausted; the last outcome observed.
    Exhausted { last: HttpOutcome },
}

/// The decision after `attempt` (zero-based) came back with `o`.
pub open spec fn spec_retry_step(
    o: HttpOutcome,
    attempt: nat,
    max_retries: nat,
    base_delay_ms: nat,
) -> RetryDecision {
    match spec_verdict(o) {
        RetryVerdict::Success => RetryDecision::Finish(
            match o {
                HttpOutcome::Status { code, body } => RetryResult::Success { code, body },
                HttpOutcome::Transport { message } => RetryResult::Exhausted {
                    last: HttpOutcome::Transport { message },
                },
            },
        ),
        RetryVerdict::ClientError => RetryDecision::Finish(
            match o {
                HttpOutcome::Status { code, body } => RetryResult::ClientError { code, body },
                HttpOutcome::Transport { message } => RetryResult::Exhausted {
                    last: HttpOutcome::Transport { message },
                },
            },
        ),
        RetryVerdict::Retry => if attempt < max_retries {
            RetryDecision::RetryAfter { delay_ms: spec_delay(base_delay_ms, attempt) as u64 }
        } else {
            RetryDecision::Finish(RetryResult::Exhausted { last: o })
        },
    }
}

/// Decide what to do after one attempt. The caller drives the loop: it
/// sends, hands the outcome in, and either finishes or sleeps the returned
/// delay and sends again with `attempt + 1`.
pub fn retry_step(o: HttpOutcome, attempt: u32, max_retries: u32, base_delay_ms: u64) -> (r:
    RetryDecision)
    requires
        attempt <= max_retries,
        spec_delay(base_delay_ms as nat, attempt as nat) <= u64::MAX,
    ensures
        r == spec_retry_step(o, attempt as nat, max_retries as nat, base_delay_ms as nat),
{
    let verdict = classify_outcome(&o);
    match verdict {
        RetryVerdict::Success => match o {
            HttpOutcome::Status { code, body } => RetryDecision::Finish(
                RetryResult::Success { code, body },
            ),
            HttpOutcome::Transport { message } => RetryDecision::Finish(
                RetryResult::Exhausted { last: HttpOutcome::Transport { message } },
            ),
        },
        RetryVerdict::ClientError => match o {
            HttpOutcome::Status { code, body } => RetryDecision::Finish(
                RetryResult::ClientError { code, body },
            ),
            HttpOutcome::Transport { message } => RetryDecision::Finish(
                RetryResult::Exhausted { last: HttpOutcome::Transport { message } },
            ),
        },
        RetryVerdict::Retry => {
            if attempt < max_retries {
                RetryDecision::RetryAfter { delay_ms: backoff_delay_ms(base_delay_ms, attempt) }
            } else {
                RetryDecision::Finish(RetryResult::Exhausted { last: o })
            }
        },
    }
}

/// The number of attempts the policy makes when attempt `i` comes back
/// with `outcomes[i]`: it stops at the first decisive outcome — a success
/// or a client error — and otherwise exhausts all `max_retries + 1`.
pub open spec fn spec_attempts_used(outcomes: Seq<HttpOutcome>, max_retries: nat, i: nat) -> nat
    recommends
        i <= max_retries,
        max_retries < outcomes.len(),
    decreases max_retries - i,
{
    if i >= max_retries || spec_verdict(outcomes[i as int]) != RetryVerdict::Retry {
        i + 1
    } else {
        spec_attempts_used(outcomes, max_retries, i + 1)
    }
}

/// How a whole delivery with the given transcript ends.
pub open spec fn spec_retry_outcome(outcomes: Seq<HttpOutcome>, max_retries: nat) -> RetryResult {
    let k = (spec_attempts_used(outcomes, max_retries, 0) - 1) as int;
    match outcomes[k] {
        HttpOutcome::Status { code, body } => if is_success_code(code) {
            RetryResult::Success { code, body }
        } else if is_client_error_code(code) {
            RetryResult::ClientError { code, body }
        } else {
            RetryResult::Exhausted { last: outcomes[k] }
        },
        HttpOutcome::Transport { .. } => RetryResult::Exhausted { last: outcomes[k] },
    }
}

/// The record of one whole delivery: how many attempts were made, the
/// backoff slept between them, and the final result.
pub struct RetryRunReport {
    pub attempts: u64,
    pub delays_ms: Vec<u64>,
    pub result: RetryResult,
}

proof fn lemma_attempts_used_bounds(outcomes: Seq<HttpOutcome>, max_retries: nat, i: nat)
    requires
        i <= max_retries,
        max_retries < outcomes.len(),
    ensures
        i + 1 <= spec_attempts_used(outcomes, max_retries, i) <= max_retries + 1,
        forall|j: int|
            i <= j < spec_attempts_used(outcomes, max_retries, i) - 1 ==> spec_verdict(
                outcomes[j],
            ) == RetryVerdict::Retry,
    decreases max_retries - i,
{
    if !(i >= max_retries || spec_verdict(outcomes[i as int]) != RetryVerdict::Retry) {
        lemma_attempts_used_bounds(outcomes, max_retries, i + 1);
    }
}

/// Evaluate the whole policy against a transcript: the outcome that each
/// attempt would observe. A server that never stops failing is contacted
/// exactly `max_retries + 1` times, and the delay slept after attempt `i`
/// is the base delay times two to the `i`; a decisive outcome stops the
/// run at once.
pub fn run_retry_policy(outcomes: Vec<HttpOutcome>, max_retries: u32, base_delay_ms: u64) -> (r:
    RetryRunReport)
    requires
        outcomes@.len() > max_retries,
        spec_delay(base_delay_ms as nat, max_retries as nat) <= u64::MAX,
    ensures
        r.attempts == spec_attempts_used(outcomes@, max_retries as nat, 0),
        r.delays_ms@.len() == r.attempts - 1,
        forall|i: int|
            0 <= i < r.delays_ms@.len() ==> r.delays_ms@[i] == spec_delay(
                base_delay_ms as nat,
                i as nat,
            ),
        r.result == spec_retry_outcome(outcomes@, max_retries as nat),
        // A first decisive client error means exactly one contact, whatever
        // the retry budget.
        spec_verdict(outcomes@[0]) == RetryVerdict::ClientError ==> r.attempts == 1,
        spec_verdict(outcomes@[0]) == RetryVerdict::Success ==> r.attempts == 1,
        // A server that always fails retryably is contacted exactly
        // `max_retries + 1` times.
        (forall|i: int|
            0 <= i <= max_retries ==> spec_verdict(outcomes@[i]) == RetryVerdict::Retry)
            ==> r.attempts == max_retries + 1,
{
    proof {
        lemma_attempts_used_bounds(outcomes@, max_retries as nat, 0);
    }
    let ghost all = outcomes@;
    let mut rest = outcomes;
    let mut delays: Vec<u64> = Vec::new();
    let mut attempt: u32 = 0;
    loop
        invariant
            all == outcomes@,
            attempt <= max_retries,
            all.len() > max_retries,
            rest@ == all.skip(attempt as int),
            delays@.len() == attempt,
            forall|i: int|
                0 <= i < attempt ==> delays@[i] == spec_delay(base_delay_ms as nat, i as nat),
            forall|j: int| 0 <= j < attempt ==> spec_verdict(all[j]) == RetryVerdict::Retry,
            spec_delay(base_delay_ms as nat, max_retries as nat) <= u64::MAX,
            spec_attempts_used(all, max_retries as nat, 0) == spec_attempts_used(
                all,
                max_retries as nat,
                attempt as nat,
            ),
        decreases max_retries - attempt,
    {
        let o = rest.remove(0);
        proof {
            assert(o == all[attempt as int]);
            assert(rest@ == all.skip(attempt as int + 1));
        }
        let verdict = classify_outcome(&o);
        match verdict {
            RetryVerdict::Success => {
                proof {
                    lemma_attempts_used_bounds(all, max_retries as nat, attempt as nat);
                }
                let result = match o {
                    HttpOutcome::Status { code, body } => RetryResult::Success { code, body },
                    HttpOutcome::Transport { message } => RetryResult::Exhausted {
                        last: HttpOutcome::Transport { message },
                    },
                };
                return RetryRunReport { attempts: attempt as u64 + 1, delays_ms: delays, result };
            },
            RetryVerdict::ClientError => {
                proof {
                    lemma_attempts_used_bounds(all, max_retries as nat, attempt as nat);
                }
                let result = match o {
                    HttpOutcome::Status { code, body } => RetryResult::ClientError { code, body },
                    HttpOutcome::Transport { message } => RetryResult::Exhausted {
                        last: HttpOutcome::Transport { message },
                    },
                };
                return RetryRunReport { attempts: attempt as u64 + 1, delays_ms: delays, result };
            },
            RetryVerdict::Retry => {
                if attempt >= max_retries {
                    proof {
                        lemma_attempts_used_bounds(all, max_retries as nat, attempt as nat);
                    }
                    return RetryRunReport {
                        attempts: attempt as u64 + 1,
                        delays_ms: delays,
                        result: RetryResult::Exhausted { last: o },
                    };
                }
                proof {
                    lemma_delay_mono(base_delay_ms as nat, attempt as nat, max_retries as nat);
                }
                let d = backoff_delay_ms(base_delay_ms, attempt);
                delays.push(d);
                attempt = attempt + 1;
            },
        }
    }
}

/// For every retry budget `n`, a server that always answers 503 is
/// contacted exactly `n + 1` times, and the i-th backoff equals the base
/// delay times two to the `i`. This holds for any all-retryable transcript,
/// of which the all-503 server is one.
pub proof fn lemma_persistent_failure_exhausts_budget(
    outcomes: Seq<HttpOutcome>,
    max_retries: nat,
)
    requires
        outcomes.len() > max_retries,
        forall|i: int| 0 <= i <= max_retries ==> spec_verdict(outcomes[i]) == RetryVerdict::Retry,
    ensures
        spec_attempts_used(outcomes, max_retries, 0) == max_retries + 1,
        spec_retry_outcome(outcomes, max_retries) == (RetryResult::Exhausted {
            last: outcomes[max_retries as int],
        }),
{
    lemma_attempts_exhaust_from(outcomes, max_retries, 0);
}

proof fn lemma_attempts_exhaust_from(outcomes: Seq<HttpOutcome>, max_retries: nat, i: nat)
    requires
        i <= max_retries < outcomes.len(),
        forall|j: int| i <= j <= max_retries ==> spec_verdict(outcomes[j]) == RetryVerdict::Retry,
    ensures
        spec_attempts_used(outcomes, max_retries, i) == max_retries + 1,
    decreases max_retries - i,
{
    if i < max_retries {
        lemma_attempts_exhaust_from(outcomes, max_retries, i + 1);
    }
}

/// A 404 on the first attempt — any 4xx — means the server is contacted
/// exactly once, whatever the retry budget.
pub proof fn lemma_client_error_stops_at_once(outcomes: Seq<HttpOutcome>, max_retries: nat)
    requires
        outcomes.len() > max_retries,
        spec_verdict(outcomes[0]) == RetryVerdict::ClientError,
    ensures
        spec_attempts_used(outcomes, max_retries, 0) == 1,
        spec_retry_outcome(outcomes, max_retries) == (match outcomes[0] {
            HttpOutcome::Status { code, body } => RetryResult::ClientError { code, body },
            HttpOutcome::Transport { message } => RetryResult::Exhausted {
                last: HttpOutcome::Transport { message },
            },
        }),
{
}

} // verus!
