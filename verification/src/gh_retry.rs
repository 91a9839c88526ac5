//! Retrying `gh` on transient GitHub failures: configuration, the failure
//! classification, exponential backoff with jitter, and the per-attempt
//! decision of the retry loop.

use crate::text::{
    chars_of, contains_str, dec, has_sub, join, join_strings, push_chars, push_decimal, str_views,
    sub_vec, trim_vec, trim_ws,
};
use vstd::arithmetic::power2::{lemma2_to64, lemma_pow2_unfold, pow2};
use crate::process_io::{
    gh_launch_error, gh_launch_message, output_details, process_failure_details, LaunchFailure,
    ProcessOutput,
};
use vstd::prelude::*;
use vstd::string::StringSliceAdditionalSpecFns;

verus! {

pub const DEFAULT_PROCESS_GH_MAX_ATTEMPTS: u32 = 5u32;

pub const DEFAULT_PROCESS_GH_BASE_BACKOFF_MS: u64 = 500u64;

pub const MAX_PROCESS_GH_BACKOFF_MS: u64 = 10_000u64;

/// The `--gh-max-attempts` / `--gh-base-backoff-ms` flags.
#[derive(Debug, Clone, Copy, PartialEq, Eq)]
pub struct ProcessGhRetryArgs {
    pub gh_max_attempts: u32,
    pub gh_base_backoff_ms: u64,
}

#[derive(Debug, Clone, Copy, PartialEq, Eq)]
pub struct GhRetryConfig {
    pub max_attempts: u32,
    pub base_backoff_ms: u64,
}

impl Default for GhRetryConfig {
    fn default() -> (r: Self)
        ensures
            r.max_attempts == DEFAULT_PROCESS_GH_MAX_ATTEMPTS,
            r.base_backoff_ms == DEFAULT_PROCESS_GH_BASE_BACKOFF_MS,
    {
        GhRetryConfig {
            max_attempts: DEFAULT_PROCESS_GH_MAX_ATTEMPTS,
            base_backoff_ms: DEFAULT_PROCESS_GH_BASE_BACKOFF_MS,
        }
    }
}

/// The retry configuration that the process command line selects.
pub fn init_process_gh_retry_config(args: ProcessGhRetryArgs) -> (r: GhRetryConfig)
    ensures
        r.max_attempts == args.gh_max_attempts,
        r.base_backoff_ms == args.gh_base_backoff_ms,
{
    GhRetryConfig { max_attempts: args.gh_max_attempts, base_backoff_ms: args.gh_base_backoff_ms }
}

/// The configuration in effect: the one set for this run, else the defaults.
pub fn gh_retry_config(configured: Option<GhRetryConfig>) -> (r: GhRetryConfig)
    ensures
        configured matches Some(c) ==> r == c,
        configured is None ==> r.max_attempts == DEFAULT_PROCESS_GH_MAX_ATTEMPTS
            && r.base_backoff_ms == DEFAULT_PROCESS_GH_BASE_BACKOFF_MS,
{
    match configured {
        Some(c) => c,
        None => GhRetryConfig::default(),
    }
}

// ---------------------------------------------------------------------------
// Summaries of a `gh` invocation
// ---------------------------------------------------------------------------

/// The byte length of the UTF-8 encoding, as `str::len` reports it.
pub open spec fn utf8_len(s: Seq<char>) -> usize {
    vstd::utf8::encode_utf8(s).len() as usize
}

/// The arguments joined by spaces; when that is longer than 120 bytes, its
/// first 117 chars followed by `...`.
pub open spec fn gh_args_summary(args: Seq<Seq<char>>) -> Seq<char> {
    let joined = join(args, " "@);
    if utf8_len(joined) <= 120 {
        joined
    } else {
        joined.take(if joined.len() < 117 { joined.len() as int } else { 117 }) + "..."@
    }
}

pub fn summarize_gh_args(args: &[String]) -> (r: String)
    ensures
        r@ == gh_args_summary(str_views(args@)),
{
    let joined = join_strings(args, " ");
    let js = joined.as_str();
    let byte_len = js.len();
    assert(js.spec_bytes() == vstd::utf8::encode_utf8(js@));
    assert(byte_len == utf8_len(joined@));
    if byte_len <= 120 {
        return joined;
    }
    let chars = chars_of(joined.as_str());
    let keep = if chars.len() < 117 {
        chars.len()
    } else {
        117
    };
    let head = sub_vec(&chars, 0, keep);
    assert(head@ =~= joined@.take(keep as int));
    let mut r = String::new();
    push_chars(&mut r, &head);
    r.append("...");
    r
}

/// When the joined arguments are ASCII, their summary takes at most 120
/// bytes.
pub proof fn law_ascii_summary_fits_120_bytes(args: Seq<Seq<char>>)
    requires
        vstd::utf8::is_ascii_chars(join(args, " "@)),
    ensures
        utf8_len(gh_args_summary(args)) <= 120,
{
    let joined = join(args, " "@);
    vstd::utf8::is_ascii_chars_encode_utf8(joined);
    if utf8_len(joined) > 120 {
        let head = joined.take(117);
        let tail = "..."@;
        reveal_strlit("...");
        assert(vstd::utf8::is_ascii_chars(head));
        assert(vstd::utf8::is_ascii_chars(tail));
        assert(vstd::utf8::is_ascii_chars(head + tail)) by {
            assert forall|i: int| 0 <= i < (head + tail).len() implies '\0' <= #[trigger] (head + tail)[i] <= '\u{7f}' by {
                if i < head.len() {
                    assert((head + tail)[i] == head[i]);
                } else {
                    assert((head + tail)[i] == tail[i - head.len()]);
                }
            }
        }
        vstd::utf8::is_ascii_chars_encode_utf8(head + tail);
        assert(gh_args_summary(args) == head + tail);
    }
}

/// What a failed `gh` run printed: trimmed stderr, else trimmed stdout, else
/// a placeholder.
pub open spec fn failure_details(stderr: Seq<char>, stdout: Seq<char>) -> Seq<char> {
    if trim_ws(stderr).len() > 0 {
        trim_ws(stderr)
    } else if trim_ws(stdout).len() > 0 {
        trim_ws(stdout)
    } else {
        "no output captured"@
    }
}

pub fn gh_failure_details(stderr: &str, stdout: &str) -> (r: String)
    ensures
        r@ == failure_details(stderr@, stdout@),
{
    let err = trim_vec(&chars_of(stderr));
    if err.len() > 0 {
        return crate::text::string_of(&err);
    }
    let out = trim_vec(&chars_of(stdout));
    if out.len() > 0 {
        return crate::text::string_of(&out);
    }
    String::from_str("no output captured")
}

// ---------------------------------------------------------------------------
// Transient failures
// ---------------------------------------------------------------------------

/// What `str::to_lowercase` returns for a string: its Unicode lowercase
/// mapping, which depends on the string alone.
pub uninterp spec fn unicode_lowercase(s: Seq<char>) -> Seq<char>;

/// `str::to_lowercase` from std.
#[verifier::external_body]
fn std_to_lowercase(s: &str) -> (r: String)
    ensures
        r@ == unicode_lowercase(s@),
{
    s.to_lowercase()
}

pub open spec fn transient_status(status_code: Option<i32>) -> bool {
    match status_code {
        Some(c) => c == 429 || c == 502 || c == 503 || c == 504,
        None => false,
    }
}

/// Phrases of rate limiting and temporary outages.
pub open spec fn transient_phrase(n: Seq<char>) -> bool {
    ||| has_sub(n, "http 429"@)
    ||| has_sub(n, "too many requests"@)
    ||| has_sub(n, "rate limit"@)
    ||| has_sub(n, "secondary rate limit"@)
    ||| has_sub(n, "try again later"@)
    ||| has_sub(n, "abuse detection"@)
    ||| has_sub(n, "temporarily unavailable"@)
    ||| has_sub(n, "timeout"@)
    ||| has_sub(n, "timed out"@)
    ||| has_sub(n, "connection reset"@)
    ||| has_sub(n, "econnreset"@)
}

/// The classification on already-lowercased details.
pub fn is_transient_gh_failure_normalized(status_code: Option<i32>, normalized: &str) -> (b: bool)
    ensures
        b == (transient_status(status_code) || transient_phrase(normalized@)),
{
    let retry_status = match status_code {
        Some(c) => c == 429 || c == 502 || c == 503 || c == 504,
        None => false,
    };
    if retry_status {
        return true;
    }
    let n = chars_of(normalized);
    contains_str(&n, "http 429") || contains_str(&n, "too many requests") || contains_str(
        &n,
        "rate limit",
    ) || contains_str(&n, "secondary rate limit") || contains_str(&n, "try again later")
        || contains_str(&n, "abuse detection") || contains_str(&n, "temporarily unavailable")
        || contains_str(&n, "timeout") || contains_str(&n, "timed out") || contains_str(
        &n,
        "connection reset",
    ) || contains_str(&n, "econnreset")
}

/// A failure is transient when `gh` exited with 429/502/503/504 or its
/// lowercased output mentions rate limiting or a temporary outage.
pub fn is_transient_gh_failure(status_code: Option<i32>, details: &str) -> (b: bool)
    ensures
        b == (transient_status(status_code) || transient_phrase(unicode_lowercase(details@))),
{
    let normalized = std_to_lowercase(details);
    is_transient_gh_failure_normalized(status_code, normalized.as_str())
}

// ---------------------------------------------------------------------------
// Backoff
// ---------------------------------------------------------------------------

pub open spec fn min_nat(a: nat, b: nat) -> nat {
    if a < b {
        a
    } else {
        b
    }
}

/// `base * 2^(attempt - 1)` (exponent at most 10, product saturating), capped
/// at 10 s, plus a jitter of `seed mod (cap/4 + 1)`.
pub open spec fn backoff_ms(base_backoff_ms: u64, attempt: u32, jitter_seed: u64) -> nat {
    let exponent = min_nat(if attempt >= 1 { (attempt - 1) as nat } else { 0 }, 10);
    let scaled = min_nat(base_backoff_ms as nat * pow2(exponent), u64::MAX as nat);
    let capped = min_nat(scaled, MAX_PROCESS_GH_BACKOFF_MS as nat);
    let jitter_window = capped / 4;
    let jitter = if jitter_window == 0 {
        0
    } else {
        jitter_seed as nat % (jitter_window + 1)
    };
    capped + jitter
}

fn pow2_exec(e: u32) -> (p: u64)
    requires
        e <= 10,
    ensures
        p == pow2(e as nat),
        p <= 1024,
{
    let mut p: u64 = 1;
    let mut k: u32 = 0;
    proof {
        lemma2_to64();
    }
    while k < e
        invariant
            k <= e <= 10,
            p == pow2(k as nat),
            p <= pow2(k as nat),
            pow2(10) == 1024,
            pow2(k as nat) <= 1024 || k > 10,
        decreases e - k,
    {
        proof {
            lemma_pow2_unfold((k + 1) as nat);
            lemma2_to64();
            vstd::arithmetic::power2::lemma_pow2_strictly_increases((k + 1) as nat, 11);
        }
        p = p * 2;
        k = k + 1;
    }
    p
}

pub fn gh_retry_backoff_ms(base_backoff_ms: u64, attempt: u32, jitter_seed: u64) -> (r: u64)
    ensures
        r == backoff_ms(base_backoff_ms, attempt, jitter_seed),
{
    let sub = attempt.saturating_sub(1);
    let exponent = if sub < 10 {
        sub
    } else {
        10
    };
    let factor = pow2_exec(exponent);
    let scaled = match base_backoff_ms.checked_mul(factor) {
        Some(v) => v,
        None => u64::MAX,
    };
    let capped = if scaled < MAX_PROCESS_GH_BACKOFF_MS {
        scaled
    } else {
        MAX_PROCESS_GH_BACKOFF_MS
    };
    let jitter_window = capped / 4;
    let jitter = if jitter_window == 0 {
        0
    } else {
        jitter_seed % (jitter_window + 1)
    };
    capped + jitter
}

/// A backoff never falls below the capped exponential delay and never adds
/// more than a quarter of it as jitter; it is at most 12.5 s.
pub proof fn law_backoff_bounds(base_backoff_ms: u64, attempt: u32, jitter_seed: u64)
    ensures
        ({
            let exponent = min_nat(if attempt >= 1 { (attempt - 1) as nat } else { 0 }, 10);
            let capped = min_nat(
                min_nat(base_backoff_ms as nat * pow2(exponent), u64::MAX as nat),
                MAX_PROCESS_GH_BACKOFF_MS as nat,
            );
            capped <= backoff_ms(base_backoff_ms, attempt, jitter_seed) <= capped + capped / 4
        }),
        backoff_ms(base_backoff_ms, attempt, jitter_seed) <= MAX_PROCESS_GH_BACKOFF_MS
            + MAX_PROCESS_GH_BACKOFF_MS / 4,
{
}

// ---------------------------------------------------------------------------
// The retry loop
// ---------------------------------------------------------------------------

/// What the retry loop does after a failed attempt.
#[derive(Debug, Clone, Copy, PartialEq, Eq)]
pub enum GhRetryStep {
    /// Sleep this long, then run the next attempt.
    Retry { backoff_ms: u64 },
    /// Stop; `transient` tells whether the last failure was transient.
    GiveUp { transient: bool },
}

/// A transient failure is retried while attempts remain; any other failure,
/// or one at the last attempt, ends the loop.
pub fn gh_retry_step(
    config: GhRetryConfig,
    attempt: u32,
    transient: bool,
    jitter_seed: u64,
) -> (r: GhRetryStep)
    ensures
        transient && attempt < config.max_attempts ==> r == (GhRetryStep::Retry {
            backoff_ms: backoff_ms(config.base_backoff_ms, attempt, jitter_seed) as u64,
        }),
        !(transient && attempt < config.max_attempts) ==> r == (GhRetryStep::GiveUp { transient }),
{
    if transient && attempt < config.max_attempts {
        GhRetryStep::Retry {
            backoff_ms: gh_retry_backoff_ms(config.base_backoff_ms, attempt, jitter_seed),
        }
    } else {
        GhRetryStep::GiveUp { transient }
    }
}

/// The loop never retries past the configured number of attempts: every
/// `Retry` leads to an attempt number that is still within `max_attempts`.
pub proof fn law_retry_stays_within_attempts(
    config: GhRetryConfig,
    attempt: u32,
    transient: bool,
    jitter_seed: u64,
    step: GhRetryStep,
)
    requires
        transient && attempt < config.max_attempts ==> step == (GhRetryStep::Retry {
            backoff_ms: backoff_ms(config.base_backoff_ms, attempt, jitter_seed) as u64,
        }),
        !(transient && attempt < config.max_attempts) ==> step == (GhRetryStep::GiveUp {
            transient,
        }),
    ensures
        (step is Retry) ==> attempt + 1 <= config.max_attempts,
        !transient ==> step == (GhRetryStep::GiveUp { transient: false }),
{
}

pub open spec fn attempt_summary(
    attempt: u32,
    max_attempts: u32,
    status: Seq<char>,
    details: Seq<char>,
) -> Seq<char> {
    "attempt "@ + dec(attempt as nat) + "/"@ + dec(max_attempts as nat) + " failed with status "@
        + status + ": "@ + details
}

/// One line of the attempt history: `attempt N/M failed with status S: D`.
pub fn gh_attempt_summary(attempt: u32, max_attempts: u32, status: &str, details: &str) -> (r:
    String)
    ensures
        r@ == attempt_summary(attempt, max_attempts, status@, details@),
{
    let mut r = String::from_str("attempt ");
    push_decimal(&mut r, attempt as u64);
    r.append("/");
    push_decimal(&mut r, max_attempts as u64);
    r.append(" failed with status ");
    r.append(status);
    r.append(": ");
    r.append(details);
    r
}

pub open spec fn retry_warning(
    command_summary: Seq<char>,
    details: Seq<char>,
    next: nat,
    max_attempts: u32,
    backoff: u64,
) -> Seq<char> {
    "warning: "@ + command_summary + " hit a transient GitHub failure ("@ + details
        + "); retrying attempt "@ + dec(next) + "/"@ + dec(max_attempts as nat) + " in "@ + dec(
        backoff as nat,
    ) + "ms"@
}

pub fn gh_retry_warning(
    command_summary: &str,
    details: &str,
    attempt: u32,
    max_attempts: u32,
    backoff: u64,
) -> (r: String)
    ensures
        r@ == retry_warning(command_summary@, details@, attempt as nat + 1, max_attempts, backoff),
{
    let mut r = String::from_str("warning: ");
    r.append(command_summary);
    r.append(" hit a transient GitHub failure (");
    r.append(details);
    r.append("); retrying attempt ");
    push_decimal(&mut r, attempt as u64 + 1);
    r.append("/");
    push_decimal(&mut r, max_attempts as u64);
    r.append(" in ");
    push_decimal(&mut r, backoff);
    r.append("ms");
    r
}

pub open spec fn transient_exhausted_message(
    command_summary: Seq<char>,
    attempt_summaries: Seq<Seq<char>>,
    max_attempts: u32,
) -> Seq<char> {
    command_summary + " failed after "@ + dec(max_attempts as nat)
        + " attempts due to transient GitHub failures.\n"@ + join(attempt_summaries, "\n"@)
        + "\nCheck `gh auth status`; if rate-limited, wait and retry with `--gh-max-attempts` / `--gh-base-backoff-ms`."@
}

/// The error when every attempt failed transiently.
pub fn gh_transient_exhausted_message(
    command_summary: &str,
    attempt_summaries: &[String],
    max_attempts: u32,
) -> (r: String)
    ensures
        r@ == transient_exhausted_message(
            command_summary@,
            str_views(attempt_summaries@),
            max_attempts,
        ),
{
    let mut r = String::from_str(command_summary);
    r.append(" failed after ");
    push_decimal(&mut r, max_attempts as u64);
    r.append(" attempts due to transient GitHub failures.\n");
    let joined = join_strings(attempt_summaries, "\n");
    r.append(joined.as_str());
    r.append(
        "\nCheck `gh auth status`; if rate-limited, wait and retry with `--gh-max-attempts` / `--gh-base-backoff-ms`.",
    );
    r
}

pub open spec fn permanent_failure_message(
    command_summary: Seq<char>,
    attempt: u32,
    details: Seq<char>,
) -> Seq<char> {
    command_summary + " failed with a non-retryable GitHub error after "@ + dec(attempt as nat)
        + " attempt(s): "@ + details + "\nCheck `gh auth status` and verify repo access."@
}

/// The error when a failure is not retried.
pub fn gh_permanent_failure_message(command_summary: &str, attempt: u32, details: &str) -> (r:
    String)
    ensures
        r@ == permanent_failure_message(command_summary@, attempt, details@),
{
    let mut r = String::from_str(command_summary);
    r.append(" failed with a non-retryable GitHub error after ");
    push_decimal(&mut r, attempt as u64);
    r.append(" attempt(s): ");
    r.append(details);
    r.append("\nCheck `gh auth status` and verify repo access.");
    r
}

// ---------------------------------------------------------------------------
// Running `gh` with retries
// ---------------------------------------------------------------------------

/// Where a `gh` invocation with retries stands.
#[derive(Debug, Clone, PartialEq, Eq)]
pub struct GhRetryRun {
    pub config: GhRetryConfig,
    /// `gh` followed by the summarized arguments.
    pub command_summary: String,
    /// Attempts made so far.
    pub attempts: u32,
    /// One line per failed attempt.
    pub attempt_summaries: Vec<String>,
}

/// What to do next with a `gh` invocation.
#[derive(Debug, Clone, PartialEq, Eq)]
pub enum GhAttemptAction {
    /// Run `gh`.
    Attempt,
    /// Print `warning`, sleep `backoff_ms`, then run `gh` again.
    RetryAfter { backoff_ms: u64, warning: String },
    /// The last attempt succeeded; its output is the result.
    Succeeded,
    /// Give up with this error.
    Failed(String),
}

pub open spec fn command_summary_of(args: Seq<Seq<char>>) -> Seq<char> {
    "gh "@ + gh_args_summary(args)
}

/// Starts an invocation: the first attempt, or an error when no attempt is
/// allowed.
pub fn start_gh_command(config: GhRetryConfig, args: &[String]) -> (r: (GhRetryRun, GhAttemptAction))
    ensures
        r.0.config == config,
        r.0.command_summary@ == command_summary_of(str_views(args@)),
        r.0.attempts == 0,
        r.0.attempt_summaries@.len() == 0,
        if config.max_attempts > 0 {
            r.1 is Attempt
        } else {
            r.1 matches GhAttemptAction::Failed(m) && m@ == command_summary_of(str_views(args@))
                + " failed before executing any attempt."@
        },
{
    let mut summary = String::from_str("gh ");
    let s = summarize_gh_args(args);
    summary.append(s.as_str());
    let action = if config.max_attempts > 0 {
        GhAttemptAction::Attempt
    } else {
        let mut m = summary.clone();
        m.append(" failed before executing any attempt.");
        GhAttemptAction::Failed(m)
    };
    (GhRetryRun { config, command_summary: summary, attempts: 0, attempt_summaries: Vec::new() }, action)
}

/// Whether a failed attempt with these details is transient.
pub open spec fn transient_failure(o: ProcessOutput) -> bool {
    transient_status(o.exit_code) || transient_phrase(unicode_lowercase(output_details(o)))
}

/// The action after a failed attempt numbered `n`, given the attempt history
/// that includes it.
pub open spec fn after_failure(
    run: GhRetryRun,
    o: ProcessOutput,
    n: u32,
    summaries: Seq<Seq<char>>,
    jitter_seed: u64,
    r: GhAttemptAction,
) -> bool {
    let d = output_details(o);
    if transient_failure(o) && n < run.config.max_attempts {
        r matches GhAttemptAction::RetryAfter { backoff_ms: b, warning: w } && b == backoff_ms(
            run.config.base_backoff_ms,
            n,
            jitter_seed,
        ) && w@ == retry_warning(run.command_summary@, d, n as nat + 1, run.config.max_attempts, b)
    } else if transient_failure(o) {
        r matches GhAttemptAction::Failed(m) && m@ == transient_exhausted_message(
            run.command_summary@,
            summaries,
            run.config.max_attempts,
        )
    } else {
        r matches GhAttemptAction::Failed(m) && m@ == permanent_failure_message(
            run.command_summary@,
            n,
            d,
        )
    }
}

/// Takes the outcome of an attempt: success ends the invocation, a launch
/// failure fails it, and a failed run is retried after a backoff while it is
/// transient and attempts remain; otherwise it fails with the history of
/// attempts (transient) or the last failure (permanent).
pub fn run_gh_command_with_retry(
    run: &mut GhRetryRun,
    outcome: Result<ProcessOutput, LaunchFailure>,
    jitter_seed: u64,
) -> (r: GhAttemptAction)
    requires
        old(run).attempts < old(run).config.max_attempts,
    ensures
        final(run).config == old(run).config,
        final(run).command_summary == old(run).command_summary,
        final(run).attempts == old(run).attempts + 1,
        final(run).attempts <= final(run).config.max_attempts,
        r is RetryAfter ==> final(run).attempts < final(run).config.max_attempts,
        match outcome {
            Err(f) => r matches GhAttemptAction::Failed(m) && m@ == gh_launch_message(f)
                && final(run).attempt_summaries == old(run).attempt_summaries,
            Ok(o) => if o.success {
                r is Succeeded && final(run).attempt_summaries == old(run).attempt_summaries
            } else {
                &&& str_views(final(run).attempt_summaries@) == str_views(
                    old(run).attempt_summaries@,
                ).push(
                    attempt_summary(
                        final(run).attempts,
                        old(run).config.max_attempts,
                        o.status@,
                        output_details(o),
                    ),
                )
                &&& after_failure(
                    *old(run),
                    o,
                    final(run).attempts,
                    str_views(final(run).attempt_summaries@),
                    jitter_seed,
                    r,
                )
            },
        },
{
    run.attempts = run.attempts + 1;
    let n = run.attempts;
    match outcome {
        Err(f) => GhAttemptAction::Failed(gh_launch_error(&f)),
        Ok(o) => {
            if o.success {
                return GhAttemptAction::Succeeded;
            }
            let details = process_failure_details(&o);
            let transient = is_transient_gh_failure(o.exit_code, details.as_str());
            let line = gh_attempt_summary(n, run.config.max_attempts, o.status.as_str(), details.as_str());
            let ghost before = str_views(run.attempt_summaries@);
            run.attempt_summaries.push(line);
            assert(str_views(run.attempt_summaries@) =~= before.push(
                attempt_summary(n, run.config.max_attempts, o.status@, output_details(o)),
            ));
            match gh_retry_step(run.config, n, transient, jitter_seed) {
                GhRetryStep::Retry { backoff_ms } => {
                    let warning = gh_retry_warning(
                        run.command_summary.as_str(),
                        details.as_str(),
                        n,
                        run.config.max_attempts,
                        backoff_ms,
                    );
                    GhAttemptAction::RetryAfter { backoff_ms, warning }
                },
                GhRetryStep::GiveUp { transient } => {
                    if transient {
                        GhAttemptAction::Failed(
                            gh_transient_exhausted_message(
                                run.command_summary.as_str(),
                                run.attempt_summaries.as_slice(),
                                run.config.max_attempts,
                            ),
                        )
                    } else {
                        GhAttemptAction::Failed(
                            gh_permanent_failure_message(
                                run.command_summary.as_str(),
                                n,
                                details.as_str(),
                            ),
                        )
                    }
                },
            }
        },
    }
}

/// The phrases of rate limiting and temporary outages.
pub open spec fn transient_phrases() -> Seq<Seq<char>> {
    seq!["http 429"@, "too many requests"@, "rate limit"@, "secondary rate limit"@, "try again later"@, "abuse detection"@, "temporarily unavailable"@, "timeout"@, "timed out"@, "connection reset"@, "econnreset"@]
}

proof fn lemma_transient_phrases(n: Seq<char>)
    ensures
        transient_phrase(n) <==> exists|i: int| 0 <= i < transient_phrases().len() && #[trigger] has_sub(n, transient_phrases()[i]),
{
    let w = transient_phrases();
    assert(w.len() == 11);
    assert(w[0] == "http 429"@);
    assert(w[1] == "too many requests"@);
    assert(w[2] == "rate limit"@);
    assert(w[3] == "secondary rate limit"@);
    assert(w[4] == "try again later"@);
    assert(w[5] == "abuse detection"@);
    assert(w[6] == "temporarily unavailable"@);
    assert(w[7] == "timeout"@);
    assert(w[8] == "timed out"@);
    assert(w[9] == "connection reset"@);
    assert(w[10] == "econnreset"@);
    if exists|i: int| 0 <= i < w.len() && #[trigger] has_sub(n, w[i]) {
        let i = choose|i: int| 0 <= i < w.len() && #[trigger] has_sub(n, w[i]);
        if i == 0 {
            assert(has_sub(n, "http 429"@));
        } else if i == 1 {
            assert(has_sub(n, "too many requests"@));
        } else if i == 2 {
            assert(has_sub(n, "rate limit"@));
        } else if i == 3 {
            assert(has_sub(n, "secondary rate limit"@));
        } else if i == 4 {
            assert(has_sub(n, "try again later"@));
        } else if i == 5 {
            assert(has_sub(n, "abuse detection"@));
        } else if i == 6 {
            assert(has_sub(n, "temporarily unavailable"@));
        } else if i == 7 {
            assert(has_sub(n, "timeout"@));
        } else if i == 8 {
            assert(has_sub(n, "timed out"@));
        } else if i == 9 {
            assert(has_sub(n, "connection reset"@));
        } else if i == 10 {
            assert(has_sub(n, "econnreset"@));
        }
    }
    if has_sub(n, "http 429"@) {
        assert(has_sub(n, w[0]));
    }
    if has_sub(n, "too many requests"@) {
        assert(has_sub(n, w[1]));
    }
    if has_sub(n, "rate limit"@) {
        assert(has_sub(n, w[2]));
    }
    if has_sub(n, "secondary rate limit"@) {
        assert(has_sub(n, w[3]));
    }
    if has_sub(n, "try again later"@) {
        assert(has_sub(n, w[4]));
    }
    if has_sub(n, "abuse detection"@) {
        assert(has_sub(n, w[5]));
    }
    if has_sub(n, "temporarily unavailable"@) {
        assert(has_sub(n, w[6]));
    }
    if has_sub(n, "timeout"@) {
        assert(has_sub(n, w[7]));
    }
    if has_sub(n, "timed out"@) {
        assert(has_sub(n, w[8]));
    }
    if has_sub(n, "connection reset"@) {
        assert(has_sub(n, w[9]));
    }
    if has_sub(n, "econnreset"@) {
        assert(has_sub(n, w[10]));
    }
}

/// A failed `gh` call is transient exactly when it exited with 429, 502,
/// 503 or 504, or its lowercased details contain one of the transient
/// phrases; any such phrase makes it transient whatever the exit status.
pub proof fn law_transient_gh_failure(status_code: Option<i32>, details: Seq<char>)
    ensures
        (transient_status(status_code) || transient_phrase(unicode_lowercase(details))) <==> (
        (status_code matches Some(c) && (c == 429 || c == 502 || c == 503 || c == 504)) || exists|i: int|
            0 <= i < transient_phrases().len() && #[trigger] has_sub(
                unicode_lowercase(details),
                transient_phrases()[i],
            )),
{
    lemma_transient_phrases(unicode_lowercase(details));
}

} // verus!
