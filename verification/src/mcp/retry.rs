//! The retry policy: which failures are worth another attempt, and how
//! long to wait before it.
//!
//! Delays are whole milliseconds. The jitter factor is held in parts per
//! million, so that `1_000_000` stands for a factor of one.

use crate::text::{contains_seq, lowercase, lowercase_of, str_contains};
use vstd::arithmetic::power2::{lemma_pow2_pos, lemma_pow2_strictly_increases, lemma_pow2_unfold, pow2};
use vstd::prelude::*;

verus! {

/// The jitter value that stands for a factor of one.
pub const JITTER_SCALE: u32 = 1_000_000;

/// When and how often a failed call is tried again.
#[derive(Debug, Clone, Copy, PartialEq, Eq, Structural)]
pub struct RetryConfig {
    /// Greatest number of attempts, the first one included.
    pub max_attempts: usize,
    /// Delay before the first retry, in milliseconds.
    pub base_delay_ms: u64,
    /// Greatest delay between two attempts, in milliseconds.
    pub max_delay_ms: u64,
    /// Jitter factor in parts per million.
    pub jitter_ppm: u32,
}

/// What to do after a failed attempt.
#[derive(Debug, Clone, Copy, PartialEq, Eq, Structural)]
pub enum RetryDecision {
    /// Wait that many milliseconds, then try again.
    RetryAfter(u64),
    /// Hand the failure to the caller.
    GiveUp,
}

/// The smaller of two integers.
pub open spec fn min_int(a: int, b: int) -> int {
    if a <= b {
        a
    } else {
        b
    }
}

/// Whether a status code is worth a retry: request timeout, too many
/// requests, and the server errors other than "not implemented" and
/// "version not supported".
pub open spec fn retryable_status(status: u16) -> bool {
    status == 408 || status == 429 || (500 <= status <= 599 && status != 501 && status != 505)
}

/// Whether an HTTP status code is worth a retry.
pub fn should_retry_status(status: u16) -> (out: bool)
    ensures
        out == retryable_status(status),
{
    if status == 408 || status == 429 {
        true
    } else if status >= 500 && status <= 599 {
        status != 501 && status != 505
    } else {
        false
    }
}

/// Whether an error code lies in the range that JSON-RPC reserves for its
/// standard errors.
pub open spec fn standard_error_code(code: i32) -> bool {
    -32699 <= code <= -32600
}

/// Whether an error code lies in the range of the standard errors.
pub fn is_standard_error_code(code: i32) -> (out: bool)
    ensures
        out == standard_error_code(code),
{
    code >= -32699 && code <= -32600
}

/// The message names a failure of authorization.
pub open spec fn names_refusal(m: Seq<char>) -> bool {
    contains_seq(m, "unauthorized"@) || contains_seq(m, "forbidden"@)
}

/// The message names invalid input, and no timeout.
pub open spec fn names_invalid(m: Seq<char>) -> bool {
    contains_seq(m, "invalid"@) && !contains_seq(m, "timeout"@)
}

/// The message names a transient condition.
pub open spec fn names_transient(m: Seq<char>) -> bool {
    ||| contains_seq(m, "connection"@)
    ||| contains_seq(m, "timeout"@)
    ||| contains_seq(m, "timed out"@)
    ||| contains_seq(m, "network"@)
    ||| contains_seq(m, "dns"@)
    ||| contains_seq(m, "temporary"@)
}

/// Whether a lowercased error message is worth a retry: it names a
/// transient condition, no refusal, and no invalid input.
pub open spec fn retryable_text(lowered: Seq<char>) -> bool {
    !names_refusal(lowered) && !names_invalid(lowered) && names_transient(lowered)
}

/// Whether an error message is worth a retry. Only its lowercase form
/// counts.
pub open spec fn retryable_message(message: Seq<char>) -> bool {
    retryable_text(lowercase_of(message))
}

/// Two messages with the same lowercase form are classified alike.
pub proof fn lemma_classifier_reads_lowercase_only(a: Seq<char>, b: Seq<char>)
    requires
        lowercase_of(a) == lowercase_of(b),
    ensures
        retryable_message(a) == retryable_message(b),
{
}

/// Classifies an error message that is already in lowercase.
pub fn classify_lowered(lowered: &str) -> (out: bool)
    ensures
        out == retryable_text(lowered@),
{
    if str_contains(lowered, "unauthorized") || str_contains(lowered, "forbidden") {
        return false;
    }
    if str_contains(lowered, "invalid") && !str_contains(lowered, "timeout") {
        return false;
    }
    str_contains(lowered, "connection") || str_contains(lowered, "timeout") || str_contains(
        lowered,
        "timed out",
    ) || str_contains(lowered, "network") || str_contains(lowered, "dns") || str_contains(
        lowered,
        "temporary",
    )
}

/// Classifies an error message.
pub fn classify_message(message: &str) -> (out: bool)
    ensures
        out == retryable_message(message@),
{
    let lowered = lowercase(message);
    classify_lowered(lowered.as_str())
}

/// Calls `rand::random` for a `u64`. Nothing is known of the outcome. The
/// call fails where the operating system hands out no entropy to seed the
/// generator.
#[verifier::external_body]
fn random_sample() -> u64 {
    rand::random::<u64>()
}

impl Default for RetryConfig {
    fn default() -> (out: RetryConfig)
        ensures
            out == (RetryConfig {
                max_attempts: 3,
                base_delay_ms: 100,
                max_delay_ms: 5000,
                jitter_ppm: 100_000,
            }),
            out.well_formed(),
    {
        RetryConfig { max_attempts: 3, base_delay_ms: 100, max_delay_ms: 5000, jitter_ppm: 100_000 }
    }
}

impl RetryConfig {
    /// At least one attempt is made, and the jitter factor is at most one.
    pub open spec fn well_formed(self) -> bool {
        self.max_attempts >= 1 && self.jitter_ppm <= JITTER_SCALE
    }

    /// The delay of exponential backoff after the failure of attempt number
    /// `attempt`, counted from zero: the base delay doubled `attempt` times,
    /// capped at the greatest delay.
    pub open spec fn backoff(self, attempt: nat) -> int {
        min_int(self.base_delay_ms * pow2(attempt), self.max_delay_ms as int)
    }

    /// The magnitude of the jitter around a backoff delay.
    pub open spec fn spread(self, attempt: nat) -> int {
        self.backoff(attempt) * self.jitter_ppm / (JITTER_SCALE as int)
    }

    /// The offset that a sample selects: a value between minus the spread
    /// and plus the spread.
    pub open spec fn offset(self, attempt: nat, sample: u64) -> int {
        (sample as int) % (2 * self.spread(attempt) + 1) - self.spread(attempt)
    }

    /// The delay before the retry that follows attempt number `attempt`:
    /// the backoff delay moved by the offset, kept between zero and the
    /// greatest delay.
    pub open spec fn delay_with(self, attempt: nat, sample: u64) -> int {
        let moved = self.backoff(attempt) + self.offset(attempt, sample);
        if moved < 0 {
            0
        } else {
            min_int(moved, self.max_delay_ms as int)
        }
    }

    /// What follows the failure of attempt number `attempt`: a retry while
    /// attempts are left and the failure is worth one.
    pub open spec fn decision(self, attempt: nat, retryable: bool, sample: u64) -> RetryDecision {
        if attempt + 1 < self.max_attempts && retryable {
            RetryDecision::RetryAfter(self.delay_with(attempt, sample) as u64)
        } else {
            RetryDecision::GiveUp
        }
    }

    /// The default policy: three attempts, 100 ms base delay, 5 s greatest
    /// delay, a jitter factor of one tenth.
    pub fn new() -> (out: RetryConfig)
        ensures
            out == (RetryConfig {
                max_attempts: 3,
                base_delay_ms: 100,
                max_delay_ms: 5000,
                jitter_ppm: 100_000,
            }),
    {
        RetryConfig { max_attempts: 3, base_delay_ms: 100, max_delay_ms: 5000, jitter_ppm: 100_000 }
    }

    /// Sets the greatest number of attempts. At least one attempt is always
    /// made.
    pub fn max_attempts(self, attempts: usize) -> (out: RetryConfig)
        ensures
            out == (RetryConfig {
                max_attempts: if attempts == 0 {
                    1
                } else {
                    attempts
                },
                ..self
            }),
    {
        RetryConfig { max_attempts: if attempts == 0 {
            1
        } else {
            attempts
        }, ..self }
    }

    /// Sets the delay before the first retry, in milliseconds.
    pub fn base_delay(self, delay_ms: u64) -> (out: RetryConfig)
        ensures
            out == (RetryConfig { base_delay_ms: delay_ms, ..self }),
    {
        RetryConfig { base_delay_ms: delay_ms, ..self }
    }

    /// Sets the greatest delay between two attempts, in milliseconds.
    pub fn max_delay(self, delay_ms: u64) -> (out: RetryConfig)
        ensures
            out == (RetryConfig { max_delay_ms: delay_ms, ..self }),
    {
        RetryConfig { max_delay_ms: delay_ms, ..self }
    }

    /// Sets the jitter factor, in parts per million, clamped to the range
    /// from zero to one.
    pub fn jitter(self, ppm: i64) -> (out: RetryConfig)
        ensures
            out == (RetryConfig {
                jitter_ppm: if ppm < 0 {
                    0
                } else if ppm > JITTER_SCALE {
                    JITTER_SCALE
                } else {
                    ppm as u32
                },
                ..self
            }),
            out.jitter_ppm <= JITTER_SCALE,
    {
        let clamped: u32 = if ppm < 0 {
            0
        } else if ppm > 1_000_000 {
            JITTER_SCALE
        } else {
            ppm as u32
        };
        RetryConfig { jitter_ppm: clamped, ..self }
    }

    /// The backoff delay after the failure of attempt number `attempt`.
    pub fn backoff_ms(&self, attempt: usize) -> (out: u64)
        ensures
            out == self.backoff(attempt as nat),
    {
        let base = self.base_delay_ms;
        let max = self.max_delay_ms;
        proof {
            assert(pow2(0) == 1) by {
                vstd::arithmetic::power2::lemma2_to64();
            }
        }
        let mut delay: u64 = if base <= max {
            base
        } else {
            max
        };
        let mut i: usize = 0;
        while i < attempt && delay < max && delay > 0
            invariant
                i <= attempt,
                base == self.base_delay_ms,
                max == self.max_delay_ms,
                delay == self.backoff(i as nat),
            decreases attempt - i,
        {
            proof {
                lemma_pow2_unfold((i + 1) as nat);
                assert(base * pow2((i + 1) as nat) == 2 * (base * pow2(i as nat))) by (nonlinear_arith)
                    requires
                        pow2((i + 1) as nat) == 2 * pow2(i as nat),
                ;
            }
            delay = if delay <= max - delay {
                delay + delay
            } else {
                max
            };
            i += 1;
        }
        proof {
            if i < attempt {
                lemma_pow2_pos(i as nat);
                lemma_pow2_strictly_increases(i as nat, attempt as nat);
                assert(base * pow2(attempt as nat) >= 0) by (nonlinear_arith)
                    requires
                        base >= 0,
                        pow2(attempt as nat) > 0,
                ;
                if delay == 0 && max > 0 {
                    assert(base * pow2(i as nat) == 0);
                    assert(base == 0) by (nonlinear_arith)
                        requires
                            base * pow2(i as nat) == 0,
                            pow2(i as nat) > 0,
                    ;
                    assert(base * pow2(attempt as nat) == 0) by (nonlinear_arith)
                        requires
                            base == 0,
                    ;
                } else if delay > 0 {
                    assert(base * pow2(i as nat) <= base * pow2(attempt as nat)) by (nonlinear_arith)
                        requires
                            pow2(i as nat) < pow2(attempt as nat),
                            base >= 0,
                    ;
                }
            }
        }
        delay
    }

    /// The delay before the retry that follows attempt number `attempt`,
    /// for a given sample. The delay is never above the greatest delay.
    pub fn delay_for_sample(&self, attempt: usize, sample: u64) -> (out: u64)
        ensures
            out == self.delay_with(attempt as nat, sample),
            out <= self.max_delay_ms,
    {
        let backoff = self.backoff_ms(attempt);
        assert(backoff * self.jitter_ppm <= 0xffff_ffff_ffff_ffff * 0xffff_ffff) by (nonlinear_arith)
            requires
                0 <= backoff <= 0xffff_ffff_ffff_ffff,
                0 <= self.jitter_ppm <= 0xffff_ffff,
        ;
        let spread: u128 = (backoff as u128) * (self.jitter_ppm as u128) / 1_000_000u128;
        assert(spread == self.spread(attempt as nat));
        let width: u128 = 2 * spread + 1;
        let picked: u128 = (sample as u128) % width;
        let raised: u128 = (backoff as u128) + picked;
        if raised < spread {
            0
        } else {
            let moved: u128 = raised - spread;
            if moved <= self.max_delay_ms as u128 {
                moved as u64
            } else {
                self.max_delay_ms
            }
        }
    }

    /// The delay before the retry that follows attempt number `attempt`,
    /// with a jitter drawn at random.
    pub fn calculate_delay(&self, attempt: usize) -> (out: u64)
        ensures
            exists|sample: u64| out == self.delay_with(attempt as nat, sample),
            out <= self.max_delay_ms,
    {
        let sample = random_sample();
        self.delay_for_sample(attempt, sample)
    }

    /// Whether an error with the given message is worth a retry. The answer
    /// depends on the lowercase form of the message alone.
    pub fn should_retry_error(&self, message: &str) -> (out: bool)
        ensures
            out == retryable_message(message@),
    {
        classify_message(message)
    }

    /// What follows the failure of attempt number `attempt`, for a failure
    /// already classified and a given sample.
    pub fn decide(&self, attempt: usize, retryable: bool, sample: u64) -> (out: RetryDecision)
        ensures
            out == self.decision(attempt as nat, retryable, sample),
    {
        if attempt < usize::MAX && attempt + 1 < self.max_attempts && retryable {
            RetryDecision::RetryAfter(self.delay_for_sample(attempt, sample))
        } else {
            RetryDecision::GiveUp
        }
    }

    /// What follows the failure, with the given message, of attempt number
    /// `attempt`. The failure is retried while attempts are left and the
    /// message is worth a retry; the delay is never above the greatest
    /// delay.
    pub fn after_failure(&self, attempt: usize, message: &str) -> (out: RetryDecision)
        ensures
            exists|sample: u64|
                out == self.decision(attempt as nat, retryable_message(message@), sample),
            out is GiveUp <==> !(attempt + 1 < self.max_attempts && retryable_message(message@)),
            out matches RetryDecision::RetryAfter(delay) ==> delay <= self.max_delay_ms,
    {
        let retryable = classify_message(message);
        let sample = random_sample();
        let out = self.decide(attempt, retryable, sample);
        assert(out == self.decision(attempt as nat, retryable_message(message@), sample));
        out
    }
}

/// The delay is never negative and never above the greatest delay,
/// whatever the attempt and the sample.
pub proof fn lemma_delay_bounded(config: RetryConfig, attempt: nat, sample: u64)
    ensures
        0 <= config.delay_with(attempt, sample) <= config.max_delay_ms,
{
}

/// Without jitter the delay is the backoff delay itself.
pub proof fn lemma_delay_without_jitter(config: RetryConfig, attempt: nat, sample: u64)
    requires
        config.jitter_ppm == 0,
    ensures
        config.delay_with(attempt, sample) == config.backoff(attempt),
{
    lemma_pow2_pos(attempt);
    assert(config.base_delay_ms * pow2(attempt) >= 0) by (nonlinear_arith)
        requires
            config.base_delay_ms >= 0,
            pow2(attempt) > 0,
    ;
    assert(config.backoff(attempt) * 0 == 0);
}

/// With a jitter factor of at most one, the delay stays within the spread
/// of the backoff delay.
pub proof fn lemma_delay_within_spread(config: RetryConfig, attempt: nat, sample: u64)
    requires
        config.jitter_ppm <= JITTER_SCALE,
    ensures
        config.backoff(attempt) - config.spread(attempt) <= config.delay_with(attempt, sample)
            <= config.backoff(attempt) + config.spread(attempt),
        0 <= config.spread(attempt) <= config.backoff(attempt),
{
    lemma_pow2_pos(attempt);
    let b = config.backoff(attempt);
    assert(config.base_delay_ms * pow2(attempt) >= 0) by (nonlinear_arith)
        requires
            config.base_delay_ms >= 0,
            pow2(attempt) > 0,
    ;
    assert(0 <= b * config.jitter_ppm <= b * 1_000_000) by (nonlinear_arith)
        requires
            b >= 0,
            0 <= config.jitter_ppm <= 1_000_000,
    ;
}

/// A failure is never retried once the greatest number of attempts is
/// reached, and never when it is not worth a retry.
pub proof fn lemma_attempts_bounded(config: RetryConfig, attempt: nat, retryable: bool, sample: u64)
    ensures
        attempt + 1 >= config.max_attempts ==> config.decision(attempt, retryable, sample)
            is GiveUp,
        !retryable ==> config.decision(attempt, retryable, sample) is GiveUp,
{
}

} // verus!
