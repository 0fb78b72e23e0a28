//! The retry policy: given an attempt index and the outcome of that attempt,
//! decide whether the request succeeded, must be retried after a backoff
//! delay, or has failed for good.

use vstd::prelude::*;

use crate::spec_status_success;
use crate::status_is_success;

verus! {

/// First backoff delay, doubled on every further retry.
pub const BASE_DELAY_MS: u64 = 100;

/// Ceiling on the backoff delay.
pub const MAX_DELAY_MS: u64 = 10000;

/// 2 to the power `n`.
pub open spec fn pow2(n: nat) -> nat
    decreases n,
{
    if n == 0 {
        1
    } else {
        2 * pow2((n - 1) as nat)
    }
}

proof fn lemma_pow2_mono(a: nat, b: nat)
    requires
        a <= b,
    ensures
        pow2(a) <= pow2(b),
    decreases b,
{
    if a < b {
        lemma_pow2_mono(a, (b - 1) as nat);
    }
}

proof fn lemma_pow2_le_64(n: nat)
    requires
        n <= 6,
    ensures
        pow2(n) <= 64,
{
    lemma_pow2_mono(n, 6);
    assert(pow2(6) == 64) by {
        reveal_with_fuel(pow2, 7);
    }
}

/// The exponential backoff schedule: the wait before the attempt after
/// attempt `i`, doubling from `BASE_DELAY_MS` and capped at `MAX_DELAY_MS`.
pub open spec fn spec_backoff(i: nat) -> u64 {
    if i >= 7 {
        MAX_DELAY_MS
    } else {
        (BASE_DELAY_MS * pow2(i)) as u64
    }
}

/// Computes the backoff delay in milliseconds after attempt `i`.
pub fn backoff_delay_ms(i: u32) -> (d: u64)
    ensures
        d == spec_backoff(i as nat),
{
    if i >= 7 {
        MAX_DELAY_MS
    } else {
        let mut d: u64 = BASE_DELAY_MS;
        let mut k: u32 = 0;
        while k < i
            invariant
                k <= i,
                i < 7,
                d == BASE_DELAY_MS * pow2(k as nat),
            decreases i - k,
        {
            proof {
                lemma_pow2_le_64(k as nat);
                assert(pow2((k + 1) as nat) == 2 * pow2(k as nat));
            }
            d = d * 2;
            k = k + 1;
        }
        d
    }
}

/// Immutable per-client retry settings, shared read-only by every request.
pub struct RetryConfig {
    /// Retries allowed beyond the first attempt; a request makes at most
    /// `max_retries + 1` attempts.
    pub max_retries: u32,
    /// Response statuses worth retrying.
    pub retryable_statuses: Vec<u16>,
}

/// What one attempt of a request came to at the transport.
#[derive(Clone, Copy, Debug, PartialEq, Eq, Structural)]
pub enum Outcome {
    /// A response arrived with this status code.
    Response(u16),
    /// The transport call itself failed: connection, DNS or timeout.
    TransportError,
}

/// The policy's verdict on one attempt.
#[derive(Clone, Copy, Debug, PartialEq, Eq, Structural)]
pub enum Decision {
    /// The attempt succeeded; hand the response on.
    Success,
    /// Transient failure: wait this many milliseconds, then try again.
    Retry(u64),
    /// Terminal failure: no further attempt.
    Fail,
}

/// An outcome that ends the request successfully.
pub open spec fn spec_outcome_success(o: Outcome) -> bool {
    o matches Outcome::Response(s) && spec_status_success(s)
}

impl RetryConfig {
    /// Whether this configuration retries the given response status.
    pub open spec fn retryable_spec(self, status: u16) -> bool {
        self.retryable_statuses@.contains(status)
    }

    /// A configuration with the default retryable set
    /// {408, 413, 429, 500, 502, 503, 504}.
    pub fn new(max_retries: u32) -> (c: RetryConfig)
        ensures
            c.max_retries == max_retries,
            c.retryable_statuses@ == seq![408u16, 413u16, 429u16, 500u16, 502u16, 503u16, 504u16],
            forall|s: u16|
                c.retryable_spec(s) <==> (s == 408 || s == 413 || s == 429 || s == 500 || s == 502
                    || s == 503 || s == 504),
    {
        let mut codes: Vec<u16> = Vec::new();
        codes.push(408);
        codes.push(413);
        codes.push(429);
        codes.push(500);
        codes.push(502);
        codes.push(503);
        codes.push(504);
        proof {
            assert(codes@ =~= seq![408u16, 413u16, 429u16, 500u16, 502u16, 503u16, 504u16]);
            assert forall|s: u16|
                codes@.contains(s) <==> (s == 408 || s == 413 || s == 429 || s == 500 || s == 502
                    || s == 503 || s == 504) by {
                if s == 408 || s == 413 || s == 429 || s == 500 || s == 502 || s == 503 || s
                    == 504 {
                    if s == 408 {
                        assert(codes@[0] == s);
                    } else if s == 413 {
                        assert(codes@[1] == s);
                    } else if s == 429 {
                        assert(codes@[2] == s);
                    } else if s == 500 {
                        assert(codes@[3] == s);
                    } else if s == 502 {
                        assert(codes@[4] == s);
                    } else if s == 503 {
                        assert(codes@[5] == s);
                    } else {
                        assert(codes@[6] == s);
                    }
                }
                if codes@.contains(s) {
                    let i = choose|i: int| 0 <= i < codes@.len() && codes@[i] == s;
                    assert(i == 0 || i == 1 || i == 2 || i == 3 || i == 4 || i == 5 || i == 6);
                }
            }
        }
        RetryConfig { max_retries, retryable_statuses: codes }
    }

    /// A configuration with a caller-supplied retryable set.
    pub fn with_statuses(max_retries: u32, retryable_statuses: Vec<u16>) -> (c: RetryConfig)
        ensures
            c.max_retries == max_retries,
            c.retryable_statuses@ == retryable_statuses@,
    {
        RetryConfig { max_retries, retryable_statuses }
    }

    /// Returns whether this configuration retries the given response status.
    pub fn is_retryable_status(&self, status: u16) -> (r: bool)
        ensures
            r == self.retryable_spec(status),
    {
        let mut i: usize = 0;
        while i < self.retryable_statuses.len()
            invariant
                i <= self.retryable_statuses@.len(),
                forall|j: int| 0 <= j < i ==> self.retryable_statuses@[j] != status,
            decreases self.retryable_statuses@.len() - i,
        {
            if self.retryable_statuses[i] == status {
                return true;
            }
            i = i + 1;
        }
        false
    }
}

/// An outcome the policy counts as transient: a transport failure, or a
/// response whose status is in the retryable set.
pub open spec fn spec_retryable_outcome(cfg: RetryConfig, o: Outcome) -> bool {
    match o {
        Outcome::TransportError => true,
        Outcome::Response(s) => cfg.retryable_spec(s),
    }
}

/// The decision rule for attempt `i` (0-based): success is terminal; a
/// transient failure is retried only while `i < max_retries`, after the
/// backoff wait for `i`; everything else is terminal failure.
pub open spec fn spec_decide(cfg: RetryConfig, attempt: nat, o: Outcome) -> Decision {
    if spec_outcome_success(o) {
        Decision::Success
    } else if attempt < cfg.max_retries && spec_retryable_outcome(cfg, o) {
        Decision::Retry(spec_backoff(attempt))
    } else {
        Decision::Fail
    }
}

/// Applies the decision rule to the outcome of attempt `attempt`.
pub fn decide(cfg: &RetryConfig, attempt: u32, o: &Outcome) -> (d: Decision)
    ensures
        d == spec_decide(*cfg, attempt as nat, *o),
{
    match o {
        Outcome::Response(s) => {
            if status_is_success(*s) {
                Decision::Success
            } else if attempt < cfg.max_retries && cfg.is_retryable_status(*s) {
                Decision::Retry(backoff_delay_ms(attempt))
            } else {
                Decision::Fail
            }
        },
        Outcome::TransportError => {
            if attempt < cfg.max_retries {
                Decision::Retry(backoff_delay_ms(attempt))
            } else {
                Decision::Fail
            }
        },
    }
}

} // verus!
