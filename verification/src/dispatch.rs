//! The request dispatcher: the attempt loop that executes one transport call
//! per iteration, classifies its outcome through the retry policy, and stops
//! at the first terminal outcome.
//!
//! The loop body that performs real I/O lives with the caller: it sends the
//! request, turns what came back into an [`Outcome`], and asks [`decide`]
//! (via `next_action`) what to do. `dispatch_outcomes` runs the same loop
//! over an already-known outcome per attempt, which is the whole decision
//! logic of a dispatch with the transport factored out.

use vstd::prelude::*;

use crate::retry::{decide, spec_decide, spec_outcome_success, Decision, Outcome, RetryConfig};

verus! {

/// How one dispatch call resolved: exactly one successful response, or
/// exactly one terminal error, never both, never neither.
#[derive(Clone, Copy, Debug, PartialEq, Eq, Structural)]
pub enum DispatchResult {
    /// The response of the last attempt, which succeeded.
    Success { status: u16, attempts: u64 },
    /// The last attempt's outcome, preserved as the reported cause.
    Failure { last: Outcome, attempts: u64 },
}

/// The attempts a dispatch made, success or failure.
pub open spec fn attempts_of(r: DispatchResult) -> u64 {
    match r {
        DispatchResult::Success { attempts, .. } => attempts,
        DispatchResult::Failure { attempts, .. } => attempts,
    }
}

/// The status a successful response carried (0 for a transport error, which
/// never counts as success).
pub open spec fn status_of(o: Outcome) -> u16 {
    match o {
        Outcome::Response(s) => s,
        Outcome::TransportError => 0,
    }
}

/// Whether attempt `i` with outcome `o` ends the loop, one way or the other.
pub open spec fn spec_terminal(cfg: RetryConfig, i: nat, o: Outcome) -> bool {
    !(spec_decide(cfg, i, o) matches Decision::Retry(_))
}

/// An outcome sequence that settles the dispatch: some attempt the loop can
/// reach is terminal.
pub open spec fn adequate(cfg: RetryConfig, s: Seq<Outcome>) -> bool {
    exists|i: int|
        0 <= i < s.len() && i <= cfg.max_retries && spec_terminal(cfg, i as nat, #[trigger] s[i])
}

/// What the attempt loop resolves to, starting at attempt `i`: walk the
/// outcomes while the policy says retry, stop at the first terminal one.
/// (The fallback arm is never reached from an adequate sequence.)
pub open spec fn spec_dispatch(cfg: RetryConfig, s: Seq<Outcome>, i: nat) -> DispatchResult
    decreases s.len() - i,
{
    if i >= s.len() {
        DispatchResult::Failure { last: Outcome::TransportError, attempts: 0 }
    } else {
        let o = s[i as int];
        match spec_decide(cfg, i, o) {
            Decision::Success => DispatchResult::Success {
                status: status_of(o),
                attempts: (i + 1) as u64,
            },
            Decision::Retry(_) => spec_dispatch(cfg, s, i + 1),
            Decision::Fail => DispatchResult::Failure { last: o, attempts: (i + 1) as u64 },
        }
    }
}

/// Runs the attempt loop over one outcome per attempt: at most one attempt is
/// in flight at a time, and the loop stops at the first terminal outcome.
/// Returns `None` when the sequence runs out before any attempt the loop can
/// reach is terminal, which cannot happen with more than `max_retries`
/// outcomes supplied.
pub fn dispatch_outcomes(cfg: &RetryConfig, outcomes: &Vec<Outcome>) -> (r: Option<DispatchResult>)
    ensures
        match r {
            Some(res) => adequate(*cfg, outcomes@) && res == spec_dispatch(*cfg, outcomes@, 0),
            None => !adequate(*cfg, outcomes@),
        },
{
    let mut i: usize = 0;
    while i < outcomes.len()
        invariant
            i <= outcomes@.len(),
            i <= cfg.max_retries,
            forall|j: int| 0 <= j < i ==> !spec_terminal(*cfg, j as nat, #[trigger] outcomes@[j]),
            spec_dispatch(*cfg, outcomes@, 0) == spec_dispatch(*cfg, outcomes@, i as nat),
        decreases outcomes@.len() - i,
    {
        let o = outcomes[i];
        let d = decide(cfg, i as u32, &o);
        match d {
            Decision::Success => {
                let status = match o {
                    Outcome::Response(s) => s,
                    Outcome::TransportError => 0,
                };
                return Some(DispatchResult::Success { status, attempts: (i as u64) + 1 });
            },
            Decision::Fail => {
                return Some(DispatchResult::Failure { last: o, attempts: (i as u64) + 1 });
            },
            Decision::Retry(_) => {
                proof {
                    assert((i as nat) < cfg.max_retries);
                }
                i = i + 1;
            },
        }
    }
    None
}

/// Asks the policy what to do after attempt `attempt` came to `o`; the live
/// loop around the transport performs the returned action (hand the response
/// on, wait and retry, or report the terminal failure), notifying its
/// observer before every wait.
pub fn next_action(cfg: &RetryConfig, attempt: u32, o: &Outcome) -> (d: Decision)
    ensures
        d == spec_decide(*cfg, attempt as nat, *o),
{
    decide(cfg, attempt, o)
}

proof fn lemma_dispatch_bound_from(cfg: RetryConfig, s: Seq<Outcome>, i: nat)
    requires
        exists|t: int|
            i <= t < s.len() && t <= cfg.max_retries && spec_terminal(cfg, t as nat, #[trigger] s[t]),
    ensures
        attempts_of(spec_dispatch(cfg, s, i)) <= cfg.max_retries + 1,
        attempts_of(spec_dispatch(cfg, s, i)) >= i + 1,
    decreases s.len() - i,
{
    let t = choose|t: int|
        i <= t < s.len() && t <= cfg.max_retries && spec_terminal(cfg, t as nat, #[trigger] s[t]);
    assert(i < s.len());
    match spec_decide(cfg, i, s[i as int]) {
        Decision::Retry(_) => {
            assert(t != i);
            lemma_dispatch_bound_from(cfg, s, i + 1);
        },
        Decision::Success => {
        },
        Decision::Fail => {
            assert(i <= t);
        },
    }
}

/// The loop never retries indefinitely: an adequate dispatch resolves after
/// at most `max_retries + 1` attempts, and makes at least one.
pub proof fn lemma_dispatch_attempt_bound(cfg: RetryConfig, s: Seq<Outcome>)
    requires
        adequate(cfg, s),
    ensures
        1 <= attempts_of(spec_dispatch(cfg, s, 0)) <= cfg.max_retries + 1,
{
    lemma_dispatch_bound_from(cfg, s, 0);
}

proof fn lemma_dispatch_first_terminal_from(cfg: RetryConfig, s: Seq<Outcome>, i: nat)
    requires
        s.len() <= u64::MAX,
        exists|t: int|
            i <= t < s.len() && t <= cfg.max_retries && spec_terminal(cfg, t as nat, #[trigger] s[t]),
    ensures
        i + 1 <= attempts_of(spec_dispatch(cfg, s, i)) <= s.len(),
        forall|j: int|
            i <= j < attempts_of(spec_dispatch(cfg, s, i)) - 1 ==> !spec_terminal(
                cfg,
                j as nat,
                #[trigger] s[j],
            ),
        spec_terminal(
            cfg,
            (attempts_of(spec_dispatch(cfg, s, i)) - 1) as nat,
            s[attempts_of(spec_dispatch(cfg, s, i)) - 1],
        ),
    decreases s.len() - i,
{
    let t = choose|t: int|
        i <= t < s.len() && t <= cfg.max_retries && spec_terminal(cfg, t as nat, #[trigger] s[t]);
    assert(i < s.len());
    match spec_decide(cfg, i, s[i as int]) {
        Decision::Retry(_) => {
            assert(t != i);
            lemma_dispatch_first_terminal_from(cfg, s, i + 1);
        },
        Decision::Success => {
        },
        Decision::Fail => {
        },
    }
}

/// The loop stops at the first terminal outcome: before the attempt that
/// resolved the dispatch, every attempt's outcome was classified as a retry
/// (so the retry observer is notified exactly `attempts - 1` times), and the
/// resolving attempt's outcome was terminal.
pub proof fn lemma_dispatch_stops_at_first_terminal(cfg: RetryConfig, s: Seq<Outcome>)
    requires
        adequate(cfg, s),
        s.len() <= u64::MAX,
    ensures
        1 <= attempts_of(spec_dispatch(cfg, s, 0)) <= s.len(),
        forall|j: int|
            0 <= j < attempts_of(spec_dispatch(cfg, s, 0)) - 1 ==> !spec_terminal(
                cfg,
                j as nat,
                #[trigger] s[j],
            ),
        spec_terminal(
            cfg,
            (attempts_of(spec_dispatch(cfg, s, 0)) - 1) as nat,
            s[attempts_of(spec_dispatch(cfg, s, 0)) - 1],
        ),
{
    lemma_dispatch_first_terminal_from(cfg, s, 0);
}

/// A dispatch that fails carries the outcome of its last attempt as the
/// reported cause, and that attempt was terminal for the policy.
pub proof fn lemma_dispatch_failure_cause(cfg: RetryConfig, s: Seq<Outcome>, i: nat)
    requires
        spec_dispatch(cfg, s, i) matches DispatchResult::Failure { last, attempts },
        i < s.len() <= u64::MAX,
        attempts_of(spec_dispatch(cfg, s, i)) >= 1,
    ensures
        spec_dispatch(cfg, s, i) matches DispatchResult::Failure { last, attempts } && {
            &&& last == s[attempts - 1]
            &&& spec_decide(cfg, (attempts - 1) as nat, last) is Fail
            &&& !spec_outcome_success(last)
        },
    decreases s.len() - i,
{
    match spec_decide(cfg, i, s[i as int]) {
        Decision::Retry(_) => {
            if i + 1 < s.len() {
                lemma_dispatch_failure_cause(cfg, s, i + 1);
            }
        },
        Decision::Success => {
        },
        Decision::Fail => {
        },
    }
}

} // verus!
