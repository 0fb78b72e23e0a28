use timetree_client::dispatch::{dispatch_outcomes, next_action, DispatchResult};
use timetree_client::retry::{backoff_delay_ms, decide, Decision, Outcome, RetryConfig};
use timetree_client::status_is_success;

/// Drives the live attempt loop the way the client binary does, over a fixed
/// outcome per attempt, and counts the retry-observer notifications.
fn run_loop(cfg: &RetryConfig, outcomes: &[Outcome]) -> (DispatchResult, u32) {
    let mut attempt: u32 = 0;
    let mut notified: u32 = 0;
    loop {
        let o = outcomes[attempt as usize];
        match next_action(cfg, attempt, &o) {
            Decision::Success => {
                let status = match o {
                    Outcome::Response(s) => s,
                    Outcome::TransportError => 0,
                };
                return (DispatchResult::Success { status, attempts: attempt as u64 + 1 }, notified);
            }
            Decision::Fail => {
                return (
                    DispatchResult::Failure { last: o, attempts: attempt as u64 + 1 },
                    notified,
                );
            }
            Decision::Retry(_delay) => {
                notified += 1;
                attempt += 1;
            }
        }
    }
}

#[test]
fn two_transient_failures_then_success() {
    let cfg = RetryConfig::new(2);
    let seq = vec![Outcome::Response(500), Outcome::Response(500), Outcome::Response(200)];
    let r = dispatch_outcomes(&cfg, &seq).unwrap();
    assert_eq!(r, DispatchResult::Success { status: 200, attempts: 3 });
    let (res, notified) = run_loop(&cfg, &seq);
    assert_eq!(res, r);
    assert_eq!(notified, 2);
}

#[test]
fn non_retryable_status_fails_at_once() {
    let cfg = RetryConfig::new(3);
    let seq = vec![Outcome::Response(404)];
    let r = dispatch_outcomes(&cfg, &seq).unwrap();
    assert_eq!(r, DispatchResult::Failure { last: Outcome::Response(404), attempts: 1 });
    let (res, notified) = run_loop(&cfg, &seq);
    assert_eq!(res, r);
    assert_eq!(notified, 0);
}

#[test]
fn exhausted_retries_keep_last_cause() {
    let cfg = RetryConfig::new(2);
    let seq = vec![Outcome::Response(503), Outcome::Response(503), Outcome::Response(503)];
    let r = dispatch_outcomes(&cfg, &seq).unwrap();
    assert_eq!(r, DispatchResult::Failure { last: Outcome::Response(503), attempts: 3 });
    let (res, notified) = run_loop(&cfg, &seq);
    assert_eq!(res, r);
    assert_eq!(notified, 2);
}

#[test]
fn transport_errors_retry_until_exhausted() {
    let cfg = RetryConfig::new(1);
    let seq = vec![Outcome::TransportError, Outcome::TransportError];
    let r = dispatch_outcomes(&cfg, &seq).unwrap();
    assert_eq!(r, DispatchResult::Failure { last: Outcome::TransportError, attempts: 2 });
}

#[test]
fn transport_error_then_success() {
    let cfg = RetryConfig::new(2);
    let seq = vec![Outcome::TransportError, Outcome::Response(201)];
    let r = dispatch_outcomes(&cfg, &seq).unwrap();
    assert_eq!(r, DispatchResult::Success { status: 201, attempts: 2 });
}

#[test]
fn too_few_outcomes_settle_nothing() {
    let cfg = RetryConfig::new(2);
    assert_eq!(dispatch_outcomes(&cfg, &vec![]), None);
    assert_eq!(dispatch_outcomes(&cfg, &vec![Outcome::Response(503)]), None);
}

#[test]
fn zero_retries_fail_on_first_transient() {
    let cfg = RetryConfig::new(0);
    let seq = vec![Outcome::Response(503)];
    let r = dispatch_outcomes(&cfg, &seq).unwrap();
    assert_eq!(r, DispatchResult::Failure { last: Outcome::Response(503), attempts: 1 });
}

#[test]
fn backoff_doubles_then_caps() {
    assert_eq!(backoff_delay_ms(0), 100);
    assert_eq!(backoff_delay_ms(1), 200);
    assert_eq!(backoff_delay_ms(2), 400);
    assert_eq!(backoff_delay_ms(3), 800);
    assert_eq!(backoff_delay_ms(6), 6400);
    assert_eq!(backoff_delay_ms(7), 10000);
    assert_eq!(backoff_delay_ms(100), 10000);
}

#[test]
fn decision_table() {
    let cfg = RetryConfig::new(2);
    assert_eq!(decide(&cfg, 0, &Outcome::Response(200)), Decision::Success);
    assert_eq!(decide(&cfg, 2, &Outcome::Response(301)), Decision::Success);
    assert_eq!(decide(&cfg, 0, &Outcome::Response(404)), Decision::Fail);
    assert_eq!(decide(&cfg, 0, &Outcome::Response(503)), Decision::Retry(100));
    assert_eq!(decide(&cfg, 1, &Outcome::Response(503)), Decision::Retry(200));
    assert_eq!(decide(&cfg, 2, &Outcome::Response(503)), Decision::Fail);
    assert_eq!(decide(&cfg, 0, &Outcome::TransportError), Decision::Retry(100));
    assert_eq!(decide(&cfg, 2, &Outcome::TransportError), Decision::Fail);
}

#[test]
fn default_retryable_set() {
    let cfg = RetryConfig::new(1);
    for s in [408u16, 413, 429, 500, 502, 503, 504] {
        assert!(cfg.is_retryable_status(s));
    }
    for s in [200u16, 301, 400, 401, 403, 404, 418, 501] {
        assert!(!cfg.is_retryable_status(s));
    }
}

#[test]
fn custom_retryable_set() {
    let cfg = RetryConfig::with_statuses(1, vec![599]);
    assert!(cfg.is_retryable_status(599));
    assert!(!cfg.is_retryable_status(503));
    assert_eq!(decide(&cfg, 0, &Outcome::Response(599)), Decision::Retry(100));
    assert_eq!(decide(&cfg, 0, &Outcome::Response(503)), Decision::Fail);
}

#[test]
fn dispatch_then_normalize_round() {
    let cfg = RetryConfig::new(2);
    let seq = vec![Outcome::Response(503), Outcome::TransportError, Outcome::Response(200)];
    let r = dispatch_outcomes(&cfg, &seq).unwrap();
    assert_eq!(r, DispatchResult::Success { status: 200, attempts: 3 });
    let body = "{\"id\":\"9\"}";
    let out = timetree_client::wire::normalize_response(Some(body)).unwrap();
    assert_eq!(out, "{\"data\":{\"id\":\"9\"},\"included\":[]}");
}

#[test]
fn success_statuses_span_2xx_and_3xx() {
    assert!(status_is_success(200));
    assert!(status_is_success(204));
    assert!(status_is_success(399));
    assert!(!status_is_success(199));
    assert!(!status_is_success(400));
    assert!(!status_is_success(500));
}
