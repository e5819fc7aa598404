use llm_sdk::{
    Attempt, IntoRequest, Outcome, RetryAction, RetryMiddleware, RetryMode, RetryPolicy,
    RetryState, SpeechRequest, WhisperRequest,
};

fn middleware(max_retries: u32) -> RetryMiddleware {
    RetryMiddleware::from(RetryPolicy::with_max_retries(max_retries))
}

fn ended(outcome: Outcome) -> Attempt {
    Attempt { outcome, elapsed: 0 }
}

/// Runs a call whose attempts end as scripted and counts the sends.
fn run(
    middleware: &RetryMiddleware,
    content_type: Option<&[u8]>,
    time_limit: Option<u64>,
    script: &[Attempt],
) -> usize {
    let mut state = middleware.begin(content_type, time_limit);
    let mut sent = 0;
    for attempt in script {
        sent += 1;
        let (next, action) = middleware.handle(state, *attempt);
        state = next;
        if action == RetryAction::Return {
            break;
        }
    }
    sent
}

/// Runs a call without a time limit whose attempts end as scripted.
fn sends(middleware: &RetryMiddleware, content_type: Option<&[u8]>, script: &[Outcome]) -> usize {
    let script: Vec<Attempt> = script.iter().map(|outcome| ended(*outcome)).collect();
    run(middleware, content_type, None, &script)
}

#[test]
fn multipart_content_type_bypasses_retry() {
    assert_eq!(RetryMode::for_content_type(Some(b"multipart/form-data")), RetryMode::Bypass);
    assert_eq!(
        RetryMode::for_content_type(Some(b"multipart/form-data; boundary=0123-4567")),
        RetryMode::Bypass
    );
    assert_eq!(
        RetryMode::for_content_type(Some(b"x-multipart/form-data-y")),
        RetryMode::Bypass
    );
}

#[test]
fn octet_stream_bypasses_retry_only_when_exact() {
    assert_eq!(RetryMode::for_content_type(Some(b"application/octet-stream")), RetryMode::Bypass);
    assert_eq!(
        RetryMode::for_content_type(Some(b"application/octet-stream; charset=x")),
        RetryMode::Retry
    );
    assert_eq!(RetryMode::for_content_type(Some(b"application/octet-strea")), RetryMode::Retry);
}

#[test]
fn other_content_types_are_retried() {
    assert_eq!(RetryMode::for_content_type(None), RetryMode::Retry);
    assert_eq!(RetryMode::for_content_type(Some(b"")), RetryMode::Retry);
    assert_eq!(RetryMode::for_content_type(Some(b"application/json")), RetryMode::Retry);
    assert_eq!(RetryMode::for_content_type(Some(b"text/plain")), RetryMode::Retry);
    assert_eq!(RetryMode::for_content_type(Some(b"multipart/form-dat")), RetryMode::Retry);
    assert_eq!(RetryMode::for_content_type(Some(b"Multipart/Form-Data")), RetryMode::Retry);
}

#[test]
fn a_header_that_is_no_text_is_judged_by_its_bytes() {
    assert_eq!(
        RetryMode::for_content_type(Some(b"multipart/form-data; boundary=\xff")),
        RetryMode::Bypass
    );
    assert_eq!(
        RetryMode::for_content_type(Some(b"application/octet-stream\x7f")),
        RetryMode::Retry
    );
    assert_eq!(
        RetryMode::for_content_type(Some(b"multipart/form-data;\tboundary=a")),
        RetryMode::Bypass
    );
}

#[test]
fn an_unreadable_multipart_header_is_sent_once() {
    let m = middleware(3);
    let unavailable = ended(Outcome::from_status(503));
    assert_eq!(unavailable.outcome, Outcome::Transient);
    let content_type: &[u8] = b"multipart/form-data; boundary=\xff";
    assert_eq!(run(&m, Some(content_type), None, &[unavailable; 5]), 1);
    assert_eq!(run(&m, Some(content_type), Some(30_000), &[unavailable; 5]), 1);
    let state = m.begin(Some(content_type), None);
    assert_eq!(state.mode, RetryMode::Bypass);
    assert_eq!(m.handle(state, unavailable), (state, RetryAction::Return));
    assert_eq!(run(&m, Some(b"\x00\xfemultipart/form-data\x80"), None, &[unavailable; 5]), 1);
}

#[test]
fn requests_know_their_retry_mode() {
    let form = WhisperRequest::transcription(vec![1]).into_request("http://h");
    let json = SpeechRequest::new("hi").into_request("http://h");
    assert_eq!(form.retry_mode(), RetryMode::Bypass);
    assert_eq!(json.retry_mode(), RetryMode::Retry);
}

#[test]
fn bypass_sends_once_whatever_comes_back() {
    let m = middleware(3);
    for outcome in [Outcome::Success, Outcome::Transient, Outcome::Fatal] {
        let script = [outcome; 10];
        assert_eq!(sends(&m, Some(b"multipart/form-data; boundary=x"), &script), 1);
        assert_eq!(sends(&m, Some(b"application/octet-stream"), &script), 1);
    }
    let state = m.begin(Some(b"multipart/form-data"), Some(30_000));
    assert_eq!(
        state,
        RetryState { mode: RetryMode::Bypass, n_past_retries: 0, time_limit: Some(30_000) }
    );
    assert_eq!(m.handle(state, ended(Outcome::Transient)), (state, RetryAction::Return));
}

#[test]
fn retry_budget_allows_one_more_send_than_retries() {
    for max_retries in [0u32, 1, 3, 7] {
        let m = middleware(max_retries);
        let script = [Outcome::Transient; 20];
        assert_eq!(sends(&m, Some(b"application/json"), &script), max_retries as usize + 1);
        assert_eq!(sends(&m, None, &script), max_retries as usize + 1);
    }
}

#[test]
fn retry_stops_at_the_first_final_outcome() {
    let m = middleware(3);
    let t = Outcome::Transient;
    assert_eq!(sends(&m, None, &[Outcome::Success, t, t]), 1);
    assert_eq!(sends(&m, None, &[Outcome::Fatal, t, t]), 1);
    assert_eq!(sends(&m, None, &[t, Outcome::Success, t]), 2);
    assert_eq!(sends(&m, None, &[t, t, Outcome::Fatal, t]), 3);
    assert_eq!(sends(&m, None, &[t, t, t, Outcome::Success, t]), 4);
    assert_eq!(sends(&m, None, &[t, t, t, t, Outcome::Success]), 4);
}

/// The wait of a retry; panics where the action is to return.
fn wait_of(action: RetryAction) -> u64 {
    match action {
        RetryAction::Retry { wait } => wait,
        RetryAction::Return => panic!("no retry"),
    }
}

#[test]
fn handle_counts_retries_and_bounds_the_wait() {
    let m = middleware(2);
    let s0 = m.begin(Some(b"application/json"), None);
    assert_eq!(s0, RetryState { mode: RetryMode::Retry, n_past_retries: 0, time_limit: None });
    let (s1, a1) = m.handle(s0, ended(Outcome::Transient));
    assert_eq!(s1, RetryState { mode: RetryMode::Retry, n_past_retries: 1, time_limit: None });
    assert!(wait_of(a1) <= 1_800_000);
    let (s2, a2) = m.handle(s1, ended(Outcome::Transient));
    assert_eq!(s2.n_past_retries, 2);
    assert!(wait_of(a2) <= 1_800_000);
    let (s3, a3) = m.handle(s2, ended(Outcome::Transient));
    assert_eq!(s3, s2);
    assert_eq!(a3, RetryAction::Return);
    assert_eq!(m.handle(s0, ended(Outcome::Success)), (s0, RetryAction::Return));
    assert_eq!(m.handle(s0, ended(Outcome::Fatal)), (s0, RetryAction::Return));
}

#[test]
fn decide_takes_the_drawn_wait() {
    let m = middleware(2);
    let s0 = m.begin(None, None);
    let failed = ended(Outcome::Transient);
    let s1 = RetryState { mode: RetryMode::Retry, n_past_retries: 1, time_limit: None };
    assert_eq!(m.decide(s0, failed, Some(700)), (s1, RetryAction::Retry { wait: 700 }));
    assert_eq!(m.decide(s0, failed, Some(0)), (s1, RetryAction::Retry { wait: 0 }));
    assert_eq!(
        m.decide(s0, failed, Some(1_800_000)),
        (s1, RetryAction::Retry { wait: 1_800_000 })
    );
    assert_eq!(
        m.decide(s0, failed, Some(1_800_001)),
        (s1, RetryAction::Retry { wait: 1_800_000 })
    );
    assert_eq!(m.decide(s0, failed, Some(u64::MAX)), (s1, RetryAction::Retry { wait: 1_800_000 }));
    assert_eq!(m.decide(s0, failed, None), (s0, RetryAction::Return));
    assert_eq!(m.decide(s0, ended(Outcome::Success), Some(700)), (s0, RetryAction::Return));
    assert_eq!(m.decide(s0, ended(Outcome::Fatal), Some(700)), (s0, RetryAction::Return));
    let spent = RetryState { mode: RetryMode::Retry, n_past_retries: 2, time_limit: None };
    assert_eq!(m.decide(spent, failed, Some(700)), (spent, RetryAction::Return));
    let bypass = m.begin(Some(b"application/octet-stream"), None);
    assert_eq!(m.decide(bypass, failed, Some(700)), (bypass, RetryAction::Return));
}

#[test]
fn retries_stay_within_the_time_of_the_call() {
    let m = middleware(5);
    let s0 = m.begin(None, Some(30_000));
    assert_eq!(s0.remaining(0), Some(30_000));
    assert_eq!(s0.remaining(29_999), Some(1));
    assert_eq!(s0.remaining(30_000), Some(0));
    assert_eq!(s0.remaining(u64::MAX), Some(0));
    assert_eq!(m.begin(None, None).remaining(u64::MAX), None);
    let transient = |elapsed| Attempt { outcome: Outcome::Transient, elapsed };
    let (s1, a1) = m.decide(s0, transient(100), Some(1000));
    assert_eq!(a1, RetryAction::Retry { wait: 1000 });
    assert_eq!(s1.time_limit, Some(30_000));
    let (s2, a2) = m.decide(s1, transient(29_500), Some(2000));
    assert_eq!(a2, RetryAction::Retry { wait: 500 });
    let (s3, a3) = m.decide(s2, transient(29_999), Some(4000));
    assert_eq!(a3, RetryAction::Retry { wait: 1 });
    assert_eq!(s3.n_past_retries, 3);
    assert_eq!(m.decide(s3, transient(30_000), Some(8000)), (s3, RetryAction::Return));
    assert_eq!(m.handle(s3, transient(30_000)), (s3, RetryAction::Return));
    assert_eq!(m.handle(s3, transient(45_000)), (s3, RetryAction::Return));
    assert_eq!(m.handle(s0, transient(30_000)), (s0, RetryAction::Return));
    let (s4, a4) = m.handle(s3, transient(29_990));
    assert_eq!(s4.n_past_retries, 4);
    assert!(wait_of(a4) <= 10);
}

#[test]
fn a_call_that_ran_out_of_time_is_not_retried() {
    let m = middleware(3);
    let at = |elapsed| Attempt { outcome: Outcome::Transient, elapsed };
    assert_eq!(run(&m, None, Some(30_000), &[at(30_000), at(60_000), at(90_000)]), 1);
    assert_eq!(run(&m, None, Some(30_000), &[at(10_000), at(31_000), at(32_000)]), 2);
    assert_eq!(run(&m, None, Some(30_000), &[at(1), at(2), at(3), at(4), at(5)]), 4);
    assert_eq!(run(&m, None, Some(0), &[at(0), at(0)]), 1);
    assert_eq!(run(&m, None, None, &[at(u64::MAX), at(u64::MAX), at(u64::MAX)]), 3);
    assert_eq!(
        run(&m, Some(b"multipart/form-data"), Some(30_000), &[at(1), at(2)]),
        1
    );
}

#[test]
fn outcomes_by_status() {
    for status in 0u16..=1200 {
        let expected = if (500..=599).contains(&status) || status == 429 {
            Outcome::Transient
        } else if (200..=299).contains(&status) {
            Outcome::Success
        } else {
            Outcome::Fatal
        };
        assert_eq!(Outcome::from_status(status), expected, "status {}", status);
    }
    assert_eq!(Outcome::from_status(429), Outcome::Transient);
    assert_eq!(Outcome::from_status(408), Outcome::Fatal);
    assert_eq!(Outcome::from_status(404), Outcome::Fatal);
    assert_eq!(Outcome::from_status(503), Outcome::Transient);
    assert_eq!(Outcome::from_status(302), Outcome::Fatal);
    assert_eq!(Outcome::from_status(u16::MAX), Outcome::Fatal);
}

#[test]
fn default_policy() {
    let policy = RetryPolicy::with_max_retries(5);
    assert_eq!(policy.max_retries(), 5);
    assert_eq!(policy.min_retry_interval(), 1000);
    assert_eq!(policy.max_retry_interval(), 1_800_000);
    assert_eq!(policy.base(), 2);
    assert_eq!(Some(policy), RetryPolicy::new(5, 1000, 1_800_000, 2));
}

#[test]
fn a_policy_needs_intervals_that_can_be_configured() {
    let longest = u32::MAX as u64;
    assert!(RetryPolicy::new(3, 0, 0, 0).is_some());
    assert!(RetryPolicy::new(3, 5, 5, 1).is_some());
    assert!(RetryPolicy::new(u32::MAX, 0, longest, u32::MAX).is_some());
    assert!(RetryPolicy::new(3, longest, longest, 2).is_some());
    assert!(RetryPolicy::new(3, 2, 1, 2).is_none());
    assert!(RetryPolicy::new(3, 0, longest + 1, 2).is_none());
    assert!(RetryPolicy::new(3, u64::MAX, u64::MAX, 2).is_none());
    let policy = RetryPolicy::new(7, 10, 20, 3).unwrap();
    assert_eq!(
        (policy.max_retries(), policy.min_retry_interval(), policy.max_retry_interval()),
        (7, 10, 20)
    );
    assert_eq!(policy.base(), 3);
}

#[test]
fn the_backoff_answers_while_the_budget_lasts() {
    let policy = RetryPolicy::with_max_retries(4);
    for n in 0u32..4 {
        let wait = policy.draw_wait(n).unwrap();
        assert!(wait <= 1_800_000, "retry {}: {}", n, wait);
        assert!(wait <= 1000 << n, "retry {}: {}", n, wait);
    }
    assert_eq!(policy.draw_wait(4), None);
    assert_eq!(policy.draw_wait(5), None);
    assert_eq!(policy.draw_wait(u32::MAX), None);
    assert_eq!(RetryPolicy::with_max_retries(0).draw_wait(0), None);
    let long = RetryPolicy::with_max_retries(u32::MAX);
    assert!(long.draw_wait(40).unwrap() <= 1_800_000);
    assert!(long.draw_wait(u32::MAX - 1).unwrap() <= 1_800_000);
}

#[test]
fn the_backoff_of_other_policies_stays_within_their_longest_interval() {
    let longest = u32::MAX as u64;
    for (min, max, base) in [
        (0, 0, 2),
        (3, 3, 0),
        (3, 50, 0),
        (3, 50, 1),
        (3, 50, 10),
        (1, longest, u32::MAX),
        (longest, longest, 2),
    ] {
        let policy = RetryPolicy::new(9, min, max, base).unwrap();
        for n in 0u32..9 {
            let wait = policy.draw_wait(n).unwrap();
            assert!(wait <= max, "{:?} retry {}: {}", (min, max, base), n, wait);
        }
        assert_eq!(policy.draw_wait(9), None);
    }
}

#[test]
fn bounded_waits() {
    let policy = RetryPolicy::new(1, 10, 20, 2).unwrap();
    assert_eq!(policy.bound(None), None);
    assert_eq!(policy.bound(Some(0)), Some(0));
    assert_eq!(policy.bound(Some(20)), Some(20));
    assert_eq!(policy.bound(Some(21)), Some(20));
    assert_eq!(policy.bound(Some(u64::MAX)), Some(20));
}
