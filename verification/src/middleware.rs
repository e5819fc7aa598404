//! The retry middleware: whether a request may be sent again at all, and what
//! follows each attempt.
use reqwest_retry::policies::ExponentialBackoff;
use retry_policies::RetryDecision;
use std::time::{Duration, SystemTime};
use vstd::prelude::*;
use vstd::string::*;
use vstd::utf8::{is_ascii_chars, is_ascii_chars_encode_utf8};
use crate::status::{is_server_error, is_success, TOO_MANY_REQUESTS};

verus! {

/// Whether `needle` stands in `haystack` at position `at`.
pub open spec fn occurs_at(haystack: Seq<u8>, needle: Seq<u8>, at: int) -> bool {
    &&& 0 <= at
    &&& at + needle.len() <= haystack.len()
    &&& haystack.subrange(at, at + needle.len()) == needle
}

/// Whether `needle` stands somewhere in `haystack`.
pub open spec fn contains(haystack: Seq<u8>, needle: Seq<u8>) -> bool {
    exists|at: int| occurs_at(haystack, needle, at)
}

/// The media type of a multipart form.
pub open spec fn multipart_form_data() -> Seq<u8> {
    "multipart/form-data".spec_bytes()
}

/// The media type of a raw byte stream.
pub open spec fn octet_stream() -> Seq<u8> {
    "application/octet-stream".spec_bytes()
}

/// Whether a request with this content type must not be sent twice: its
/// header mentions a multipart form or is exactly the type of a raw byte
/// stream. A request without the header, or with any other value, may be
/// retried.
pub open spec fn bypasses_retry(content_type: Option<Seq<u8>>) -> bool {
    match content_type {
        Some(value) => contains(value, multipart_form_data()) || value == octet_stream(),
        None => false,
    }
}

fn matches_at(haystack: &[u8], needle: &[u8], at: usize) -> (res: bool)
    requires
        at + needle@.len() <= haystack@.len(),
    ensures
        res == occurs_at(haystack@, needle@, at as int),
{
    let ghost window = haystack@.subrange(at as int, at + needle@.len());
    let mut i: usize = 0;
    while i < needle.len()
        invariant
            i <= needle.len(),
            at + needle.len() <= haystack.len(),
            window == haystack@.subrange(at as int, at + needle@.len()),
            forall|j: int| 0 <= j < i ==> window[j] == needle@[j],
        decreases needle.len() - i,
    {
        if haystack[at + i] != needle[i] {
            assert(window[i as int] != needle@[i as int]);
            return false;
        }
        i = i + 1;
    }
    assert(window =~= needle@);
    true
}

fn find(haystack: &[u8], needle: &[u8]) -> (res: bool)
    ensures
        res == contains(haystack@, needle@),
{
    if needle.len() > haystack.len() {
        return false;
    }
    let last: usize = haystack.len() - needle.len();
    let mut at: usize = 0;
    loop
        invariant
            at <= last,
            last == haystack@.len() - needle@.len(),
            forall|k: int| 0 <= k < at ==> !occurs_at(haystack@, needle@, k),
        decreases last - at,
    {
        if matches_at(haystack, needle, at) {
            return true;
        }
        if at == last {
            return false;
        }
        at = at + 1;
    }
}

fn same_bytes(a: &[u8], b: &[u8]) -> (res: bool)
    ensures
        res == (a@ == b@),
{
    if a.len() != b.len() {
        return false;
    }
    let res = matches_at(a, b, 0);
    assert(a@.subrange(0, a@.len() as int) =~= a@);
    res
}

/// Whether a request takes part in retrying.
#[derive(Debug, Clone, Copy, PartialEq, Eq, Structural)]
pub enum RetryMode {
    /// The request is sent once; whatever comes back is the result.
    Bypass,
    /// A transient failure is answered by another attempt.
    Retry,
}

impl RetryMode {
    /// The mode that a content type calls for.
    pub open spec fn of(content_type: Option<Seq<u8>>) -> RetryMode {
        if bypasses_retry(content_type) {
            RetryMode::Bypass
        } else {
            RetryMode::Retry
        }
    }

    /// Decides from the raw value of the `Content-Type` header, if there is
    /// one, whether the request may be retried.
    pub fn for_content_type(content_type: Option<&[u8]>) -> (res: RetryMode)
        ensures
            res == RetryMode::of(
                match content_type {
                    Some(value) => Some(value@),
                    None => None,
                },
            ),
    {
        match content_type {
            Some(value) => {
                if find(value, "multipart/form-data".as_bytes()) || same_bytes(
                    value,
                    "application/octet-stream".as_bytes(),
                ) {
                    RetryMode::Bypass
                } else {
                    RetryMode::Retry
                }
            },
            None => RetryMode::Retry,
        }
    }
}

/// The lengths of the two media types that are named as unsafe to resend,
/// and of the media type of JSON: each has one byte for each character.
pub proof fn lemma_media_type_bytes()
    ensures
        multipart_form_data().len() == 19,
        octet_stream().len() == 24,
        "application/json".spec_bytes().len() == 16,
{
    reveal_strlit("multipart/form-data");
    reveal_strlit("application/octet-stream");
    reveal_strlit("application/json");
    assert(is_ascii_chars("multipart/form-data"@));
    assert(is_ascii_chars("application/octet-stream"@));
    assert(is_ascii_chars("application/json"@));
    is_ascii_chars_encode_utf8("multipart/form-data"@);
    is_ascii_chars_encode_utf8("application/octet-stream"@);
    is_ascii_chars_encode_utf8("application/json"@);
}

/// A request whose content type is that of a multipart form, or exactly that
/// of a raw byte stream, bypasses retrying.
pub proof fn lemma_unsafe_content_types_bypass(value: Seq<u8>)
    requires
        value == multipart_form_data() || value == octet_stream(),
    ensures
        RetryMode::of(Some(value)) == RetryMode::Bypass,
{
    lemma_media_type_bytes();
    if value == multipart_form_data() {
        assert(value.subrange(0, 0 + value.len() as int) =~= value);
        assert(occurs_at(value, multipart_form_data(), 0));
    }
}

/// A content type that mentions a multipart form anywhere, as it does when
/// a boundary follows, bypasses retrying, whatever other bytes it holds.
pub proof fn lemma_multipart_mention_bypasses(value: Seq<u8>)
    requires
        contains(value, multipart_form_data()),
    ensures
        RetryMode::of(Some(value)) == RetryMode::Bypass,
{
}

/// A request without a content type, and a request that carries JSON, take
/// part in retrying.
pub proof fn lemma_plain_requests_retry()
    ensures
        RetryMode::of(None) == RetryMode::Retry,
        RetryMode::of(Some("application/json".spec_bytes())) == RetryMode::Retry,
{
    lemma_media_type_bytes();
    let json = "application/json".spec_bytes();
    assert forall|at: int| !occurs_at(json, multipart_form_data(), at) by {}
}

/// How an attempt ended, as far as retrying is concerned.
#[derive(Debug, Clone, Copy, PartialEq, Eq, Structural)]
pub enum Outcome {
    /// A response that reports success.
    Success,
    /// A failure that another attempt may cure: the network failed, or the
    /// server answered with a 5xx status or with 429.
    Transient,
    /// Any other response or failure.
    Fatal,
}

impl Outcome {
    /// The outcome that a response with this status is.
    pub open spec fn of_status(status: u16) -> Outcome {
        if (500 <= status && status <= 599) || status == 429 {
            Outcome::Transient
        } else if 200 <= status && status <= 299 {
            Outcome::Success
        } else {
            Outcome::Fatal
        }
    }

    /// Classifies a response by its status.
    pub fn from_status(status: u16) -> (res: Outcome)
        ensures
            res == Outcome::of_status(status),
    {
        if is_server_error(status) || status == TOO_MANY_REQUESTS {
            Outcome::Transient
        } else if is_success(status) {
            Outcome::Success
        } else {
            Outcome::Fatal
        }
    }
}

/// The longest interval that a policy can name, in milliseconds: the largest
/// 32-bit number, about seven weeks.
pub const LONGEST_INTERVAL: u64 = 4294967295;

/// The wait before the first retry when none is configured: one second.
pub const DEFAULT_MIN_RETRY_INTERVAL: u64 = 1000;

/// The longest wait when none is configured: thirty minutes.
pub const DEFAULT_MAX_RETRY_INTERVAL: u64 = 1800000;

/// The growth factor when none is configured.
pub const DEFAULT_BASE: u32 = 2;

/// How often and how patiently a failed attempt is repeated: the
/// configuration of an exponential backoff.
#[derive(Debug, Clone, Copy, PartialEq, Eq, Structural)]
pub struct RetryPolicy {
    max_retries: u32,
    min_retry_interval: u64,
    max_retry_interval: u64,
    base: u32,
}

/// The mathematical content of a [`RetryPolicy`].
pub struct RetryPolicyView {
    /// The number of attempts that may follow the first one.
    pub max_retries: u32,
    /// The wait before the first retry, in milliseconds.
    pub min_retry_interval: u64,
    /// The longest wait between two attempts, in milliseconds.
    pub max_retry_interval: u64,
    /// The factor by which the wait grows from one retry to the next.
    pub base: u32,
}

impl RetryPolicyView {
    /// Whether the intervals can be configured: the first is not longer
    /// than the longest, and the longest is within [`LONGEST_INTERVAL`].
    pub open spec fn is_valid(self) -> bool {
        self.min_retry_interval <= self.max_retry_interval && self.max_retry_interval
            <= LONGEST_INTERVAL
    }

    /// The policy with `max_retries` retries, the default intervals and the
    /// default growth.
    pub open spec fn exponential(max_retries: u32) -> RetryPolicyView {
        RetryPolicyView {
            max_retries,
            min_retry_interval: DEFAULT_MIN_RETRY_INTERVAL,
            max_retry_interval: DEFAULT_MAX_RETRY_INTERVAL,
            base: DEFAULT_BASE,
        }
    }
}

impl View for RetryPolicy {
    type V = RetryPolicyView;

    closed spec fn view(&self) -> RetryPolicyView {
        RetryPolicyView {
            max_retries: self.max_retries,
            min_retry_interval: self.min_retry_interval,
            max_retry_interval: self.max_retry_interval,
            base: self.base,
        }
    }
}

/// `ExponentialBackoff::should_retry` of `retry_policies`, which
/// `reqwest_retry` hands on, asked of the policy that
/// `ExponentialBackoff::builder` makes of these intervals, this base and this
/// budget: the wait until the instant that the policy names, in milliseconds,
/// or `None` where the policy says not to retry. The policy says so exactly
/// when the budget is used up. The wait is drawn at random and measured
/// against the clock, so nothing is claimed of it. Intervals that are no
/// valid configuration are left out: the builder panics where the first is
/// longer than the longest, and the policy where an interval is beyond what
/// its arithmetic of durations and dates can hold.
#[verifier::external_body]
fn should_retry(policy: &RetryPolicy, n_past_retries: u32) -> (res: Option<u64>)
    requires
        policy@.is_valid(),
    ensures
        res is None <==> policy@.max_retries <= n_past_retries,
{
    let backoff = ExponentialBackoff::builder()
        .retry_bounds(
            Duration::from_millis(policy.min_retry_interval),
            Duration::from_millis(policy.max_retry_interval),
        )
        .base(policy.base)
        .build_with_max_retries(policy.max_retries);
    match reqwest_retry::RetryPolicy::should_retry(&backoff, n_past_retries) {
        RetryDecision::Retry { execute_after } => {
            let wait = SystemTime::from(execute_after).duration_since(SystemTime::now());
            Some(wait.unwrap_or_default().as_millis() as u64)
        },
        RetryDecision::DoNotRetry => None,
    }
}

impl RetryPolicy {
    #[verifier::type_invariant]
    spec fn well_formed(self) -> bool {
        self@.is_valid()
    }

    /// The policy with the given content.
    pub closed spec fn of(view: RetryPolicyView) -> RetryPolicy {
        RetryPolicy {
            max_retries: view.max_retries,
            min_retry_interval: view.min_retry_interval,
            max_retry_interval: view.max_retry_interval,
            base: view.base,
        }
    }

    /// A policy is known by its content.
    pub proof fn lemma_known_by_content(self, view: RetryPolicyView)
        ensures
            RetryPolicy::of(view)@ == view,
            RetryPolicy::of(self@) == self,
    {
    }

    /// A policy of exponential backoff with the default intervals.
    pub fn with_max_retries(max_retries: u32) -> (res: RetryPolicy)
        ensures
            res@ == RetryPolicyView::exponential(max_retries),
            res == RetryPolicy::of(RetryPolicyView::exponential(max_retries)),
    {
        RetryPolicy {
            max_retries,
            min_retry_interval: DEFAULT_MIN_RETRY_INTERVAL,
            max_retry_interval: DEFAULT_MAX_RETRY_INTERVAL,
            base: DEFAULT_BASE,
        }
    }

    /// A policy with intervals and growth of one's own, where they are a
    /// valid configuration.
    pub fn new(
        max_retries: u32,
        min_retry_interval: u64,
        max_retry_interval: u64,
        base: u32,
    ) -> (res: Option<RetryPolicy>)
        ensures
            ({
                let view = RetryPolicyView {
                    max_retries,
                    min_retry_interval,
                    max_retry_interval,
                    base,
                };
                match res {
                    Some(policy) => view.is_valid() && policy@ == view,
                    None => !view.is_valid(),
                }
            }),
    {
        if min_retry_interval <= max_retry_interval && max_retry_interval <= LONGEST_INTERVAL {
            Some(RetryPolicy { max_retries, min_retry_interval, max_retry_interval, base })
        } else {
            None
        }
    }

    /// The number of attempts that may follow the first one.
    pub fn max_retries(&self) -> (res: u32)
        ensures
            res == self@.max_retries,
    {
        self.max_retries
    }

    /// The wait before the first retry, in milliseconds.
    pub fn min_retry_interval(&self) -> (res: u64)
        ensures
            res == self@.min_retry_interval,
    {
        self.min_retry_interval
    }

    /// The longest wait between two attempts, in milliseconds.
    pub fn max_retry_interval(&self) -> (res: u64)
        ensures
            res == self@.max_retry_interval,
            self@.is_valid(),
    {
        proof {
            use_type_invariant(self);
        }
        self.max_retry_interval
    }

    /// The factor by which the wait grows from one retry to the next.
    pub fn base(&self) -> (res: u32)
        ensures
            res == self@.base,
    {
        self.base
    }

    /// The wait that the policy comes to for a drawn wait: the drawn wait,
    /// but never longer than the longest interval.
    pub open spec fn bounded(self, drawn: Option<u64>) -> Option<u64> {
        match drawn {
            Some(wait) => Some(
                if wait > self@.max_retry_interval {
                    self@.max_retry_interval
                } else {
                    wait
                },
            ),
            None => None,
        }
    }

    /// Computes [`RetryPolicy::bounded`].
    pub fn bound(&self, drawn: Option<u64>) -> (res: Option<u64>)
        ensures
            res == self.bounded(drawn),
    {
        match drawn {
            Some(wait) => Some(
                if wait > self.max_retry_interval {
                    self.max_retry_interval
                } else {
                    wait
                },
            ),
            None => None,
        }
    }

    /// Draws the wait before the retry that follows `n_past_retries` earlier
    /// ones: `None` exactly when the budget of retries is used up, and
    /// otherwise a wait that the backoff draws, never longer than the longest
    /// interval. Two draws for the same retry may differ.
    pub fn draw_wait(&self, n_past_retries: u32) -> (res: Option<u64>)
        ensures
            res is None <==> self@.max_retries <= n_past_retries,
            res matches Some(wait) ==> wait <= self@.max_retry_interval,
    {
        proof {
            use_type_invariant(self);
        }
        self.bound(should_retry(self, n_past_retries))
    }
}

/// The middleware that repeats attempts that failed for a passing reason.
#[derive(Debug, Clone, Copy, PartialEq, Eq, Structural)]
pub struct RetryMiddleware {
    pub policy: RetryPolicy,
}

/// The progress of one call through the middleware.
#[derive(Debug, Clone, Copy, PartialEq, Eq, Structural)]
pub struct RetryState {
    pub mode: RetryMode,
    /// The number of retries made so far.
    pub n_past_retries: u32,
    /// The time allowed for the whole call, every attempt and every wait
    /// included, in milliseconds. `None` where the call has no limit.
    pub time_limit: Option<u64>,
}

/// The end of one attempt.
#[derive(Debug, Clone, Copy, PartialEq, Eq, Structural)]
pub struct Attempt {
    pub outcome: Outcome,
    /// The time since the call began, in milliseconds.
    pub elapsed: u64,
}

/// What the middleware does once an attempt has ended.
#[derive(Debug, Clone, Copy, PartialEq, Eq, Structural)]
pub enum RetryAction {
    /// The last outcome is handed to the caller as it is.
    Return,
    /// The same request is sent once more, after a wait of `wait`
    /// milliseconds.
    Retry { wait: u64 },
}

impl RetryState {
    /// The time that is left of the limit once `elapsed` milliseconds have
    /// passed: nothing once the limit is reached.
    pub open spec fn time_left(self, elapsed: u64) -> Option<u64> {
        match self.time_limit {
            Some(limit) => Some(
                if elapsed >= limit {
                    0
                } else {
                    (limit - elapsed) as u64
                },
            ),
            None => None,
        }
    }

    /// The state once one more retry is under way.
    pub open spec fn advanced(self) -> RetryState {
        RetryState { n_past_retries: (self.n_past_retries + 1) as u32, ..self }
    }

    /// Computes [`RetryState::time_left`]: the time that the next attempt
    /// may take.
    pub fn remaining(&self, elapsed: u64) -> (res: Option<u64>)
        ensures
            res == self.time_left(elapsed),
    {
        match self.time_limit {
            Some(limit) => Some(
                if elapsed >= limit {
                    0
                } else {
                    limit - elapsed
                },
            ),
            None => None,
        }
    }
}

/// The smaller of a wait and the time that is left, if time is limited.
pub open spec fn capped_wait(wait: u64, time_left: Option<u64>) -> u64 {
    match time_left {
        Some(left) => if left < wait {
            left
        } else {
            wait
        },
        None => wait,
    }
}

impl RetryMiddleware {
    /// The state of a call before its first attempt.
    pub open spec fn initial(mode: RetryMode, time_limit: Option<u64>) -> RetryState {
        RetryState { mode, n_past_retries: 0, time_limit }
    }

    /// Whether another attempt follows `attempt`: the request may be sent
    /// again, the attempt failed for a passing reason, the budget of retries
    /// is not used up, and the time of the call is not over.
    pub open spec fn retries(self, state: RetryState, attempt: Attempt) -> bool {
        &&& state.mode == RetryMode::Retry
        &&& attempt.outcome == Outcome::Transient
        &&& state.n_past_retries < self.policy@.max_retries
        &&& state.time_left(attempt.elapsed) != Some(0u64)
    }

    /// The state and the action that follow an attempt, given the wait that
    /// the backoff drew, or `None` where it allows no retry. The wait is cut
    /// to the longest interval of the policy and to the time that is left.
    pub open spec fn step(self, state: RetryState, attempt: Attempt, drawn: Option<u64>) -> (
        RetryState,
        RetryAction,
    ) {
        match self.policy.bounded(drawn) {
            Some(wait) if self.retries(state, attempt) => (
                state.advanced(),
                RetryAction::Retry { wait: capped_wait(wait, state.time_left(attempt.elapsed)) },
            ),
            _ => (state, RetryAction::Return),
        }
    }

    /// The number of attempts that a call in `state` makes from its attempt
    /// number `from` on, when attempt `i` ends as `script[i]` says. The call
    /// ends with the script at the latest.
    pub open spec fn attempts(self, state: RetryState, script: Seq<Attempt>, from: int) -> nat
        decreases script.len() - from,
    {
        if 0 <= from < script.len() {
            if self.retries(state, script[from]) {
                1 + self.attempts(state.advanced(), script, from + 1)
            } else {
                1
            }
        } else {
            0
        }
    }

    /// The attempt whose outcome the call hands to its caller: the last one
    /// that it makes.
    pub open spec fn returned(self, state: RetryState, script: Seq<Attempt>, from: int) -> Option<
        Attempt,
    > {
        if self.attempts(state, script, from) == 0 {
            None
        } else {
            Some(script[from + self.attempts(state, script, from) - 1])
        }
    }

    /// Begins a call: looks at the content type of the request and notes the
    /// time that the call may take.
    pub fn begin(&self, content_type: Option<&[u8]>, time_limit: Option<u64>) -> (res: RetryState)
        ensures
            res == Self::initial(
                RetryMode::of(
                    match content_type {
                        Some(value) => Some(value@),
                        None => None,
                    },
                ),
                time_limit,
            ),
    {
        RetryState {
            mode: RetryMode::for_content_type(content_type),
            n_past_retries: 0,
            time_limit,
        }
    }

    /// Decides what follows an attempt, given what the backoff drew.
    pub fn decide(&self, state: RetryState, attempt: Attempt, drawn: Option<u64>) -> (res: (
        RetryState,
        RetryAction,
    ))
        ensures
            res == self.step(state, attempt, drawn),
    {
        let time_left = state.remaining(attempt.elapsed);
        let in_time = match time_left {
            Some(left) => left != 0,
            None => true,
        };
        let may_retry = match (state.mode, attempt.outcome) {
            (RetryMode::Retry, Outcome::Transient) => state.n_past_retries
                < self.policy.max_retries() && in_time,
            _ => false,
        };
        match self.policy.bound(drawn) {
            Some(wait) => {
                if may_retry {
                    let wait = match time_left {
                        Some(left) => if left < wait {
                            left
                        } else {
                            wait
                        },
                        None => wait,
                    };
                    (
                        RetryState {
                            mode: state.mode,
                            n_past_retries: state.n_past_retries + 1,
                            time_limit: state.time_limit,
                        },
                        RetryAction::Retry { wait },
                    )
                } else {
                    (state, RetryAction::Return)
                }
            },
            None => (state, RetryAction::Return),
        }
    }

    /// Decides what follows an attempt: draws the wait from the backoff and
    /// decides by it. Another attempt follows exactly when
    /// [`RetryMiddleware::retries`] says so; its wait is within the longest
    /// interval of the policy and within the time that the call has left.
    pub fn handle(&self, state: RetryState, attempt: Attempt) -> (res: (RetryState, RetryAction))
        ensures
            res.1 is Retry <==> self.retries(state, attempt),
            res.0 == if self.retries(state, attempt) {
                state.advanced()
            } else {
                state
            },
            res.1 matches RetryAction::Retry { wait } ==> wait <= self.policy@.max_retry_interval
                && capped_wait(wait, state.time_left(attempt.elapsed)) == wait,
    {
        let drawn = self.policy.draw_wait(state.n_past_retries);
        self.decide(state, attempt, drawn)
    }

    /// A request that bypasses retrying is sent at most once, however its
    /// attempt ends.
    pub proof fn lemma_bypass_sends_once(self, time_limit: Option<u64>, script: Seq<Attempt>)
        ensures
            self.attempts(Self::initial(RetryMode::Bypass, time_limit), script, 0) <= 1,
    {
    }

    /// A request whose content type mentions a multipart form, or is exactly
    /// that of a raw byte stream, is sent at most once, whatever the status of
    /// the response.
    pub proof fn lemma_unsafe_content_types_send_once(
        self,
        content_type: Seq<u8>,
        time_limit: Option<u64>,
        script: Seq<Attempt>,
    )
        requires
            contains(content_type, multipart_form_data()) || content_type == octet_stream(),
        ensures
            self.attempts(
                Self::initial(RetryMode::of(Some(content_type)), time_limit),
                script,
                0,
            ) <= 1,
    {
        self.lemma_bypass_sends_once(time_limit, script);
    }

    /// A call makes at most as many attempts as its budget has left, and one
    /// more.
    pub proof fn lemma_attempts_within_budget(
        self,
        state: RetryState,
        script: Seq<Attempt>,
        from: int,
    )
        requires
            state.n_past_retries <= self.policy@.max_retries,
        ensures
            self.attempts(state, script, from) <= self.policy@.max_retries - state.n_past_retries
                + 1,
        decreases script.len() - from,
    {
        if 0 <= from < script.len() && self.retries(state, script[from]) {
            self.lemma_attempts_within_budget(state.advanced(), script, from + 1);
        }
    }

    /// With `max_retries` retries configured, a call makes at most
    /// `max_retries + 1` attempts.
    pub proof fn lemma_retry_budget(
        self,
        mode: RetryMode,
        time_limit: Option<u64>,
        script: Seq<Attempt>,
    )
        ensures
            self.attempts(Self::initial(mode, time_limit), script, 0) <= self.policy@.max_retries
                + 1,
    {
        self.lemma_attempts_within_budget(Self::initial(mode, time_limit), script, 0);
    }

    /// A call stops at the first attempt that does not end in a transient
    /// failure: no attempt follows it.
    pub proof fn lemma_stops_at_first_final_outcome(
        self,
        state: RetryState,
        script: Seq<Attempt>,
        from: int,
        stop: int,
    )
        requires
            0 <= from <= stop < script.len(),
            script[stop].outcome != Outcome::Transient,
        ensures
            self.attempts(state, script, from) <= stop - from + 1,
        decreases stop - from,
    {
        if from < stop && self.retries(state, script[from]) {
            self.lemma_stops_at_first_final_outcome(state.advanced(), script, from + 1, stop);
        }
    }

    /// A call stops at the first attempt that ends when its time is over: no
    /// attempt follows it.
    pub proof fn lemma_stops_at_time_limit(
        self,
        state: RetryState,
        script: Seq<Attempt>,
        from: int,
        stop: int,
    )
        requires
            0 <= from <= stop < script.len(),
            state.time_limit matches Some(limit) && script[stop].elapsed >= limit,
        ensures
            self.attempts(state, script, from) <= stop - from + 1,
        decreases stop - from,
    {
        if from < stop && self.retries(state, script[from]) {
            self.lemma_stops_at_time_limit(state.advanced(), script, from + 1, stop);
        }
    }

    /// Whatever wait the backoff draws, the wait that is taken is no longer,
    /// it is within the longest interval of the policy, and it ends within
    /// the time of the call.
    pub proof fn lemma_wait_within_limits(self, state: RetryState, attempt: Attempt, drawn: u64)
        requires
            self.retries(state, attempt),
        ensures
            self.step(state, attempt, Some(drawn)).1 matches RetryAction::Retry { wait } && wait
                <= drawn && wait <= self.policy@.max_retry_interval && (state.time_limit matches Some(
                limit,
            ) ==> attempt.elapsed + wait <= limit),
    {
    }

    /// While the budget and the time last and the attempts keep failing for a
    /// passing reason, a call that may retry keeps trying. It makes exactly
    /// as many attempts as lead up to the first other outcome, and that
    /// outcome is what it hands to its caller.
    pub proof fn lemma_retries_until_final_outcome(
        self,
        state: RetryState,
        script: Seq<Attempt>,
        from: int,
        stop: int,
    )
        requires
            state.mode == RetryMode::Retry,
            0 <= from <= stop < script.len(),
            forall|i: int| from <= i < stop ==> (#[trigger] script[i]).outcome == Outcome::Transient,
            forall|i: int|
                from <= i < stop ==> state.time_left((#[trigger] script[i]).elapsed) != Some(0u64),
            script[stop].outcome != Outcome::Transient,
            state.n_past_retries + (stop - from) <= self.policy@.max_retries,
        ensures
            self.attempts(state, script, from) == stop - from + 1,
            self.returned(state, script, from) == Some(script[stop]),
        decreases stop - from,
    {
        if from < stop {
            let next = state.advanced();
            assert(forall|elapsed: u64| next.time_left(elapsed) == state.time_left(elapsed));
            self.lemma_retries_until_final_outcome(next, script, from + 1, stop);
        }
    }

    /// A call without a time limit that may retry: when its attempt number
    /// `k`, within the budget, is the first that does not end in a transient
    /// failure, it makes exactly `k` attempts and hands the outcome of the
    /// last one to its caller.
    pub proof fn lemma_exact_attempts_without_time_limit(
        self,
        script: Seq<Attempt>,
        k: int,
    )
        requires
            1 <= k <= script.len(),
            k <= self.policy@.max_retries + 1,
            forall|i: int| 0 <= i < k - 1 ==> (#[trigger] script[i]).outcome == Outcome::Transient,
            script[k - 1].outcome != Outcome::Transient,
        ensures
            self.attempts(Self::initial(RetryMode::Retry, None), script, 0) == k,
            self.returned(Self::initial(RetryMode::Retry, None), script, 0) == Some(script[k - 1]),
    {
        self.lemma_retries_until_final_outcome(
            Self::initial(RetryMode::Retry, None),
            script,
            0,
            k - 1,
        );
    }

    /// A call whose budget is used up by transient failures makes exactly
    /// `max_retries + 1` attempts and hands the last failure to its caller.
    pub proof fn lemma_exhausted_budget_returns_last_failure(
        self,
        state: RetryState,
        script: Seq<Attempt>,
        from: int,
    )
        requires
            state.mode == RetryMode::Retry,
            state.n_past_retries <= self.policy@.max_retries,
            0 <= from,
            from + (self.policy@.max_retries - state.n_past_retries) < script.len(),
            forall|i: int|
                from <= i < from + (self.policy@.max_retries - state.n_past_retries) ==> (
                #[trigger] script[i]).outcome == Outcome::Transient && state.time_left(
                    script[i].elapsed,
                ) != Some(0u64),
        ensures
            self.attempts(state, script, from) == self.policy@.max_retries - state.n_past_retries
                + 1,
            self.returned(state, script, from) == Some(
                script[from + (self.policy@.max_retries - state.n_past_retries)],
            ),
        decreases self.policy@.max_retries - state.n_past_retries,
    {
        if state.n_past_retries < self.policy@.max_retries {
            let next = state.advanced();
            assert(self.retries(state, script[from]));
            assert(forall|elapsed: u64| next.time_left(elapsed) == state.time_left(elapsed));
            self.lemma_exhausted_budget_returns_last_failure(next, script, from + 1);
        }
    }
}

impl From<RetryPolicy> for RetryMiddleware {
    fn from(policy: RetryPolicy) -> (res: Self) {
        RetryMiddleware { policy }
    }
}

impl vstd::std_specs::convert::FromSpecImpl<RetryPolicy> for RetryMiddleware {
    open spec fn obeys_from_spec() -> bool {
        true
    }

    open spec fn from_spec(policy: RetryPolicy) -> Self {
        RetryMiddleware { policy }
    }
}

} // verus!
