//! The rate-limit layer: the budget that the server last reported, the hold
//! put on a request while the budget is used up, and the decision
//! taken on each response that comes back.
//!
//! The layer never sleeps and never sends. It says what has to happen next;
//! whoever drives it sleeps and sends with no lock held, and comes back with
//! what the server answered.

use crate::headers::{field_number, header_fields, header_number};
use http::header::{HeaderMap, HeaderValue};
use vstd::prelude::*;

verus! {

/// The status of a response that was refused for exceeding the rate budget.
pub const TOO_MANY_REQUESTS: u16 = 429;

/// The name of the header that reports the requests left in the window.
pub const REMAINING_HEADER: &'static str = "x-ratelimit-remaining";

/// The name of the header that reports the seconds until the budget resets.
pub const RESET_HEADER: &'static str = "x-ratelimit-reset";

/// The name of the header by which the server says how long to stay away.
pub const RETRY_AFTER_HEADER: &'static str = "retry-after";

/// The retries that a new layer makes for a rate-limited request.
pub const DEFAULT_RETRIES: usize = 5;

/// The cushion that a new layer adds to every wait, in milliseconds.
pub const DEFAULT_CUSHION_MS: u64 = 75;

/// The name of the header that reports the requests left in the window.
pub open spec fn remaining_header() -> Seq<char> {
    REMAINING_HEADER@
}

/// The name of the header that reports the seconds until the budget resets.
pub open spec fn reset_header() -> Seq<char> {
    RESET_HEADER@
}

/// The name of the header by which the server says how long to stay away.
pub open spec fn retry_after_header() -> Seq<char> {
    RETRY_AFTER_HEADER@
}

/// The rate budget as the server last reported it. A field is `None` until a
/// response has carried the header it is read from.
#[derive(Clone, Copy, Debug, PartialEq, Eq, Structural)]
pub struct RateState {
    pub remaining: Option<u64>,
    pub reset_after_secs: Option<u64>,
}

/// What a request that is about to be sent is told.
#[derive(Clone, Copy, Debug, PartialEq, Eq, Structural)]
pub enum Preflight {
    /// The budget is unknown or not used up: send.
    Clear,
    /// The budget is used up: sleep this long, then ask again.
    Wait { millis: u128 },
}

/// What is to be done with a response.
#[derive(Clone, Copy, Debug, PartialEq, Eq, Structural)]
pub enum RateDecision {
    /// Hand the response to the caller.
    Return,
    /// Sleep, then send the duplicate of the request as attempt `attempt`.
    Retry { wait_millis: u128, attempt: usize },
    /// Sleep, then hand the rate-limited response to the caller: the request
    /// has no duplicate that could be sent again.
    Forfeit { wait_millis: u128 },
}

/// The rate-limit layer of one client: the shared budget record and the two
/// settings of the retry rule.
#[derive(Debug)]
pub struct RobloxRateLimitMiddleware {
    state: RateState,
    max_429_retries: usize,
    cushion_ms: u64,
}

/// The budget record after a report of the server was taken in: a number
/// that was reported replaces the field, a missing one leaves the field as it
/// was.
pub open spec fn merged(
    state: RateState,
    remaining: Option<u64>,
    reset_after_secs: Option<u64>,
) -> RateState {
    RateState {
        remaining: match remaining {
            Some(n) => Some(n),
            None => state.remaining,
        },
        reset_after_secs: match reset_after_secs {
            Some(n) => Some(n),
            None => state.reset_after_secs,
        },
    }
}

/// The budget record after the headers `fields` of a response were read into
/// it: a header that is present as a number replaces the field, any other
/// leaves the field as it was.
pub open spec fn ingested(state: RateState, fields: Map<Seq<char>, Seq<u8>>) -> RateState {
    merged(
        state,
        field_number(fields, remaining_header()),
        field_number(fields, reset_header()),
    )
}

/// The seconds to stay away after a rate-limited response: what it asked
/// for, else the time to the reset that it reported, else one second.
pub open spec fn wait_secs_of(retry_after: Option<u64>, reset_after_secs: Option<u64>) -> u64 {
    match retry_after {
        Some(n) => n,
        None => match reset_after_secs {
            Some(n) => n,
            None => 1,
        },
    }
}

/// The seconds that a rate-limited response asks the client to stay away:
/// its `retry-after` header, else its reset header, else one second.
pub open spec fn retry_wait_secs(fields: Map<Seq<char>, Seq<u8>>) -> u64 {
    wait_secs_of(field_number(fields, retry_after_header()), field_number(fields, reset_header()))
}

/// A wait of `secs` seconds with the cushion on top, in milliseconds.
pub open spec fn cushioned_millis(secs: u64, cushion_ms: u64) -> u128 {
    (secs * 1000 + cushion_ms) as u128
}

/// What a budget record tells a request: to wait, exactly when the budget is
/// known to be zero and the reset time is known and positive.
pub open spec fn preflight_of(state: RateState, cushion_ms: u64) -> Preflight {
    if state.remaining == Some(0u64) && state.reset_after_secs is Some
        && state.reset_after_secs->0 > 0 {
        Preflight::Wait { millis: cushioned_millis(state.reset_after_secs->0, cushion_ms) }
    } else {
        Preflight::Clear
    }
}

/// The decision on the response to attempt `attempt` (the first send is
/// attempt 0), which asks the client to stay away for `wait_secs` seconds.
/// Only a rate-limited response with retries left is not handed back at
/// once; whether it is then sent again depends on `replayable`.
pub open spec fn decision_for(
    max_retries: usize,
    cushion_ms: u64,
    attempt: usize,
    status: u16,
    wait_secs: u64,
    replayable: bool,
) -> RateDecision {
    if status != TOO_MANY_REQUESTS || attempt >= max_retries {
        RateDecision::Return
    } else if replayable {
        RateDecision::Retry {
            wait_millis: cushioned_millis(wait_secs, cushion_ms),
            attempt: (attempt + 1) as usize,
        }
    } else {
        RateDecision::Forfeit { wait_millis: cushioned_millis(wait_secs, cushion_ms) }
    }
}

/// The decision on the response to attempt `attempt` with the headers
/// `fields`.
pub open spec fn decision_of(
    max_retries: usize,
    cushion_ms: u64,
    attempt: usize,
    status: u16,
    fields: Map<Seq<char>, Seq<u8>>,
    replayable: bool,
) -> RateDecision {
    decision_for(max_retries, cushion_ms, attempt, status, retry_wait_secs(fields), replayable)
}

/// What the server answers to one send: the status and the headers.
pub struct Reply {
    pub status: u16,
    pub fields: Map<Seq<char>, Seq<u8>>,
}

/// How one request ends: the attempt whose response the caller gets, and the
/// sleeps made on the way, in order.
pub struct RateOutcome {
    pub answer: usize,
    pub sleeps: Seq<u128>,
}

/// The course of one request from attempt `attempt` on, against a server
/// that answers attempt `k` with `server(k)`: each response is decided on by
/// `decision_of`, and a retry sends the next attempt.
pub open spec fn rate_run(
    max_retries: usize,
    cushion_ms: u64,
    replayable: bool,
    server: spec_fn(usize) -> Reply,
    attempt: usize,
) -> RateOutcome
    decreases max_retries - attempt,
{
    let reply = server(attempt);
    match decision_of(max_retries, cushion_ms, attempt, reply.status, reply.fields, replayable) {
        RateDecision::Return => RateOutcome { answer: attempt, sleeps: Seq::empty() },
        RateDecision::Forfeit { wait_millis } => RateOutcome {
            answer: attempt,
            sleeps: seq![wait_millis],
        },
        RateDecision::Retry { wait_millis, attempt: next } => {
            let rest = rate_run(max_retries, cushion_ms, replayable, server, next);
            RateOutcome { answer: rest.answer, sleeps: seq![wait_millis] + rest.sleeps }
        },
    }
}

/// The number of requests that were sent when a request that started with
/// attempt 0 ends with `outcome`.
pub open spec fn sends(outcome: RateOutcome) -> nat {
    (outcome.answer + 1) as nat
}

fn with_cushion(secs: u64, cushion_ms: u64) -> (r: u128)
    ensures
        r == cushioned_millis(secs, cushion_ms),
{
    let secs_wide: u128 = secs.into();
    let cushion_wide: u128 = cushion_ms.into();
    secs_wide * 1000 + cushion_wide
}

impl Default for RateState {
    /// The record before any response has come back: nothing is known.
    fn default() -> (r: Self)
        ensures
            r.remaining is None,
            r.reset_after_secs is None,
    {
        RateState { remaining: None, reset_after_secs: None }
    }
}

impl RobloxRateLimitMiddleware {
    /// The budget record that the layer holds.
    pub closed spec fn state(&self) -> RateState {
        self.state
    }

    /// The number of times a rate-limited request is sent again.
    pub closed spec fn max_retries(&self) -> usize {
        self.max_429_retries
    }

    /// The milliseconds added to every wait.
    pub closed spec fn cushion(&self) -> u64 {
        self.cushion_ms
    }

    /// A layer that knows nothing of the budget yet, with five retries and a
    /// cushion of 75 ms.
    pub fn new() -> (r: Self)
        ensures
            r.state().remaining is None,
            r.state().reset_after_secs is None,
            r.max_retries() == DEFAULT_RETRIES,
            r.cushion() == DEFAULT_CUSHION_MS,
    {
        RobloxRateLimitMiddleware {
            state: RateState::default(),
            max_429_retries: DEFAULT_RETRIES,
            cushion_ms: DEFAULT_CUSHION_MS,
        }
    }

    /// The same layer with `n` retries.
    pub fn with_max_429_retries(self, n: usize) -> (r: Self)
        ensures
            r.max_retries() == n,
            r.state() == self.state(),
            r.cushion() == self.cushion(),
    {
        let mut layer = self;
        layer.max_429_retries = n;
        layer
    }

    /// The budget record as it stands.
    pub fn rate_state(&self) -> (r: RateState)
        ensures
            r == self.state(),
    {
        self.state
    }

    /// The number of retries that the layer was set up with.
    pub fn max_429_retries(&self) -> (r: usize)
        ensures
            r == self.max_retries(),
    {
        self.max_429_retries
    }

    /// The cushion that the layer adds to every wait, in milliseconds.
    pub fn cushion_ms(&self) -> (r: u64)
        ensures
            r == self.cushion(),
    {
        self.cushion_ms
    }

    /// Takes a report of the server into the budget record. A number that
    /// is missing leaves its field untouched.
    pub fn record(&mut self, remaining: Option<u64>, reset_after_secs: Option<u64>)
        ensures
            final(self).state() == merged(old(self).state(), remaining, reset_after_secs),
            final(self).max_retries() == old(self).max_retries(),
            final(self).cushion() == old(self).cushion(),
    {
        if remaining.is_some() {
            self.state.remaining = remaining;
        }
        if reset_after_secs.is_some() {
            self.state.reset_after_secs = reset_after_secs;
        }
    }

    /// Reads the rate headers of a response into the budget record. A header
    /// that is missing, or is no number, leaves its field untouched.
    pub fn ingest_headers(&mut self, headers: &HeaderMap<HeaderValue>)
        ensures
            final(self).state() == ingested(old(self).state(), header_fields(*headers)),
            final(self).max_retries() == old(self).max_retries(),
            final(self).cushion() == old(self).cushion(),
    {
        proof {
            reveal_strlit("x-ratelimit-remaining");
            reveal_strlit("x-ratelimit-reset");
        }
        let remaining = header_number(headers, REMAINING_HEADER);
        let reset_secs = header_number(headers, RESET_HEADER);
        self.record(remaining, reset_secs);
    }

    /// The seconds to wait before the next attempt, without the cushion,
    /// given what a rate-limited response asked for and reported.
    pub fn retry_wait(retry_after: Option<u64>, reset_after_secs: Option<u64>) -> (secs: u64)
        ensures
            secs == wait_secs_of(retry_after, reset_after_secs),
    {
        match retry_after {
            Some(n) => n,
            None => match reset_after_secs {
                Some(n) => n,
                None => 1,
            },
        }
    }

    /// The seconds that a rate-limited response asks the client to wait
    /// before the next attempt, without the cushion.
    pub fn retry_wait_from_headers(headers: &HeaderMap<HeaderValue>) -> (secs: u64)
        ensures
            secs == retry_wait_secs(header_fields(*headers)),
    {
        proof {
            reveal_strlit("retry-after");
            reveal_strlit("x-ratelimit-reset");
        }
        let retry_after = header_number(headers, RETRY_AFTER_HEADER);
        let reset_secs = header_number(headers, RESET_HEADER);
        Self::retry_wait(retry_after, reset_secs)
    }

    /// Asked before a send. While the answer is `Wait`, the request sleeps
    /// that long and asks again; it is sent once the answer is `Clear`.
    pub fn preflight(&self) -> (answer: Preflight)
        ensures
            answer == preflight_of(self.state(), self.cushion()),
    {
        match (self.state.remaining, self.state.reset_after_secs) {
            (Some(0), Some(secs)) => {
                if secs > 0 {
                    Preflight::Wait { millis: with_cushion(secs, self.cushion_ms) }
                } else {
                    Preflight::Clear
                }
            },
            _ => Preflight::Clear,
        }
    }

    /// Decides what is done with the response to attempt `attempt`, which
    /// has the status `status` and asks the client to stay away for
    /// `wait_secs` seconds.
    pub fn decide(&self, attempt: usize, status: u16, wait_secs: u64, replayable: bool) -> (decision:
        RateDecision)
        ensures
            decision == decision_for(
                self.max_retries(),
                self.cushion(),
                attempt,
                status,
                wait_secs,
                replayable,
            ),
    {
        if status != TOO_MANY_REQUESTS {
            return RateDecision::Return;
        }
        if attempt >= self.max_429_retries {
            return RateDecision::Return;
        }
        let wait_millis = with_cushion(wait_secs, self.cushion_ms);
        if replayable {
            RateDecision::Retry { wait_millis, attempt: attempt + 1 }
        } else {
            RateDecision::Forfeit { wait_millis }
        }
    }

    /// Takes in the response to attempt `attempt`: reads its rate headers
    /// into the budget record and decides what is done with it.
    /// `replayable` says whether a duplicate of the request was made before
    /// it was sent.
    pub fn handle(
        &mut self,
        attempt: usize,
        status: u16,
        headers: &HeaderMap<HeaderValue>,
        replayable: bool,
    ) -> (decision: RateDecision)
        ensures
            final(self).state() == ingested(old(self).state(), header_fields(*headers)),
            final(self).max_retries() == old(self).max_retries(),
            final(self).cushion() == old(self).cushion(),
            decision == decision_of(
                old(self).max_retries(),
                old(self).cushion(),
                attempt,
                status,
                header_fields(*headers),
                replayable,
            ),
    {
        self.ingest_headers(headers);
        let wait = Self::retry_wait_from_headers(headers);
        self.decide(attempt, status, wait, replayable)
    }
}

/// A budget known to be zero with a reset time of `n > 0` seconds holds the
/// request back: it is told to sleep, for no less than `n` seconds and the
/// cushion.
pub proof fn lemma_exhausted_budget_waits(state: RateState, cushion_ms: u64, n: u64)
    requires
        state.remaining == Some(0u64),
        state.reset_after_secs == Some(n),
        n > 0,
    ensures
        preflight_of(state, cushion_ms) is Wait,
        preflight_of(state, cushion_ms)->millis >= n * 1000 + cushion_ms,
{
}

/// Only a budget of zero holds a request back; an unknown or positive
/// budget, or an unknown or zero reset time, lets it through.
pub proof fn lemma_preflight_clear(state: RateState, cushion_ms: u64)
    requires
        state.remaining != Some(0u64) || state.reset_after_secs is None
            || state.reset_after_secs == Some(0u64),
    ensures
        preflight_of(state, cushion_ms) is Clear,
{
}

/// Headers without a rate header leave the budget record as it was.
pub proof fn lemma_ingest_without_rate_headers(state: RateState, fields: Map<Seq<char>, Seq<u8>>)
    requires
        !fields.contains_key(remaining_header()),
        !fields.contains_key(reset_header()),
    ensures
        ingested(state, fields) == state,
{
}

/// Reading the same headers twice changes nothing that reading them once
/// did not.
pub proof fn lemma_ingest_idempotent(state: RateState, fields: Map<Seq<char>, Seq<u8>>)
    ensures
        ingested(ingested(state, fields), fields) == ingested(state, fields),
{
}

/// A field of the budget record changes only to the number that its header
/// carries; it is never cleared.
pub proof fn lemma_ingest_never_clears(state: RateState, fields: Map<Seq<char>, Seq<u8>>)
    ensures
        state.remaining is Some ==> ingested(state, fields).remaining is Some,
        state.reset_after_secs is Some ==> ingested(state, fields).reset_after_secs is Some,
        ingested(state, fields).remaining != state.remaining ==> ingested(state, fields).remaining
            == field_number(fields, remaining_header()),
        ingested(state, fields).reset_after_secs != state.reset_after_secs ==> ingested(
            state,
            fields,
        ).reset_after_secs == field_number(fields, reset_header()),
{
}

/// No request is sent more than `max_retries + 1` times, and none sleeps
/// more often than it is sent.
pub proof fn lemma_sends_bounded(
    max_retries: usize,
    cushion_ms: u64,
    replayable: bool,
    server: spec_fn(usize) -> Reply,
    attempt: usize,
)
    requires
        attempt <= max_retries,
    ensures
        attempt <= rate_run(max_retries, cushion_ms, replayable, server, attempt).answer
            <= max_retries,
        rate_run(max_retries, cushion_ms, replayable, server, attempt).sleeps.len() <= rate_run(
            max_retries,
            cushion_ms,
            replayable,
            server,
            attempt,
        ).answer - attempt + 1,
    decreases max_retries - attempt,
{
    let reply = server(attempt);
    if reply.status == TOO_MANY_REQUESTS && attempt < max_retries && replayable {
        lemma_sends_bounded(max_retries, cushion_ms, replayable, server, (attempt + 1) as usize);
    }
}

/// Against a server that answers every attempt with 429, a request that can
/// be duplicated runs through all its retries: from attempt `attempt` on it
/// sleeps once before each further send, and the caller gets the response to
/// attempt `max_retries`, which is a 429.
pub proof fn lemma_always_limited_from(
    max_retries: usize,
    cushion_ms: u64,
    server: spec_fn(usize) -> Reply,
    attempt: usize,
)
    requires
        attempt <= max_retries,
        forall|k: usize| (#[trigger] server(k)).status == TOO_MANY_REQUESTS,
    ensures
        rate_run(max_retries, cushion_ms, true, server, attempt).answer == max_retries,
        rate_run(max_retries, cushion_ms, true, server, attempt).sleeps.len() == max_retries
            - attempt,
    decreases max_retries - attempt,
{
    if attempt < max_retries {
        lemma_always_limited_from(max_retries, cushion_ms, server, (attempt + 1) as usize);
    }
}

/// Against a server that answers every attempt with 429, exactly
/// `max_retries + 1` requests are sent, and the caller gets the last 429 as
/// a response.
pub proof fn lemma_always_limited(max_retries: usize, cushion_ms: u64, server: spec_fn(usize) -> Reply)
    requires
        forall|k: usize| (#[trigger] server(k)).status == TOO_MANY_REQUESTS,
    ensures
        sends(rate_run(max_retries, cushion_ms, true, server, 0)) == max_retries + 1,
        rate_run(max_retries, cushion_ms, true, server, 0).sleeps.len() == max_retries,
        server(rate_run(max_retries, cushion_ms, true, server, 0).answer).status
            == TOO_MANY_REQUESTS,
{
    lemma_always_limited_from(max_retries, cushion_ms, server, 0);
}

/// When attempts `attempt` up to `last - 1` are answered with 429 and
/// attempt `last` is not, with `last` within the retries allowed, a request
/// that can be duplicated gets the response to attempt `last`. It sleeps once
/// for each 429, as long as that response asked for, with the cushion on top.
pub proof fn lemma_recovers_from(
    max_retries: usize,
    cushion_ms: u64,
    server: spec_fn(usize) -> Reply,
    attempt: usize,
    last: usize,
)
    requires
        attempt <= last <= max_retries,
        forall|k: usize| attempt <= k < last ==> (#[trigger] server(k)).status == TOO_MANY_REQUESTS,
        server(last).status != TOO_MANY_REQUESTS,
    ensures
        rate_run(max_retries, cushion_ms, true, server, attempt).answer == last,
        rate_run(max_retries, cushion_ms, true, server, attempt).sleeps.len() == last - attempt,
        forall|j: int|
            0 <= j < last - attempt ==> #[trigger] rate_run(
                max_retries,
                cushion_ms,
                true,
                server,
                attempt,
            ).sleeps[j] == cushioned_millis(
                retry_wait_secs(server((attempt + j) as usize).fields),
                cushion_ms,
            ),
    decreases last - attempt,
{
    if attempt < last {
        let next = (attempt + 1) as usize;
        lemma_recovers_from(max_retries, cushion_ms, server, next, last);
    }
}

/// A request that cannot be duplicated is sent once, whatever the server
/// answers: the caller gets the response to the first attempt.
pub proof fn lemma_not_replayable_sent_once(
    max_retries: usize,
    cushion_ms: u64,
    server: spec_fn(usize) -> Reply,
)
    ensures
        rate_run(max_retries, cushion_ms, false, server, 0).answer == 0,
        sends(rate_run(max_retries, cushion_ms, false, server, 0)) == 1,
{
}

/// A response that is not a 429 is handed back at once, with no sleep.
pub proof fn lemma_other_status_returns(
    max_retries: usize,
    cushion_ms: u64,
    attempt: usize,
    status: u16,
    fields: Map<Seq<char>, Seq<u8>>,
    replayable: bool,
)
    requires
        status != TOO_MANY_REQUESTS,
    ensures
        decision_of(max_retries, cushion_ms, attempt, status, fields, replayable) is Return,
{
}

} // verus!
