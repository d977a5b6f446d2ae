//! The authentication layer: the session credential and the anti-forgery
//! token that go out with every request, the token refresh on every response,
//! and the two retries that the layer makes on its own, after a stale token
//! and after a write that the server has not caught up with.
//!
//! Like the rate-limit layer it neither sends nor sleeps: it says what goes
//! out and what is done with what came back.

use crate::decimal::{decimal_text, write_decimal};
use crate::headers::{field_text, header_fields, header_text};
use crate::status::{status_line, status_text};
use crate::text::{same_text, text_view};
use http::header::{HeaderMap, HeaderValue};
use vstd::prelude::*;
use vstd::string::StringExecFns;

verus! {

/// The status with which the server turns down a stale anti-forgery token.
pub const FORBIDDEN: u16 = 403;

/// The status under which the server reports a write conflict in the body.
pub const BAD_REQUEST: u16 = 400;

/// The wait before a request is run again after a write conflict.
pub const CONFLICT_WAIT_MILLIS: u64 = 1000;

/// The number of write-conflict retries that a new layer allows.
pub const DEFAULT_CONFLICT_RETRIES: usize = 5;

/// The name of the header that carries the anti-forgery token, both ways.
pub const CSRF_HEADER: &'static str = "x-csrf-token";

/// The name of the header in which the session credential goes out.
pub const COOKIE_HEADER: &'static str = "cookie";

/// The name of the header that carries the anti-forgery token, both ways.
pub open spec fn csrf_header() -> Seq<char> {
    CSRF_HEADER@
}

/// The message by which the server says that an earlier write has not yet
/// become visible.
pub const CONFLICT_MESSAGE: &'static str = "ETagMismatch";

/// The message by which the server says that an earlier write has not yet
/// become visible.
pub open spec fn conflict_message() -> Seq<char> {
    CONFLICT_MESSAGE@
}

/// The authentication layer of one client.
#[derive(Debug)]
pub struct RobloxAuthMiddleware {
    seen_etag: bool,
    csrf_token: Option<String>,
    session_cookie: Option<String>,
    max_conflict_retries: usize,
}

/// What the layer holds, as plain values.
pub struct AuthView {
    /// A write conflict is being waited out and has been logged.
    pub seen_etag: bool,
    /// The anti-forgery token seen last.
    pub csrf_token: Option<Seq<char>>,
    /// The session credential, as it goes out in the `cookie` header.
    pub session: Option<Seq<char>>,
    /// How often one request is run again after a write conflict.
    pub max_conflict_retries: usize,
}

/// How far one request has come: the write-conflict retries made for it, and
/// whether it was this request that raised the layer's conflict flag.
#[derive(Clone, Copy, Debug, PartialEq, Eq, Structural)]
pub struct AuthProgress {
    pub conflicts: usize,
    pub warned: bool,
}

/// The headers that the layer puts on a request before it is sent: the
/// value of the `COOKIE_HEADER` and that of the `CSRF_HEADER`, each if there
/// is one.
#[derive(Debug)]
pub struct AuthHeaders {
    pub cookie: Option<String>,
    pub csrf_token: Option<String>,
}

/// What is to be done with a response.
#[derive(Clone, Copy, Debug, PartialEq, Eq, Structural)]
pub enum AuthDecision {
    /// Hand the response to the caller as it is.
    Return,
    /// Run the request again from the start, with the duplicate.
    Retry,
    /// The body decides: decode it and call `handle_body` with its message.
    ReadBody,
}

/// What is to be done after the body of a bad-request response was read.
#[derive(Clone, Copy, Debug, PartialEq, Eq, Structural)]
pub enum BodyDecision {
    /// A write conflict: sleep, then run the request again from the start.
    /// `warn` says whether this wait is to be logged.
    RetryAfter { millis: u64, warn: bool },
    /// Fail the request with the status and the message of the response.
    Reject,
    /// Fail the request: the write conflict outlasted the `retries` retries
    /// that were made for it.
    GiveUp { retries: usize },
}

/// The layer, the request's progress and the decision after a response.
pub struct AuthTurn {
    pub auth: AuthView,
    pub progress: AuthProgress,
    pub decision: AuthDecision,
}

/// The layer, the request's progress and the decision after a body.
pub struct BodyTurn {
    pub auth: AuthView,
    pub progress: AuthProgress,
    pub decision: BodyDecision,
}

/// The token held after a response: the one that the response brought,
/// else the one held before.
pub open spec fn kept_token(token: Option<Seq<char>>, fresh: Option<Seq<char>>) -> Option<Seq<char>> {
    match fresh {
        Some(t) => Some(t),
        None => token,
    }
}

/// The token held after a response with the headers `fields`: the one that
/// the response carries as text, else the one held before.
pub open spec fn refreshed_token(token: Option<Seq<char>>, fields: Map<Seq<char>, Seq<u8>>) -> Option<
    Seq<char>,
> {
    kept_token(token, field_text(fields, csrf_header()))
}

/// The decision on a response, given whether it brought a token. A request
/// without a duplicate is never run again. Otherwise a refused token is
/// retried if and only if this response brought a token, and a bad request
/// is decided by its body.
pub open spec fn decision_for(status: u16, refreshed: bool, replayable: bool) -> AuthDecision {
    if replayable && status == FORBIDDEN && refreshed {
        AuthDecision::Retry
    } else if replayable && status == BAD_REQUEST {
        AuthDecision::ReadBody
    } else {
        AuthDecision::Return
    }
}

/// The decision on a response with the headers `fields`.
pub open spec fn response_decision(
    status: u16,
    fields: Map<Seq<char>, Seq<u8>>,
    replayable: bool,
) -> AuthDecision {
    decision_for(status, field_text(fields, csrf_header()) is Some, replayable)
}

/// The layer once a request is over: the conflict flag is lowered if it was
/// this request that raised it.
pub open spec fn settled_auth(auth: AuthView, progress: AuthProgress) -> AuthView {
    AuthView { seen_etag: auth.seen_etag && !progress.warned, ..auth }
}

/// The progress of a request that is over.
pub open spec fn settled_progress(progress: AuthProgress) -> AuthProgress {
    AuthProgress { warned: false, ..progress }
}

/// What a response does that brought the token `fresh`, or none: the token
/// is kept whatever the status, and where the response goes back to the
/// caller the request is over.
pub open spec fn on_reply(
    auth: AuthView,
    progress: AuthProgress,
    status: u16,
    fresh: Option<Seq<char>>,
    replayable: bool,
) -> AuthTurn {
    let refreshed = AuthView { csrf_token: kept_token(auth.csrf_token, fresh), ..auth };
    let decision = decision_for(status, fresh is Some, replayable);
    if decision is Return {
        AuthTurn {
            auth: settled_auth(refreshed, progress),
            progress: settled_progress(progress),
            decision,
        }
    } else {
        AuthTurn { auth: refreshed, progress, decision }
    }
}

/// What a response with the headers `fields` does.
pub open spec fn on_response(
    auth: AuthView,
    progress: AuthProgress,
    status: u16,
    fields: Map<Seq<char>, Seq<u8>>,
    replayable: bool,
) -> AuthTurn {
    on_reply(auth, progress, status, field_text(fields, csrf_header()), replayable)
}

/// What the body of a bad-request response does. A write conflict is waited
/// out and retried as long as the request has retries left; the first wait
/// while the flag is down raises it and is the one to be logged. Anything
/// else ends the request.
pub open spec fn on_body(auth: AuthView, progress: AuthProgress, message: Seq<char>) -> BodyTurn {
    if message != conflict_message() {
        BodyTurn {
            auth: settled_auth(auth, progress),
            progress: settled_progress(progress),
            decision: BodyDecision::Reject,
        }
    } else if progress.conflicts >= auth.max_conflict_retries {
        BodyTurn {
            auth: settled_auth(auth, progress),
            progress: settled_progress(progress),
            decision: BodyDecision::GiveUp { retries: progress.conflicts },
        }
    } else {
        BodyTurn {
            auth: AuthView { seen_etag: true, ..auth },
            progress: AuthProgress {
                conflicts: (progress.conflicts + 1) as usize,
                warned: progress.warned || !auth.seen_etag,
            },
            decision: BodyDecision::RetryAfter {
                millis: CONFLICT_WAIT_MILLIS,
                warn: !auth.seen_etag,
            },
        }
    }
}

/// The cookie that carries the session credential `token`, as a cookie
/// store takes it.
pub open spec fn session_cookie(token: Seq<char>) -> Seq<char> {
    ".ROBLOSECURITY="@ + token + "; Domain=.roblox.com; Path=/; Secure; HttpOnly"@
}

/// The error text for a request that the server refused, given the line
/// that names the status and the message of the body.
pub open spec fn rejection_text(line: Seq<char>, message: Seq<char>) -> Seq<char> {
    "Request failed with status "@ + line + ": "@ + message
}

/// The error text for a write conflict that outlasted `retries` retries.
pub open spec fn unresolved_text(line: Seq<char>, retries: usize) -> Seq<char> {
    "Request failed with status "@ + line + ": write conflict not resolved after "@
        + decimal_text(retries as nat) + " retries"@
}

/// Writes the cookie that carries the session credential `token`.
pub fn set_cookie(token: &str) -> (cookie: String)
    ensures
        cookie@ == session_cookie(token@),
{
    let mut cookie = String::from_str(".ROBLOSECURITY=");
    cookie.append(token);
    cookie.append("; Domain=.roblox.com; Path=/; Secure; HttpOnly");
    cookie
}

/// Writes the error text for a refused request.
pub fn rejection_message(line: &str, message: &str) -> (r: String)
    ensures
        r@ == rejection_text(line@, message@),
{
    let mut r = String::from_str("Request failed with status ");
    r.append(line);
    r.append(": ");
    r.append(message);
    r
}

/// Writes the error text for a write conflict that was given up.
pub fn unresolved_message(line: &str, retries: usize) -> (r: String)
    ensures
        r@ == unresolved_text(line@, retries),
{
    let mut r = String::from_str("Request failed with status ");
    r.append(line);
    r.append(": write conflict not resolved after ");
    let count = write_decimal(retries as u64);
    r.append(count.as_str());
    r.append(" retries");
    r
}

/// The error text for a bad request that is not retried.
pub fn bad_request_message(message: &str) -> (r: String)
    ensures
        r@ == rejection_text(status_line(BAD_REQUEST), message@),
{
    let line = status_text(BAD_REQUEST);
    rejection_message(line.as_str(), message)
}

/// The error text for a bad request whose write conflict was given up.
pub fn conflict_unresolved_message(retries: usize) -> (r: String)
    ensures
        r@ == unresolved_text(status_line(BAD_REQUEST), retries),
{
    let line = status_text(BAD_REQUEST);
    unresolved_message(line.as_str(), retries)
}

fn copy_text(text: &Option<String>) -> (r: Option<String>)
    ensures
        text_view(r) == text_view(*text),
{
    match text {
        Some(t) => Some(t.clone()),
        None => None,
    }
}

impl AuthProgress {
    /// The progress of a request that has not been sent yet.
    pub fn new() -> (r: Self)
        ensures
            r.conflicts == 0,
            !r.warned,
    {
        AuthProgress { conflicts: 0, warned: false }
    }
}

impl View for RobloxAuthMiddleware {
    type V = AuthView;

    closed spec fn view(&self) -> AuthView {
        AuthView {
            seen_etag: self.seen_etag,
            csrf_token: text_view(self.csrf_token),
            session: text_view(self.session_cookie),
            max_conflict_retries: self.max_conflict_retries,
        }
    }
}

impl RobloxAuthMiddleware {
    /// A layer with no credential and no token, with the flag down.
    pub fn new() -> (r: Self)
        ensures
            !r@.seen_etag,
            r@.csrf_token is None,
            r@.session is None,
            r@.max_conflict_retries == DEFAULT_CONFLICT_RETRIES,
    {
        RobloxAuthMiddleware {
            seen_etag: false,
            csrf_token: None,
            session_cookie: None,
            max_conflict_retries: DEFAULT_CONFLICT_RETRIES,
        }
    }

    /// The same layer with the session credential `cookie`, the value of the
    /// `cookie` header that the API asks for.
    pub fn with_session(self, cookie: String) -> (r: Self)
        ensures
            r@ == (AuthView { session: Some(cookie@), ..self@ }),
    {
        let mut layer = self;
        layer.session_cookie = Some(cookie);
        layer
    }

    /// The same layer with `n` retries after a write conflict.
    pub fn with_max_conflict_retries(self, n: usize) -> (r: Self)
        ensures
            r@ == (AuthView { max_conflict_retries: n, ..self@ }),
    {
        let mut layer = self;
        layer.max_conflict_retries = n;
        layer
    }

    fn set_seen(&mut self, seen: bool)
        ensures
            final(self)@ == (AuthView { seen_etag: seen, ..old(self)@ }),
    {
        self.seen_etag = seen;
    }

    /// Whether a write conflict is being waited out.
    pub fn has_seen(&self) -> (r: bool)
        ensures
            r == self@.seen_etag,
    {
        self.seen_etag
    }

    /// The anti-forgery token that the layer holds.
    pub fn get_csrf_token(&self) -> (r: Option<String>)
        ensures
            text_view(r) == self@.csrf_token,
    {
        copy_text(&self.csrf_token)
    }

    /// Replaces the anti-forgery token.
    pub fn set_csrf_token(&mut self, token: String)
        ensures
            final(self)@ == (AuthView { csrf_token: Some(token@), ..old(self)@ }),
    {
        self.csrf_token = Some(token);
    }

    /// The number of write-conflict retries that the layer allows.
    pub fn max_conflict_retries(&self) -> (r: usize)
        ensures
            r == self@.max_conflict_retries,
    {
        self.max_conflict_retries
    }

    /// The headers to put on a request that is about to be sent: the
    /// credential and the token, each if it is held.
    pub fn outgoing(&self) -> (r: AuthHeaders)
        ensures
            text_view(r.cookie) == self@.session,
            text_view(r.csrf_token) == self@.csrf_token,
    {
        AuthHeaders {
            cookie: copy_text(&self.session_cookie),
            csrf_token: copy_text(&self.csrf_token),
        }
    }

    fn settle(&mut self, progress: &mut AuthProgress)
        ensures
            final(self)@ == settled_auth(old(self)@, *old(progress)),
            *final(progress) == settled_progress(*old(progress)),
    {
        if progress.warned {
            self.set_seen(false);
            progress.warned = false;
        }
    }

    /// Ends a request for which no response came back: lowers the conflict
    /// flag if it was this request that raised it.
    pub fn abandon(&mut self, progress: &mut AuthProgress)
        ensures
            final(self)@ == settled_auth(old(self)@, *old(progress)),
            *final(progress) == settled_progress(*old(progress)),
    {
        self.settle(progress);
    }

    /// Takes in the status of a response and the token that it brought, if
    /// it brought one: keeps the token, and decides what is done with the
    /// response. `replayable` says whether a duplicate of the request was
    /// made before it was sent.
    pub fn observe(
        &mut self,
        progress: &mut AuthProgress,
        status: u16,
        fresh: Option<String>,
        replayable: bool,
    ) -> (decision: AuthDecision)
        ensures
            final(self)@ == on_reply(
                old(self)@,
                *old(progress),
                status,
                text_view(fresh),
                replayable,
            ).auth,
            *final(progress) == on_reply(
                old(self)@,
                *old(progress),
                status,
                text_view(fresh),
                replayable,
            ).progress,
            decision == on_reply(
                old(self)@,
                *old(progress),
                status,
                text_view(fresh),
                replayable,
            ).decision,
    {
        let did_update_csrf = fresh.is_some();
        if did_update_csrf {
            self.csrf_token = fresh;
        }
        if replayable && status == FORBIDDEN && did_update_csrf {
            return AuthDecision::Retry;
        }
        if replayable && status == BAD_REQUEST {
            return AuthDecision::ReadBody;
        }
        self.settle(progress);
        AuthDecision::Return
    }

    /// Takes in a response: keeps the token that its headers bring, and
    /// decides what is done with it. `replayable` says whether a duplicate of
    /// the request was made before it was sent.
    pub fn handle(
        &mut self,
        progress: &mut AuthProgress,
        status: u16,
        headers: &HeaderMap<HeaderValue>,
        replayable: bool,
    ) -> (decision: AuthDecision)
        ensures
            final(self)@ == on_response(
                old(self)@,
                *old(progress),
                status,
                header_fields(*headers),
                replayable,
            ).auth,
            *final(progress) == on_response(
                old(self)@,
                *old(progress),
                status,
                header_fields(*headers),
                replayable,
            ).progress,
            decision == on_response(
                old(self)@,
                *old(progress),
                status,
                header_fields(*headers),
                replayable,
            ).decision,
    {
        proof {
            reveal_strlit("x-csrf-token");
        }
        let fresh = header_text(headers, CSRF_HEADER);
        self.observe(progress, status, fresh, replayable)
    }

    /// Takes in the message that the body of a bad-request response
    /// carries, and decides how the request goes on.
    pub fn handle_body(&mut self, progress: &mut AuthProgress, message: &str) -> (decision:
        BodyDecision)
        ensures
            final(self)@ == on_body(old(self)@, *old(progress), message@).auth,
            *final(progress) == on_body(old(self)@, *old(progress), message@).progress,
            decision == on_body(old(self)@, *old(progress), message@).decision,
    {
        if !same_text(message, CONFLICT_MESSAGE) {
            self.settle(progress);
            return BodyDecision::Reject;
        }
        if progress.conflicts >= self.max_conflict_retries {
            let retries = progress.conflicts;
            self.settle(progress);
            return BodyDecision::GiveUp { retries };
        }
        let seen = self.has_seen();
        if !seen {
            self.set_seen(true);
            progress.warned = true;
        }
        progress.conflicts = progress.conflicts + 1;
        BodyDecision::RetryAfter { millis: CONFLICT_WAIT_MILLIS, warn: !seen }
    }
}

/// The layer and the request's progress after `n` write conflicts in a row,
/// each waited out and retried, together with the number of waits that were
/// to be logged and the waits themselves.
pub struct ConflictTrace {
    pub auth: AuthView,
    pub progress: AuthProgress,
    pub warnings: nat,
    pub waits: Seq<u64>,
}

/// The course of `n` consecutive bad-request responses that all carry the
/// conflict message, as `on_body` decides them. It ends early where the
/// request is given up.
pub open spec fn conflict_run(auth: AuthView, progress: AuthProgress, n: nat) -> ConflictTrace
    decreases n,
{
    if n == 0 {
        ConflictTrace { auth, progress, warnings: 0, waits: Seq::empty() }
    } else {
        let turn = on_body(auth, progress, conflict_message());
        match turn.decision {
            BodyDecision::RetryAfter { millis, warn } => {
                let rest = conflict_run(turn.auth, turn.progress, (n - 1) as nat);
                ConflictTrace {
                    auth: rest.auth,
                    progress: rest.progress,
                    warnings: rest.warnings + if warn { 1nat } else { 0nat },
                    waits: seq![millis] + rest.waits,
                }
            },
            _ => ConflictTrace { auth: turn.auth, progress: turn.progress, warnings: 0, waits: Seq::empty() },
        }
    }
}

/// A refused token is retried once for each token that the server hands
/// out: a 403 that brings the token `fresh` is run again, and the next send
/// carries `fresh`; a 403 after that which brings no token goes back to the
/// caller.
pub proof fn lemma_stale_token_retried_once(
    auth: AuthView,
    progress: AuthProgress,
    first: Map<Seq<char>, Seq<u8>>,
    second: Map<Seq<char>, Seq<u8>>,
    fresh: Seq<char>,
)
    requires
        field_text(first, csrf_header()) == Some(fresh),
        field_text(second, csrf_header()) is None,
    ensures
        on_response(auth, progress, FORBIDDEN, first, true).decision is Retry,
        on_response(auth, progress, FORBIDDEN, first, true).auth.csrf_token == Some(fresh),
        on_response(
            on_response(auth, progress, FORBIDDEN, first, true).auth,
            on_response(auth, progress, FORBIDDEN, first, true).progress,
            FORBIDDEN,
            second,
            true,
        ).decision is Return,
        on_response(
            on_response(auth, progress, FORBIDDEN, first, true).auth,
            on_response(auth, progress, FORBIDDEN, first, true).progress,
            FORBIDDEN,
            second,
            true,
        ).auth.csrf_token == Some(fresh),
{
}

/// A request without a duplicate is never run again: whatever comes back
/// goes to the caller as it is.
pub proof fn lemma_not_replayable_returns(
    auth: AuthView,
    progress: AuthProgress,
    status: u16,
    fields: Map<Seq<char>, Seq<u8>>,
)
    ensures
        on_response(auth, progress, status, fields, false).decision is Return,
{
}

/// A status other than 403 and 400 goes back to the caller, and so does a
/// 403 that brings no token.
pub proof fn lemma_other_status_returns(
    auth: AuthView,
    progress: AuthProgress,
    status: u16,
    fields: Map<Seq<char>, Seq<u8>>,
    replayable: bool,
)
    requires
        status != BAD_REQUEST,
        status != FORBIDDEN || field_text(fields, csrf_header()) is None,
    ensures
        on_response(auth, progress, status, fields, replayable).decision is Return,
{
}

/// Nothing that the layer takes in changes the credential or the number of
/// retries it allows.
pub proof fn lemma_credential_untouched(
    auth: AuthView,
    progress: AuthProgress,
    status: u16,
    fields: Map<Seq<char>, Seq<u8>>,
    replayable: bool,
    message: Seq<char>,
)
    ensures
        on_response(auth, progress, status, fields, replayable).auth.session == auth.session,
        on_response(auth, progress, status, fields, replayable).auth.max_conflict_retries
            == auth.max_conflict_retries,
        on_body(auth, progress, message).auth.session == auth.session,
        on_body(auth, progress, message).auth.max_conflict_retries == auth.max_conflict_retries,
        on_body(auth, progress, message).auth.csrf_token == auth.csrf_token,
{
}

/// A bad request whose message is not the conflict message fails the
/// request at once.
pub proof fn lemma_other_message_rejected(auth: AuthView, progress: AuthProgress, message: Seq<char>)
    requires
        message != conflict_message(),
    ensures
        on_body(auth, progress, message).decision is Reject,
{
}

/// A request that has used up its write-conflict retries is given up at the
/// next conflict, and one that has not is retried after one second.
pub proof fn lemma_conflict_retries_bounded(auth: AuthView, progress: AuthProgress)
    ensures
        progress.conflicts >= auth.max_conflict_retries ==> on_body(
            auth,
            progress,
            conflict_message(),
        ).decision == (BodyDecision::GiveUp { retries: progress.conflicts }),
        progress.conflicts < auth.max_conflict_retries ==> on_body(
            auth,
            progress,
            conflict_message(),
        ).decision is RetryAfter && on_body(auth, progress, conflict_message()).decision->millis
            == CONFLICT_WAIT_MILLIS && on_body(auth, progress, conflict_message()).progress.conflicts
            == progress.conflicts + 1,
{
}

/// While the flag is up no wait is to be logged, and the flag stays up.
pub proof fn lemma_conflicts_silent_while_flag_up(auth: AuthView, progress: AuthProgress, n: nat)
    requires
        auth.seen_etag,
        progress.conflicts + n <= auth.max_conflict_retries,
    ensures
        conflict_run(auth, progress, n).warnings == 0,
        conflict_run(auth, progress, n).auth.seen_etag,
        conflict_run(auth, progress, n).progress.warned == progress.warned,
        conflict_run(auth, progress, n).waits.len() == n,
        forall|i: int|
            0 <= i < n ==> #[trigger] conflict_run(auth, progress, n).waits[i]
                == CONFLICT_WAIT_MILLIS,
    decreases n,
{
    if n > 0 {
        let turn = on_body(auth, progress, conflict_message());
        lemma_conflicts_silent_while_flag_up(turn.auth, turn.progress, (n - 1) as nat);
    }
}

/// A run of `n >= 1` write conflicts that starts with the flag down, within
/// the retries allowed, is logged exactly once, however many retries it
/// takes; each retry waits one second; and the request then owns the flag.
pub proof fn lemma_conflict_run_warns_once(auth: AuthView, progress: AuthProgress, n: nat)
    requires
        !auth.seen_etag,
        n >= 1,
        progress.conflicts + n <= auth.max_conflict_retries,
    ensures
        conflict_run(auth, progress, n).warnings == 1,
        conflict_run(auth, progress, n).waits.len() == n,
        forall|i: int|
            0 <= i < n ==> #[trigger] conflict_run(auth, progress, n).waits[i]
                == CONFLICT_WAIT_MILLIS,
        conflict_run(auth, progress, n).auth.seen_etag,
        conflict_run(auth, progress, n).progress.warned,
        conflict_run(auth, progress, n).progress.conflicts == progress.conflicts + n,
{
    let turn = on_body(auth, progress, conflict_message());
    lemma_conflicts_silent_while_flag_up(turn.auth, turn.progress, (n - 1) as nat);
    lemma_conflict_count(turn.auth, turn.progress, (n - 1) as nat);
}

/// Within the retries allowed, each conflict of a run is counted.
pub proof fn lemma_conflict_count(auth: AuthView, progress: AuthProgress, n: nat)
    requires
        progress.conflicts + n <= auth.max_conflict_retries,
    ensures
        conflict_run(auth, progress, n).progress.conflicts == progress.conflicts + n,
        conflict_run(auth, progress, n).auth.max_conflict_retries == auth.max_conflict_retries,
    decreases n,
{
    if n > 0 {
        let turn = on_body(auth, progress, conflict_message());
        lemma_conflict_count(turn.auth, turn.progress, (n - 1) as nat);
    }
}

/// When the request that raised the flag is over, the flag is down again,
/// so that the next conflict is logged anew.
pub proof fn lemma_flag_lowered_when_settled(
    auth: AuthView,
    progress: AuthProgress,
    status: u16,
    fields: Map<Seq<char>, Seq<u8>>,
    replayable: bool,
)
    requires
        progress.warned,
        on_response(auth, progress, status, fields, replayable).decision is Return,
    ensures
        !on_response(auth, progress, status, fields, replayable).auth.seen_etag,
        !on_response(auth, progress, status, fields, replayable).progress.warned,
{
}

} // verus!
