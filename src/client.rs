//! The authenticated GET: which token to send, when to log in again, and
//! what the call ends with. The caller performs each request and login that
//! the call asks for and reports back what happened.
use crate::auth::Token;
use crate::reddit::{ApiError, Result};
use vstd::prelude::*;
use vstd::string::*;

verus! {

/// Declares http's header value (re-exported by reqwest): built here, sent
/// by the transport, never read.
#[verifier::external_type_specification]
#[verifier::external_body]
pub struct ExHeaderValue(reqwest::header::HeaderValue);

/// Relies on http 0.2's `HeaderValue::set_sensitive`: it marks the value as
/// one the transport must not log; nothing is claimed of the value.
pub assume_specification[ reqwest::header::HeaderValue::set_sensitive ](
    v: &mut reqwest::header::HeaderValue,
    val: bool,
);

/// A character a header value can carry: a tab, or any character from the
/// space up other than DEL (the bytes of a character beyond ASCII are all
/// 128 or more).
pub open spec fn is_header_char(c: char) -> bool {
    c == '\t' || (c as u32 >= 32 && c as u32 != 127)
}

pub open spec fn is_header_text(s: Seq<char>) -> bool {
    forall|i: int| 0 <= i < s.len() ==> is_header_char(#[trigger] s[i])
}

/// Relies on http 0.2's `HeaderValue::from_str` (through reqwest): it
/// refuses a text exactly when one of its bytes is below 32 but for a tab,
/// or is 127.
#[verifier::external_body]
fn header_value(text: &str) -> (r: std::result::Result<
    reqwest::header::HeaderValue,
    reqwest::header::InvalidHeaderValue,
>)
    ensures
        r is Ok <==> is_header_text(text@),
{
    reqwest::header::HeaderValue::from_str(text)
}

pub open spec fn bearer_spec(token: Token) -> Seq<char> {
    "bearer "@ + token.access_token@
}

/// The text of the authorization header that presents `token`: `bearer `
/// followed by the access token. A header can carry it exactly when it can
/// carry the access token.
pub fn bearer_text(token: &Token) -> (r: String)
    ensures
        r@ == bearer_spec(*token),
        is_header_text(r@) <==> is_header_text(token.access_token@),
{
    let text = String::from_str("bearer ").concat(token.access_token.as_str());
    proof {
        reveal_strlit("bearer ");
        let t = token.access_token@;
        if is_header_text(t) {
            assert forall|i: int| 0 <= i < text@.len() implies is_header_char(#[trigger] text@[i]) by {
                if i >= 7 {
                    assert(text@[i] == t[i - 7]);
                }
            }
        }
        if is_header_text(text@) {
            assert forall|i: int| 0 <= i < t.len() implies is_header_char(#[trigger] t[i]) by {
                assert(text@[i + 7] == t[i]);
            }
        }
    }
    text
}

/// The header value holding `text` (as `bearer_text` makes it), marked
/// sensitive. It fails where `text` holds a character a header cannot carry.
pub fn authorization(text: &str) -> (r: Result<reqwest::header::HeaderValue>)
    ensures
        r is Ok <==> is_header_text(text@),
        r matches Err(e) ==> e is InvalidHeaderValue,
{
    match header_value(text) {
        Ok(v) => {
            let mut v = v;
            v.set_sensitive(true);
            Ok(v)
        },
        Err(e) => Err(ApiError::InvalidHeaderValue(e)),
    }
}

/// Reads the status of an authenticated request: accepted (200), refused
/// for authorization (401, 403), or anything else, which is an error.
pub fn check_auth(status: u16) -> (r: Result<bool>)
    ensures
        status == 200 ==> r == Ok::<bool, ApiError>(true),
        status == 401 || status == 403 ==> r == Ok::<bool, ApiError>(false),
        status != 200 && status != 401 && status != 403 ==> (r matches Err(
            ApiError::UnexpectedStatus(s),
        ) && s == status),
{
    if status == 200 {
        Ok(true)
    } else if status == 401 || status == 403 {
        Ok(false)
    } else {
        Err(ApiError::UnexpectedStatus(status))
    }
}

pub const STILL_UNAUTHORIZED: &'static str =
    "Failed to authenticate, even after requesting new token. Check credentials.";

pub const NO_TOKEN_AFTER_LOGIN: &'static str =
    "Token was not set after logging in, but no error was returned.";

pub const OUT_OF_TURN: &'static str = "The request was told of an event it was not waiting for.";

/// Where an authenticated GET stands.
#[derive(Debug, Clone, Copy)]
pub enum GetCall {
    /// Nothing done yet.
    NoAttempt,
    /// Sent with the token held at the start; waiting for the answer.
    FirstAttempted,
    /// Waiting for a login to finish.
    Refreshing,
    /// Sent again with the fresh token; waiting for the answer.
    Refreshed,
    /// Over: succeeded or failed.
    Done,
}

/// What the caller reports to a call.
#[derive(Debug)]
pub enum GetEvent {
    /// The call starts; carries the token the authenticator holds.
    Begin(Option<Token>),
    /// The request was answered with this status.
    Responded(u16),
    /// The request could not be made or read.
    RequestFailed(ApiError),
    /// The login finished; carries the token the authenticator now holds.
    LoggedIn(Option<Token>),
    /// The login failed.
    LoginFailed(ApiError),
}

/// What a call asks the caller to do next.
#[derive(Debug)]
pub enum GetAction {
    /// Send the request with this authorization header text (see
    /// `bearer_text`).
    Send(String),
    /// Have the authenticator log in.
    Login,
    /// Hand the last answer to the caller: the call succeeded.
    Succeed,
    /// The call failed with this error.
    Fail(ApiError),
}

/// A step of a call, as the contracts speak of it.
pub enum GetStep {
    /// Sends with the header text that presents this token.
    Send(Token),
    Login,
    Succeed,
    /// Fails with an error that came from the transport or the login.
    FailWith(ApiError),
    /// Fails: still refused after a fresh token.
    StillUnauthorized,
    /// Fails: a status outside 200, 401 and 403.
    Unexpected(u16),
    /// Fails: a login reported success but left no token.
    NoTokenAfterLogin,
    /// Fails: an event that does not fit where the call stands.
    OutOfTurn,
}

/// How a call moves on an event. A first refusal (401 or 403) triggers one
/// login and one more attempt; a second refusal ends the call, so a call
/// never sends a third request. Any other status than 200, 401 and 403
/// ends it at once, without a login.
pub open spec fn get_step(call: GetCall, event: GetEvent) -> (GetCall, GetStep) {
    match call {
        GetCall::NoAttempt => match event {
            GetEvent::Begin(Some(t)) => (GetCall::FirstAttempted, GetStep::Send(t)),
            GetEvent::Begin(None) => (GetCall::Refreshing, GetStep::Login),
            _ => (GetCall::Done, GetStep::OutOfTurn),
        },
        GetCall::FirstAttempted => match event {
            GetEvent::Responded(s) => if s == 200 {
                (GetCall::Done, GetStep::Succeed)
            } else if s == 401 || s == 403 {
                (GetCall::Refreshing, GetStep::Login)
            } else {
                (GetCall::Done, GetStep::Unexpected(s))
            },
            GetEvent::RequestFailed(e) => (GetCall::Done, GetStep::FailWith(e)),
            _ => (GetCall::Done, GetStep::OutOfTurn),
        },
        GetCall::Refreshing => match event {
            GetEvent::LoggedIn(Some(t)) => (GetCall::Refreshed, GetStep::Send(t)),
            GetEvent::LoggedIn(None) => (GetCall::Done, GetStep::NoTokenAfterLogin),
            GetEvent::LoginFailed(e) => (GetCall::Done, GetStep::FailWith(e)),
            _ => (GetCall::Done, GetStep::OutOfTurn),
        },
        GetCall::Refreshed => match event {
            GetEvent::Responded(s) => if s == 200 {
                (GetCall::Done, GetStep::Succeed)
            } else if s == 401 || s == 403 {
                (GetCall::Done, GetStep::StillUnauthorized)
            } else {
                (GetCall::Done, GetStep::Unexpected(s))
            },
            GetEvent::RequestFailed(e) => (GetCall::Done, GetStep::FailWith(e)),
            _ => (GetCall::Done, GetStep::OutOfTurn),
        },
        GetCall::Done => (GetCall::Done, GetStep::OutOfTurn),
    }
}

/// Whether an action is the one a step describes.
pub open spec fn action_is(a: GetAction, step: GetStep) -> bool {
    match step {
        GetStep::Send(t) => (a matches GetAction::Send(h) && h@ == bearer_spec(t)),
        GetStep::Login => a is Login,
        GetStep::Succeed => a is Succeed,
        GetStep::FailWith(e) => a == GetAction::Fail(e),
        GetStep::StillUnauthorized => (a matches GetAction::Fail(ApiError::AuthenticationError(m))
            && m@ == STILL_UNAUTHORIZED@),
        GetStep::Unexpected(s) => (a matches GetAction::Fail(ApiError::UnexpectedStatus(c)) && c
            == s),
        GetStep::NoTokenAfterLogin => (a matches GetAction::Fail(ApiError::InvariantBroken(m))
            && m@ == NO_TOKEN_AFTER_LOGIN@),
        GetStep::OutOfTurn => (a matches GetAction::Fail(ApiError::InvariantBroken(m)) && m@
            == OUT_OF_TURN@),
    }
}

impl GetCall {
    pub fn new() -> (r: Self)
        ensures
            r is NoAttempt,
    {
        GetCall::NoAttempt
    }

    /// Moves the call on `event` and says what to do next.
    pub fn advance(&mut self, event: GetEvent) -> (r: GetAction)
        ensures
            *final(self) == get_step(*old(self), event).0,
            action_is(r, get_step(*old(self), event).1),
    {
        let out_of_turn = GetAction::Fail(ApiError::InvariantBroken(String::from_str(OUT_OF_TURN)));
        match *self {
            GetCall::NoAttempt => match event {
                GetEvent::Begin(Some(t)) => {
                    *self = GetCall::FirstAttempted;
                    GetAction::Send(bearer_text(&t))
                },
                GetEvent::Begin(None) => {
                    *self = GetCall::Refreshing;
                    GetAction::Login
                },
                _ => {
                    *self = GetCall::Done;
                    out_of_turn
                },
            },
            GetCall::FirstAttempted => match event {
                GetEvent::Responded(s) => match check_auth(s) {
                    Ok(true) => {
                        *self = GetCall::Done;
                        GetAction::Succeed
                    },
                    Ok(false) => {
                        *self = GetCall::Refreshing;
                        GetAction::Login
                    },
                    Err(e) => {
                        *self = GetCall::Done;
                        GetAction::Fail(e)
                    },
                },
                GetEvent::RequestFailed(e) => {
                    *self = GetCall::Done;
                    GetAction::Fail(e)
                },
                _ => {
                    *self = GetCall::Done;
                    out_of_turn
                },
            },
            GetCall::Refreshing => match event {
                GetEvent::LoggedIn(Some(t)) => {
                    *self = GetCall::Refreshed;
                    GetAction::Send(bearer_text(&t))
                },
                GetEvent::LoggedIn(None) => {
                    *self = GetCall::Done;
                    GetAction::Fail(
                        ApiError::InvariantBroken(String::from_str(NO_TOKEN_AFTER_LOGIN)),
                    )
                },
                GetEvent::LoginFailed(e) => {
                    *self = GetCall::Done;
                    GetAction::Fail(e)
                },
                _ => {
                    *self = GetCall::Done;
                    out_of_turn
                },
            },
            GetCall::Refreshed => match event {
                GetEvent::Responded(s) => {
                    *self = GetCall::Done;
                    match check_auth(s) {
                        Ok(true) => GetAction::Succeed,
                        Ok(false) => GetAction::Fail(
                            ApiError::AuthenticationError(String::from_str(STILL_UNAUTHORIZED)),
                        ),
                        Err(e) => GetAction::Fail(e),
                    }
                },
                GetEvent::RequestFailed(e) => {
                    *self = GetCall::Done;
                    GetAction::Fail(e)
                },
                _ => {
                    *self = GetCall::Done;
                    out_of_turn
                },
            },
            GetCall::Done => out_of_turn,
        }
    }
}

/// The steps a call takes on a run of events, and where it ends.
pub open spec fn run_get(call: GetCall, events: Seq<GetEvent>) -> (GetCall, Seq<GetStep>)
    decreases events.len(),
{
    if events.len() == 0 {
        (call, Seq::empty())
    } else {
        let (next, step) = get_step(call, events[0]);
        let (last, steps) = run_get(next, events.drop_first());
        (last, seq![step] + steps)
    }
}

pub open spec fn count_sends(steps: Seq<GetStep>) -> nat
    decreases steps.len(),
{
    if steps.len() == 0 {
        0
    } else {
        (if steps[0] is Send {
            1nat
        } else {
            0nat
        }) + count_sends(steps.drop_first())
    }
}

pub open spec fn count_logins(steps: Seq<GetStep>) -> nat
    decreases steps.len(),
{
    if steps.len() == 0 {
        0
    } else {
        (if steps[0] is Login {
            1nat
        } else {
            0nat
        }) + count_logins(steps.drop_first())
    }
}

/// Requests a call may still send from where it stands.
spec fn sends_left(call: GetCall) -> nat {
    match call {
        GetCall::NoAttempt => 2,
        GetCall::FirstAttempted => 1,
        GetCall::Refreshing => 1,
        _ => 0,
    }
}

/// Logins a call may still ask for from where it stands.
spec fn logins_left(call: GetCall) -> nat {
    match call {
        GetCall::NoAttempt => 1,
        GetCall::FirstAttempted => 1,
        _ => 0,
    }
}

proof fn lemma_run_within_budget(call: GetCall, events: Seq<GetEvent>)
    ensures
        count_sends(run_get(call, events).1) <= sends_left(call),
        count_logins(run_get(call, events).1) <= logins_left(call),
    decreases events.len(),
{
    if events.len() > 0 {
        lemma_run_within_budget(get_step(call, events[0]).0, events.drop_first());
        let steps = run_get(call, events).1;
        assert(steps.drop_first() == run_get(get_step(call, events[0]).0, events.drop_first()).1);
    }
}

/// Whatever happens, one call sends at most two requests and asks for at
/// most one login: refreshing is retried once, never more.
pub proof fn lemma_single_retry(events: Seq<GetEvent>)
    ensures
        count_sends(run_get(GetCall::NoAttempt, events).1) <= 2,
        count_logins(run_get(GetCall::NoAttempt, events).1) <= 1,
{
    lemma_run_within_budget(GetCall::NoAttempt, events);
}

/// A run of four events takes the four steps that `get_step` gives, one
/// after the other.
proof fn lemma_run_of_four(call: GetCall, e0: GetEvent, e1: GetEvent, e2: GetEvent, e3: GetEvent)
    ensures
        ({
            let (c1, s0) = get_step(call, e0);
            let (c2, s1) = get_step(c1, e1);
            let (c3, s2) = get_step(c2, e2);
            let (c4, s3) = get_step(c3, e3);
            run_get(call, seq![e0, e1, e2, e3]) == (c4, seq![s0, s1, s2, s3])
        }),
{
    let events = seq![e0, e1, e2, e3];
    reveal_with_fuel(run_get, 5);
    assert(events.drop_first() =~= seq![e1, e2, e3]);
    assert(events.drop_first().drop_first() =~= seq![e2, e3]);
    assert(events.drop_first().drop_first().drop_first() =~= seq![e3]);
    assert(events.drop_first().drop_first().drop_first().drop_first() =~= Seq::<GetEvent>::empty());
    let (c1, s0) = get_step(call, e0);
    let (c2, s1) = get_step(c1, e1);
    let (c3, s2) = get_step(c2, e2);
    let (c4, s3) = get_step(c3, e3);
    assert(run_get(call, events).1 =~= seq![s0, s1, s2, s3]);
}

/// A call that starts with a token, is refused (401 or 403), and is answered
/// 200 once the login brought a fresh token, succeeds after logging in
/// exactly once: it sends with the old token, logs in, sends with the new
/// one, and succeeds.
pub proof fn lemma_refresh_then_success(old_token: Token, new_token: Token, refused: u16)
    requires
        refused == 401 || refused == 403,
    ensures
        ({
            let (last, steps) = run_get(
                GetCall::NoAttempt,
                seq![
                    GetEvent::Begin(Some(old_token)),
                    GetEvent::Responded(refused),
                    GetEvent::LoggedIn(Some(new_token)),
                    GetEvent::Responded(200),
                ],
            );
            &&& last is Done
            &&& steps == seq![
                GetStep::Send(old_token),
                GetStep::Login,
                GetStep::Send(new_token),
                GetStep::Succeed,
            ]
            &&& count_logins(steps) == 1
        }),
{
    lemma_run_of_four(
        GetCall::NoAttempt,
        GetEvent::Begin(Some(old_token)),
        GetEvent::Responded(refused),
        GetEvent::LoggedIn(Some(new_token)),
        GetEvent::Responded(200),
    );
    let steps = seq![GetStep::Send(old_token), GetStep::Login, GetStep::Send(new_token), GetStep::Succeed];
    reveal_with_fuel(count_logins, 5);
    assert(steps.drop_first() =~= seq![GetStep::Login, GetStep::Send(new_token), GetStep::Succeed]);
    assert(steps.drop_first().drop_first() =~= seq![GetStep::Send(new_token), GetStep::Succeed]);
    assert(steps.drop_first().drop_first().drop_first() =~= seq![GetStep::Succeed]);
    assert(steps.drop_first().drop_first().drop_first().drop_first() =~= Seq::<GetStep>::empty());
}

proof fn lemma_done_sends_nothing(events: Seq<GetEvent>)
    ensures
        count_sends(run_get(GetCall::Done, events).1) == 0,
        run_get(GetCall::Done, events).0 is Done,
    decreases events.len(),
{
    if events.len() > 0 {
        lemma_done_sends_nothing(events.drop_first());
        let steps = run_get(GetCall::Done, events).1;
        assert(steps.drop_first() == run_get(GetCall::Done, events.drop_first()).1);
    }
}

/// A call refused (401 or 403) both with the token it started with and with
/// the fresh one the login brought fails as unauthorized and is over: it
/// sends nothing more, whatever it is told afterwards.
pub proof fn lemma_refused_twice_fails(
    old_token: Token,
    new_token: Token,
    first: u16,
    second: u16,
    later: Seq<GetEvent>,
)
    requires
        first == 401 || first == 403,
        second == 401 || second == 403,
    ensures
        ({
            let (last, steps) = run_get(
                GetCall::NoAttempt,
                seq![
                    GetEvent::Begin(Some(old_token)),
                    GetEvent::Responded(first),
                    GetEvent::LoggedIn(Some(new_token)),
                    GetEvent::Responded(second),
                ],
            );
            &&& last is Done
            &&& steps == seq![
                GetStep::Send(old_token),
                GetStep::Login,
                GetStep::Send(new_token),
                GetStep::StillUnauthorized,
            ]
        }),
        count_sends(run_get(GetCall::Done, later).1) == 0,
{
    lemma_run_of_four(
        GetCall::NoAttempt,
        GetEvent::Begin(Some(old_token)),
        GetEvent::Responded(first),
        GetEvent::LoggedIn(Some(new_token)),
        GetEvent::Responded(second),
    );
    lemma_done_sends_nothing(later);
}

} // verus!
