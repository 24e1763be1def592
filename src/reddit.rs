//! The API root, the crate's errors, and the decisions of the OAuth2 code flow.
use crate::auth::{token_of, user_grant, Authenticator, Token, TokenJson, UserAuthenticator};
use rand::Rng;
use vstd::prelude::*;
use vstd::string::*;

verus! {

/// The root that every authenticated resource request goes to.
pub const URL: &'static str = "https://oauth.reddit.com";

/// Declares reqwest's error type: a transport failure, carried unread.
#[verifier::external_type_specification]
#[verifier::external_body]
pub struct ExRequestError(reqwest::Error);

/// Declares serde_json's error type: a body that did not decode, carried unread.
#[verifier::external_type_specification]
#[verifier::external_body]
pub struct ExJsonError(serde_json::Error);

/// Declares the error of `HeaderValue::from_str` (the http crate, re-exported
/// by reqwest), carried unread.
#[verifier::external_type_specification]
#[verifier::external_body]
pub struct ExInvalidHeaderValue(reqwest::header::InvalidHeaderValue);

/// Everything that can go wrong when talking to the API.
#[derive(Debug)]
pub enum ApiError {
    /// The transport failed (connection, TLS, reading the body).
    RequestError(reqwest::Error),
    /// The credential exchange failed, or a request stayed unauthorized after
    /// a fresh token; carries a readable reason.
    AuthenticationError(String),
    /// A response body did not have the expected JSON shape.
    APIParseError(serde_json::Error),
    /// An access token held bytes that a header cannot carry.
    InvalidHeaderValue(reqwest::header::InvalidHeaderValue),
    /// The operation needs a user account, and the authenticator has none.
    NotLoggedInError,
    /// A lock around shared state was poisoned by a panicking thread.
    PoisonError,
    /// A link led to nothing this crate knows how to read.
    NoReadableContent,
    /// The server answered with a status outside 200, 401 and 403.
    UnexpectedStatus(u16),
    /// A state that cannot happen did happen (a login that reported success
    /// left no token behind).
    InvariantBroken(String),
}

pub type Result<T> = std::result::Result<T, ApiError>;

/// What can end the code flow early.
#[derive(Debug)]
pub enum CodeFlowError {
    /// The state echoed back is not the one sent: (sent, received).
    StateDidNotMatch(String, String),
    /// The redirect lacked the state or the code; carries the message, which
    /// quotes the raw query.
    MissingParameters(String),
    /// The user or the server refused the authorization; carries its reason.
    Denied(String),
    /// No redirect arrived before the deadline.
    TimedOut,
    /// The token exchange succeeded but returned no refresh token.
    MissingRefreshToken,
    /// The token exchange itself failed.
    RedditError(ApiError),
}

/// Where the authorization server sends the user back to.
pub const REDIRECT_URI: &'static str = "http://localhost:8080";

/// Length of the random state that ties a redirect to its request.
pub const STATE_LEN: usize = 25;

pub open spec fn is_alphanumeric(c: char) -> bool {
    ('A' <= c && c <= 'Z') || ('a' <= c && c <= 'z') || ('0' <= c && c <= '9')
}

/// Relies on rand's `thread_rng` sampled through `Alphanumeric`: it yields
/// bytes of `A-Z`, `a-z` and `0-9` only, one per character taken.
#[verifier::external_body]
fn random_alphanumeric(len: usize) -> (r: String)
    ensures
        r@.len() == len,
        forall|i: int| 0 <= i < len ==> is_alphanumeric(#[trigger] r@[i]),
{
    rand::thread_rng().sample_iter(&rand::distributions::Alphanumeric).take(len).map(char::from).collect()
}

/// One run of the OAuth2 authorization-code flow for an installed app: the
/// client id it runs for and the random state it sent out.
#[derive(Debug)]
pub struct CodeFlow {
    pub client_id: String,
    pub state: String,
}

pub open spec fn authorize_url_spec(client_id: Seq<char>, state: Seq<char>) -> Seq<char> {
    "https://www.reddit.com/api/v1/authorize?client_id="@ + client_id + "&response_type=code&state="@
        + state + "&redirect_uri="@ + REDIRECT_URI@ + "&duration=permanent&scope=*"@
}

pub open spec fn exchange_body_spec(code: Seq<char>) -> Seq<char> {
    "grant_type=authorization_code&code="@ + code + "&redirect_uri="@ + REDIRECT_URI@
}

pub open spec fn missing_parameters_spec(raw_query: Seq<char>) -> Seq<char> {
    "Missing state or code parameter. This is a bug from Reddit. Try again. Parameters reddit returned: "@ + raw_query
}

impl CodeFlow {
    /// Starts a flow for `client_id` with a fresh random state.
    pub fn begin(client_id: &str) -> (r: CodeFlow)
        ensures
            r.client_id@ == client_id@,
            r.state@.len() == STATE_LEN,
            forall|i: int| 0 <= i < STATE_LEN ==> is_alphanumeric(#[trigger] r.state@[i]),
    {
        CodeFlow { client_id: String::from_str(client_id), state: random_alphanumeric(STATE_LEN) }
    }

    /// The page the user opens to grant access.
    pub fn authorize_url(&self) -> (r: String)
        ensures
            r@ == authorize_url_spec(self.client_id@, self.state@),
    {
        let r = String::from_str("https://www.reddit.com/api/v1/authorize?client_id=");
        let r = r.concat(self.client_id.as_str());
        let r = r.concat("&response_type=code&state=");
        let r = r.concat(self.state.as_str());
        let r = r.concat("&redirect_uri=");
        let r = r.concat(REDIRECT_URI);
        r.concat("&duration=permanent&scope=*")
    }

    /// Reads the redirect that the authorization server sends back: its
    /// `error`, `state` and `code` parameters and its raw query. Returns the
    /// text to answer the browser with, and the outcome: the (state, code)
    /// pair, or why there is none.
    pub fn redirect(
        error: Option<String>,
        state: Option<String>,
        code: Option<String>,
        raw_query: &str,
        success_response: &str,
    ) -> (r: (String, std::result::Result<(String, String), CodeFlowError>))
        ensures
            error matches Some(e) ==> r.0@ == "Something went wrong: "@ + e@ && (r.1 matches Err(
                CodeFlowError::Denied(d),
            ) && d == e),
            error is None && state is Some && code is Some ==> r.0@ == success_response@ && r.1
                == Ok::<(String, String), CodeFlowError>((state->0, code->0)),
            error is None && (state is None || code is None) ==> r.0@ == missing_parameters_spec(
                raw_query@,
            ) && (r.1 matches Err(CodeFlowError::MissingParameters(m)) && m@ == r.0@),
    {
        match error {
            Some(e) => {
                let reply = String::from_str("Something went wrong: ").concat(e.as_str());
                (reply, Err(CodeFlowError::Denied(e)))
            },
            None => match (state, code) {
                (Some(s), Some(c)) => (String::from_str(success_response), Ok((s, c))),
                _ => {
                    let reply = String::from_str(
                        "Missing state or code parameter. This is a bug from Reddit. Try again. Parameters reddit returned: ",
                    ).concat(raw_query);
                    let copy = reply.clone();
                    (reply, Err(CodeFlowError::MissingParameters(copy)))
                },
            },
        }
    }

    /// Checks what the redirect brought (nothing, if the wait timed out)
    /// against the state sent out, and gives the body of the request that
    /// trades the code for tokens.
    pub fn exchange_body(
        &self,
        received: Option<std::result::Result<(String, String), CodeFlowError>>,
    ) -> (r: std::result::Result<String, CodeFlowError>)
        ensures
            received is None ==> r matches Err(CodeFlowError::TimedOut),
            received matches Some(Err(e)) ==> r == Err::<String, CodeFlowError>(e),
            received matches Some(Ok((s, c))) ==> {
                if s@ == self.state@ {
                    r matches Ok(b) && b@ == exchange_body_spec(c@)
                } else {
                    r matches Err(CodeFlowError::StateDidNotMatch(sent, got)) && sent@
                        == self.state@ && got == s
                }
            },
    {
        match received {
            None => Err(CodeFlowError::TimedOut),
            Some(Err(e)) => Err(e),
            Some(Ok((s, c))) => {
                if s == self.state {
                    let b = String::from_str("grant_type=authorization_code&code=");
                    let b = b.concat(c.as_str());
                    let b = b.concat("&redirect_uri=");
                    Ok(b.concat(REDIRECT_URI))
                } else {
                    Err(CodeFlowError::StateDidNotMatch(self.state.clone(), s))
                }
            },
        }
    }

    /// Ends the flow with the answer to the code exchange (as
    /// `parse_response` read it): an authenticator that acts for the user,
    /// holding the token and the refresh token the answer carries.
    pub fn complete(&self, answer: Result<TokenJson>) -> (r: std::result::Result<
        UserAuthenticator,
        CodeFlowError,
    >)
        ensures
            match answer {
                Err(e) => r matches Err(CodeFlowError::RedditError(f)) && f == e,
                Ok(t) => match t.refresh_token {
                    None => r matches Err(CodeFlowError::MissingRefreshToken),
                    Some(rt) => r matches Ok(a) && a.held_token() == Some(token_of(t))
                        && a.acts_for_user() && a.kept_refresh_token() == Some(rt@) && a.grant()
                        == user_grant(rt@, self.client_id@),
                },
            },
    {
        match answer {
            Err(e) => Err(CodeFlowError::RedditError(e)),
            Ok(t) => {
                let TokenJson { access_token, expires_in, scope, token_type, refresh_token } = t;
                match refresh_token {
                    None => Err(CodeFlowError::MissingRefreshToken),
                    Some(rt) => {
                        let token = Token {
                            access_token,
                            expires_in,
                            scope,
                            token_type,
                            refresh_token: Some(rt.clone()),
                        };
                        Ok(
                            UserAuthenticator::new_complete(
                                rt.as_str(),
                                self.client_id.as_str(),
                                token,
                            ),
                        )
                    },
                }
            },
        }
    }
}

pub open spec fn me_url_spec() -> Seq<char> {
    URL@ + "/api/v1/me"@
}

/// Where information about the account is read from. Only an authenticator
/// that acts for a user may ask; any other is refused before a request is
/// made.
pub fn me_url<A: Authenticator>(auth: &A) -> (r: Result<String>)
    ensures
        auth.acts_for_user() ==> (r matches Ok(u) && u@ == me_url_spec()),
        !auth.acts_for_user() ==> (r matches Err(ApiError::NotLoggedInError)),
{
    if auth.is_logged_in() {
        Ok(String::from_str(URL).concat("/api/v1/me"))
    } else {
        Err(ApiError::NotLoggedInError)
    }
}

} // verus!
