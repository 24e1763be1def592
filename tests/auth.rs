use snew::auth::{
    complete_login, parse_response, AnyAuthenticator, ApplicationAuthenticator, Authenticator,
    Credentials, ScriptAuthenticator, Token, TokenJson, UserAuthenticator,
};
use snew::client::{authorization, bearer_text, check_auth, GetAction, GetCall, GetEvent};
use snew::reddit::{me_url, ApiError};

fn token(access: &str) -> Token {
    Token {
        access_token: String::from(access),
        expires_in: 3600,
        scope: String::from("*"),
        token_type: String::from("bearer"),
        refresh_token: None,
    }
}

fn record(access: &str, refresh: Option<&str>) -> TokenJson {
    TokenJson {
        access_token: String::from(access),
        expires_in: 3600,
        scope: String::from("read"),
        token_type: String::from("bearer"),
        refresh_token: refresh.map(String::from),
    }
}

fn pair(k: &str, v: &str) -> (String, String) {
    (String::from(k), String::from(v))
}

fn creds() -> Credentials {
    Credentials::new("id", "secret", "name", "pass")
}

#[test]
fn credentials_keep_their_fields() {
    let c = creds();
    assert_eq!(c.client_id, "id");
    assert_eq!(c.client_secret, "secret");
    assert_eq!(c.username, "name");
    assert_eq!(c.password, "pass");
}

#[test]
fn script_grant_is_password_with_secret() {
    let auth = ScriptAuthenticator::new(creds());
    let req = auth.token_request();
    assert_eq!(
        req.form,
        vec![pair("grant_type", "password"), pair("username", "name"), pair("password", "pass")]
    );
    assert_eq!(req.basic_user, "id");
    assert_eq!(req.basic_password.as_deref(), Some("secret"));
    assert!(auth.token().is_none());
    assert!(auth.is_logged_in());
    assert!(auth.refresh_token().is_none());
}

#[test]
fn application_grant_is_installed_client() {
    let auth = ApplicationAuthenticator::new("app");
    let req = auth.token_request();
    assert_eq!(
        req.form,
        vec![
            pair("grant_type", "https://oauth.reddit.com/grants/installed_client"),
            pair("device_id", "DO_NOT_TRACK_THIS_DEVICE"),
        ]
    );
    assert_eq!(req.basic_user, "app");
    assert_eq!(req.basic_password, None);
}

#[test]
fn user_grant_uses_refresh_token() {
    let auth = UserAuthenticator::new("rt", "app");
    let req = auth.token_request();
    assert_eq!(req.form, vec![pair("grant_type", "refresh_token"), pair("refresh_token", "rt")]);
    assert_eq!(req.basic_user, "app");
    assert_eq!(req.basic_password, None);
    assert_eq!(auth.refresh_token().as_deref(), Some("rt"));
    assert!(auth.is_logged_in());
    assert!(auth.token().is_none());
    let complete = UserAuthenticator::new_complete("rt", "app", token("abc"));
    assert!(complete.is_logged_in());
    assert_eq!(complete.token().unwrap().access_token, "abc");
}

#[test]
fn token_shape_wins_over_error_shape() {
    let r = parse_response(200, Some(record("abc", None)), Some(String::from("x")), "{}");
    assert_eq!(r.unwrap().access_token, "abc");
}

#[test]
fn error_shape_reports_the_reason() {
    let r = parse_response(200, None, Some(String::from("invalid_grant")), "{\"error\":\"invalid_grant\"}");
    match r {
        Err(ApiError::AuthenticationError(m)) => assert_eq!(
            m,
            "Username or password are most likely wrong, Reddit returned: invalid_grant"
        ),
        other => panic!("unexpected {:?}", other),
    }
}

#[test]
fn unauthorized_status_blames_client_credentials() {
    match parse_response(401, None, None, "") {
        Err(ApiError::AuthenticationError(m)) => {
            assert_eq!(m, "Reddit returned 401 Unauthorized, are client ID and secret correct?")
        }
        other => panic!("unexpected {:?}", other),
    }
}

#[test]
fn other_answers_carry_body_and_code() {
    match parse_response(500, None, None, "oops") {
        Err(ApiError::AuthenticationError(m)) => {
            assert_eq!(m, "Unexpected error occured, text: oops, code: 500")
        }
        other => panic!("unexpected {:?}", other),
    }
}

#[test]
fn login_replaces_token_and_failure_keeps_it() {
    let mut auth = ScriptAuthenticator::new(creds());
    assert!(complete_login(&mut auth, Ok(record("first", None))).is_ok());
    assert_eq!(auth.token().unwrap().access_token, "first");
    assert_eq!(auth.token().unwrap().scope, "read");
    assert!(auth.is_logged_in());
    let failed = complete_login(&mut auth, Err(ApiError::AuthenticationError(String::from("no"))));
    assert!(matches!(failed, Err(ApiError::AuthenticationError(_))));
    assert_eq!(auth.token().unwrap().access_token, "first");
}

#[test]
fn application_never_acts_for_a_user() {
    let mut auth = AnyAuthenticator::from(ApplicationAuthenticator::new("app"));
    assert!(matches!(me_url(&auth), Err(ApiError::NotLoggedInError)));
    complete_login(&mut auth, Ok(record("t", None))).unwrap();
    assert!(auth.token().is_some());
    assert!(!auth.is_logged_in());
    assert!(matches!(me_url(&auth), Err(ApiError::NotLoggedInError)));
}

#[test]
fn script_reads_account_url_before_and_after_login() {
    let mut auth = AnyAuthenticator::from(ScriptAuthenticator::new(creds()));
    assert_eq!(me_url(&auth).unwrap(), "https://oauth.reddit.com/api/v1/me");
    complete_login(&mut auth, Ok(record("t", None))).unwrap();
    assert_eq!(me_url(&auth).unwrap(), "https://oauth.reddit.com/api/v1/me");
}

#[test]
fn any_authenticator_forwards() {
    let auth = AnyAuthenticator::from(UserAuthenticator::new("rt", "app"));
    assert_eq!(auth.refresh_token().as_deref(), Some("rt"));
    assert_eq!(auth.token_request().basic_user, "app");
}

#[test]
fn bearer_header_carries_the_token() {
    assert_eq!(bearer_text(&token("abc123")), "bearer abc123");
    let header = authorization(&bearer_text(&token("abc123"))).unwrap();
    assert_eq!(header.to_str().unwrap(), "bearer abc123");
    assert!(header.is_sensitive());
}

#[test]
fn token_with_newline_is_refused_as_header() {
    assert!(matches!(authorization(&bearer_text(&token("ab\ncd"))), Err(ApiError::InvalidHeaderValue(_))));
}

#[test]
fn statuses_read_as_authorization_outcomes() {
    assert!(matches!(check_auth(200), Ok(true)));
    assert!(matches!(check_auth(401), Ok(false)));
    assert!(matches!(check_auth(403), Ok(false)));
    assert!(matches!(check_auth(500), Err(ApiError::UnexpectedStatus(500))));
}

#[test]
fn refused_then_accepted_logs_in_once() {
    let mut call = GetCall::new();
    let mut logins = 0;
    match call.advance(GetEvent::Begin(Some(token("old")))) {
        GetAction::Send(h) => assert_eq!(h, "bearer old"),
        other => panic!("unexpected {:?}", other),
    }
    match call.advance(GetEvent::Responded(401)) {
        GetAction::Login => logins += 1,
        other => panic!("unexpected {:?}", other),
    }
    match call.advance(GetEvent::LoggedIn(Some(token("new")))) {
        GetAction::Send(h) => assert_eq!(h, "bearer new"),
        other => panic!("unexpected {:?}", other),
    }
    assert!(matches!(call.advance(GetEvent::Responded(200)), GetAction::Succeed));
    assert_eq!(logins, 1);
    assert!(matches!(call, GetCall::Done));
}

#[test]
fn refused_twice_fails_without_third_request() {
    let mut call = GetCall::new();
    call.advance(GetEvent::Begin(Some(token("old"))));
    assert!(matches!(call.advance(GetEvent::Responded(403)), GetAction::Login));
    call.advance(GetEvent::LoggedIn(Some(token("new"))));
    match call.advance(GetEvent::Responded(401)) {
        GetAction::Fail(ApiError::AuthenticationError(m)) => assert_eq!(
            m,
            "Failed to authenticate, even after requesting new token. Check credentials."
        ),
        other => panic!("unexpected {:?}", other),
    }
    assert!(matches!(
        call.advance(GetEvent::Responded(401)),
        GetAction::Fail(ApiError::InvariantBroken(_))
    ));
}

#[test]
fn accepted_at_once_needs_no_login() {
    let mut call = GetCall::new();
    match call.advance(GetEvent::Begin(Some(token("t")))) {
        GetAction::Send(h) => assert_eq!(h, "bearer t"),
        other => panic!("unexpected {:?}", other),
    }
    assert!(matches!(call.advance(GetEvent::Responded(200)), GetAction::Succeed));
}

#[test]
fn no_token_logs_in_first() {
    let mut call = GetCall::new();
    assert!(matches!(call.advance(GetEvent::Begin(None)), GetAction::Login));
    assert!(matches!(call.advance(GetEvent::LoggedIn(Some(token("t")))), GetAction::Send(_)));
}

#[test]
fn unexpected_status_fails_without_login() {
    let mut call = GetCall::new();
    call.advance(GetEvent::Begin(Some(token("t"))));
    assert!(matches!(
        call.advance(GetEvent::Responded(502)),
        GetAction::Fail(ApiError::UnexpectedStatus(502))
    ));
}

#[test]
fn login_without_token_is_a_broken_invariant() {
    let mut call = GetCall::new();
    call.advance(GetEvent::Begin(None));
    assert!(matches!(
        call.advance(GetEvent::LoggedIn(None)),
        GetAction::Fail(ApiError::InvariantBroken(_))
    ));
}

#[test]
fn failed_login_ends_the_call() {
    let mut call = GetCall::new();
    call.advance(GetEvent::Begin(None));
    assert!(matches!(
        call.advance(GetEvent::LoginFailed(ApiError::AuthenticationError(String::from("x")))),
        GetAction::Fail(ApiError::AuthenticationError(_))
    ));
}

#[test]
fn token_from_record_keeps_every_field() {
    let t = Token::from(record("a", Some("r")));
    assert_eq!(t.refresh_token.as_deref(), Some("r"));
    assert_eq!(t.access_token, "a");
    assert_eq!(t.expires_in, 3600);
    assert_eq!(t.scope, "read");
    assert_eq!(t.token_type, "bearer");
}

#[test]
fn transport_failure_ends_the_call() {
    let failure = reqwest::blocking::get("not a url").unwrap_err();
    let mut call = GetCall::new();
    call.advance(GetEvent::Begin(Some(token("t"))));
    assert!(matches!(
        call.advance(GetEvent::RequestFailed(ApiError::RequestError(failure))),
        GetAction::Fail(ApiError::RequestError(_))
    ));
    assert!(matches!(call, GetCall::Done));
}
