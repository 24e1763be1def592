use snew::auth::{Authenticator, TokenJson};
use snew::content::{content_kind, Content, ContentKind};
use snew::raw::{RawKind, RawPostData};
use snew::reddit::{ApiError, CodeFlow, CodeFlowError};
use snew::text::{i64_decimal, u64_decimal};
use snew::things::Post;

fn flow() -> CodeFlow {
    CodeFlow { client_id: String::from("cid"), state: String::from("S1") }
}

#[test]
fn state_is_random_alphanumeric() {
    let f = CodeFlow::begin("cid");
    assert_eq!(f.client_id, "cid");
    assert_eq!(f.state.chars().count(), 25);
    assert!(f.state.chars().all(|c| c.is_ascii_alphanumeric()));
}

#[test]
fn authorize_url_names_client_and_state() {
    assert_eq!(
        flow().authorize_url(),
        "https://www.reddit.com/api/v1/authorize?client_id=cid&response_type=code&state=S1\
         &redirect_uri=http://localhost:8080&duration=permanent&scope=*"
    );
}

#[test]
fn redirect_with_error_is_denied() {
    let (reply, outcome) =
        CodeFlow::redirect(Some(String::from("access_denied")), None, None, "error=access_denied", "ok");
    assert_eq!(reply, "Something went wrong: access_denied");
    assert!(matches!(outcome, Err(CodeFlowError::Denied(e)) if e == "access_denied"));
}

#[test]
fn redirect_with_state_and_code_succeeds() {
    let (reply, outcome) =
        CodeFlow::redirect(None, Some(String::from("S1")), Some(String::from("C")), "", "thanks");
    assert_eq!(reply, "thanks");
    assert_eq!(outcome.unwrap(), (String::from("S1"), String::from("C")));
}

#[test]
fn redirect_without_code_reports_the_query() {
    let (reply, outcome) = CodeFlow::redirect(None, Some(String::from("S1")), None, "state=S1", "ok");
    assert_eq!(
        reply,
        "Missing state or code parameter. This is a bug from Reddit. Try again. Parameters reddit returned: state=S1"
    );
    assert!(matches!(outcome, Err(CodeFlowError::MissingParameters(m)) if m == reply));
}

#[test]
fn matching_state_gives_exchange_body() {
    let body = flow().exchange_body(Some(Ok((String::from("S1"), String::from("CODE")))));
    assert_eq!(
        body.unwrap(),
        "grant_type=authorization_code&code=CODE&redirect_uri=http://localhost:8080"
    );
}

#[test]
fn other_state_is_refused() {
    let r = flow().exchange_body(Some(Ok((String::from("S2"), String::from("CODE")))));
    assert!(matches!(r, Err(CodeFlowError::StateDidNotMatch(a, b)) if a == "S1" && b == "S2"));
}

#[test]
fn no_redirect_times_out() {
    assert!(matches!(flow().exchange_body(None), Err(CodeFlowError::TimedOut)));
    let passed = flow().exchange_body(Some(Err(CodeFlowError::Denied(String::from("x")))));
    assert!(matches!(passed, Err(CodeFlowError::Denied(_))));
}

#[test]
fn exchange_answer_becomes_user_authenticator() {
    let answer = TokenJson {
        access_token: String::from("at"),
        expires_in: 1,
        scope: String::from("*"),
        token_type: String::from("bearer"),
        refresh_token: Some(String::from("rt")),
    };
    let auth = flow().complete(Ok(answer)).unwrap();
    assert!(auth.is_logged_in());
    assert_eq!(auth.token().unwrap().access_token, "at");
    assert_eq!(auth.refresh_token().as_deref(), Some("rt"));
    assert_eq!(auth.token_request().basic_user, "cid");
}

#[test]
fn exchange_answer_without_refresh_token_fails() {
    let answer = TokenJson {
        access_token: String::from("at"),
        expires_in: 1,
        scope: String::from("*"),
        token_type: String::from("bearer"),
        refresh_token: None,
    };
    assert!(matches!(flow().complete(Ok(answer)), Err(CodeFlowError::MissingRefreshToken)));
    let failed = flow().complete(Err(ApiError::NotLoggedInError));
    assert!(matches!(failed, Err(CodeFlowError::RedditError(ApiError::NotLoggedInError))));
}

#[test]
fn content_types_by_media_type() {
    assert!(matches!(content_kind("image/png"), Some(ContentKind::Image)));
    assert!(matches!(content_kind("image"), Some(ContentKind::Image)));
    assert!(matches!(content_kind("text/html; charset=utf-8"), Some(ContentKind::Html)));
    assert!(matches!(content_kind("text/plain"), Some(ContentKind::Text)));
    assert!(content_kind("application/json").is_none());
    assert!(content_kind("images/png").is_none());
    assert!(content_kind("").is_none());
}

#[test]
fn self_post_content_is_its_text() {
    let raw = RawKind {
        kind: String::from("t3"),
        data: RawPostData {
            title: String::from("t"),
            score: 1,
            url: String::from("u"),
            author: String::from("a"),
            subreddit: String::from("s"),
            selftext: String::from("hello"),
            num_comments: 0,
            is_self: true,
            nsfw: false,
            id: String::from("i"),
        },
    };
    let post = Post::from(raw);
    assert!(matches!(post.get_content(), Some(Content::Text(t)) if t == "hello"));
    let mut link = post.clone();
    link.selftext = None;
    assert!(link.get_content().is_none());
}

#[test]
fn decimals() {
    assert_eq!(u64_decimal(0), "0");
    assert_eq!(u64_decimal(7), "7");
    assert_eq!(u64_decimal(10), "10");
    assert_eq!(u64_decimal(12345), "12345");
    assert_eq!(u64_decimal(u64::MAX), "18446744073709551615");
    assert_eq!(i64_decimal(-5), "-5");
    assert_eq!(i64_decimal(i64::MIN), "-9223372036854775808");
    assert_eq!(i64_decimal(100), "100");
}
