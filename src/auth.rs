//! Authentication towards the API.
use crate::reddit::{ApiError, Result};
use crate::text::{nat_decimal, pair_view, u64_decimal};
use vstd::prelude::*;
use vstd::string::*;

verus! {

/// An access token.
#[derive(Debug)]
pub struct Token {
    pub access_token: String,
    pub expires_in: i32,
    pub scope: String,
    pub token_type: String,
    /// The refresh token issued with it, if any.
    pub refresh_token: Option<String>,
}

impl Clone for Token {
    fn clone(&self) -> (r: Self)
        ensures
            r == *self,
    {
        Token {
            access_token: self.access_token.clone(),
            expires_in: self.expires_in,
            scope: self.scope.clone(),
            token_type: self.token_type.clone(),
            refresh_token: match &self.refresh_token {
                Some(t) => Some(t.clone()),
                None => None,
            },
        }
    }
}

/// A token record as the authorization endpoint returns it.
#[derive(Debug)]
pub struct TokenJson {
    pub access_token: String,
    pub expires_in: i32,
    pub scope: String,
    pub token_type: String,
    pub refresh_token: Option<String>,
}

/// The token a token record carries.
pub open spec fn token_of(token: TokenJson) -> Token {
    Token {
        access_token: token.access_token,
        expires_in: token.expires_in,
        scope: token.scope,
        token_type: token.token_type,
        refresh_token: token.refresh_token,
    }
}

impl From<TokenJson> for Token {
    fn from(token: TokenJson) -> (r: Self)
        ensures
            r == token_of(token),
    {
        Token {
            access_token: token.access_token,
            expires_in: token.expires_in,
            scope: token.scope,
            token_type: token.token_type,
            refresh_token: token.refresh_token,
        }
    }
}

impl vstd::std_specs::convert::FromSpecImpl<TokenJson> for Token {
    open spec fn obeys_from_spec() -> bool {
        true
    }

    open spec fn from_spec(token: TokenJson) -> Token {
        token_of(token)
    }
}

/// Login credentials.
#[derive(Debug, Clone)]
pub struct Credentials {
    pub client_id: String,
    pub client_secret: String,
    pub username: String,
    pub password: String,
}

impl Credentials {
    pub fn new(client_id: &str, client_secret: &str, username: &str, password: &str) -> (r: Self)
        ensures
            r.client_id@ == client_id@,
            r.client_secret@ == client_secret@,
            r.username@ == username@,
            r.password@ == password@,
    {
        Credentials {
            client_id: String::from_str(client_id),
            client_secret: String::from_str(client_secret),
            username: String::from_str(username),
            password: String::from_str(password),
        }
    }
}

/// Where every grant is exchanged for a token.
pub const ACCESS_TOKEN_URL: &'static str = "https://www.reddit.com/api/v1/access_token";

/// A token request as a view: its form fields, and the user and password of
/// its basic authentication.
pub struct TokenRequestView {
    pub form: Seq<(Seq<char>, Seq<char>)>,
    pub basic_user: Seq<char>,
    pub basic_password: Option<Seq<char>>,
}

/// What a login posts to `ACCESS_TOKEN_URL`: the grant as form fields in the
/// body, and
/// the client id (with the secret, where there is one) as basic
/// authentication.
#[derive(Debug)]
pub struct TokenRequest {
    pub form: Vec<(String, String)>,
    pub basic_user: String,
    pub basic_password: Option<String>,
}

impl TokenRequest {
    pub open spec fn view(&self) -> TokenRequestView {
        TokenRequestView {
            form: self.form@.map_values(|p: (String, String)| pair_view(p)),
            basic_user: self.basic_user@,
            basic_password: match self.basic_password {
                Some(p) => Some(p@),
                None => None,
            },
        }
    }
}

fn pair(k: &str, v: &str) -> (r: (String, String))
    ensures
        r.0@ == k@,
        r.1@ == v@,
{
    (String::from_str(k), String::from_str(v))
}

/// Something that can obtain access to the API.
pub trait Authenticator {
    /// The token last obtained, if any.
    spec fn held_token(&self) -> Option<Token>;

    /// Whether it can act for a user account: a script or a user login can,
    /// whether or not it holds a token yet (a request logs in when it holds
    /// none); an anonymous application cannot.
    spec fn acts_for_user(&self) -> bool;

    /// The refresh token kept for later sessions, if any.
    spec fn kept_refresh_token(&self) -> Option<Seq<char>>;

    /// What a login asks the authorization endpoint for.
    spec fn grant(&self) -> TokenRequestView;

    /// The token last obtained, without asking the server.
    fn token(&self) -> (r: Option<Token>)
        ensures
            r == self.held_token(),
    ;

    /// Whether it can make requests that pertain to a user.
    fn is_logged_in(&self) -> (r: bool)
        ensures
            r == self.acts_for_user(),
    ;

    /// The refresh token, if one exists.
    fn refresh_token(&self) -> (r: Option<String>)
        ensures
            match r {
                Some(t) => self.kept_refresh_token() == Some(t@),
                None => self.kept_refresh_token() is None,
            },
    ;

    /// The request a login sends.
    fn token_request(&self) -> (r: TokenRequest)
        ensures
            r.view() == self.grant(),
    ;

    /// Replaces the held token, keeping the credentials and the kind.
    fn set_token(&mut self, token: Token)
        ensures
            final(self).held_token() == Some(token),
            final(self).acts_for_user() == old(self).acts_for_user(),
            final(self).grant() == old(self).grant(),
            final(self).kept_refresh_token() == old(self).kept_refresh_token(),
    ;
}

fn clone_token(t: &Option<Token>) -> (r: Option<Token>)
    ensures
        r == *t,
{
    match t {
        Some(t) => Some(t.clone()),
        None => None,
    }
}

/// Authenticates on behalf of a user who completed the code flow, with the
/// refresh token it produced.
#[derive(Debug)]
pub struct UserAuthenticator {
    refresh_token: String,
    token: Option<Token>,
    /// Needed to get an access token, even with a refresh token.
    client_id: String,
}

impl UserAuthenticator {
    pub fn new(refresh_token: &str, client_id: &str) -> (r: Self)
        ensures
            r.held_token() is None,
            r.acts_for_user(),
            r.kept_refresh_token() == Some(refresh_token@),
            r.grant() == user_grant(refresh_token@, client_id@),
    {
        UserAuthenticator {
            refresh_token: String::from_str(refresh_token),
            token: None,
            client_id: String::from_str(client_id),
        }
    }

    pub fn new_complete(refresh_token: &str, client_id: &str, token: Token) -> (r: Self)
        ensures
            r.held_token() == Some(token),
            r.acts_for_user(),
            r.kept_refresh_token() == Some(refresh_token@),
            r.grant() == user_grant(refresh_token@, client_id@),
    {
        UserAuthenticator {
            refresh_token: String::from_str(refresh_token),
            token: Some(token),
            client_id: String::from_str(client_id),
        }
    }
}

pub open spec fn user_grant(refresh_token: Seq<char>, client_id: Seq<char>) -> TokenRequestView {
    TokenRequestView {
        form: seq![("grant_type"@, "refresh_token"@), ("refresh_token"@, refresh_token)],
        basic_user: client_id,
        basic_password: None,
    }
}

impl Authenticator for UserAuthenticator {
    closed spec fn held_token(&self) -> Option<Token> {
        self.token
    }

    open spec fn acts_for_user(&self) -> bool {
        true
    }

    closed spec fn kept_refresh_token(&self) -> Option<Seq<char>> {
        Some(self.refresh_token@)
    }

    closed spec fn grant(&self) -> TokenRequestView {
        user_grant(self.refresh_token@, self.client_id@)
    }

    fn token(&self) -> (r: Option<Token>) {
        clone_token(&self.token)
    }

    fn is_logged_in(&self) -> (r: bool)
        ensures
            r,
    {
        true
    }

    fn refresh_token(&self) -> (r: Option<String>) {
        Some(self.refresh_token.clone())
    }

    fn token_request(&self) -> (r: TokenRequest) {
        let mut form = Vec::new();
        form.push(pair("grant_type", "refresh_token"));
        form.push(pair("refresh_token", self.refresh_token.as_str()));
        let r = TokenRequest {
            form,
            basic_user: self.client_id.clone(),
            basic_password: None,
        };
        assert(r.view().form =~= self.grant().form);
        r
    }

    fn set_token(&mut self, token: Token) {
        self.token = Some(token);
    }
}

/// Authenticates a script: an app its owner runs with their own username
/// and password, logged in as that user.
#[derive(Debug)]
pub struct ScriptAuthenticator {
    creds: Credentials,
    token: Option<Token>,
}

impl ScriptAuthenticator {
    pub fn new(creds: Credentials) -> (r: Self)
        ensures
            r.held_token() is None,
            r.acts_for_user(),
            r.kept_refresh_token() is None,
            r.grant() == script_grant(creds),
    {
        ScriptAuthenticator { creds, token: None }
    }
}

pub open spec fn script_grant(creds: Credentials) -> TokenRequestView {
    TokenRequestView {
        form: seq![
            ("grant_type"@, "password"@),
            ("username"@, creds.username@),
            ("password"@, creds.password@),
        ],
        basic_user: creds.client_id@,
        basic_password: Some(creds.client_secret@),
    }
}

impl Authenticator for ScriptAuthenticator {
    closed spec fn held_token(&self) -> Option<Token> {
        self.token
    }

    open spec fn acts_for_user(&self) -> bool {
        true
    }

    closed spec fn kept_refresh_token(&self) -> Option<Seq<char>> {
        None
    }

    closed spec fn grant(&self) -> TokenRequestView {
        script_grant(self.creds)
    }

    fn token(&self) -> (r: Option<Token>) {
        clone_token(&self.token)
    }

    fn is_logged_in(&self) -> (r: bool)
        ensures
            r,
    {
        true
    }

    fn refresh_token(&self) -> (r: Option<String>) {
        None
    }

    fn token_request(&self) -> (r: TokenRequest) {
        let mut form = Vec::new();
        form.push(pair("grant_type", "password"));
        form.push(pair("username", self.creds.username.as_str()));
        form.push(pair("password", self.creds.password.as_str()));
        let r = TokenRequest {
            form,
            basic_user: self.creds.client_id.clone(),
            basic_password: Some(self.creds.client_secret.clone()),
        };
        assert(r.view().form =~= self.grant().form);
        r
    }

    fn set_token(&mut self, token: Token) {
        self.token = Some(token);
    }
}

/// Authenticates an installed application anonymously: it can browse, but
/// acts for no user.
#[derive(Debug)]
pub struct ApplicationAuthenticator {
    client_id: String,
    token: Option<Token>,
}

impl ApplicationAuthenticator {
    pub fn new(client_id: &str) -> (r: Self)
        ensures
            r.held_token() is None,
            !r.acts_for_user(),
            r.kept_refresh_token() is None,
            r.grant() == application_grant(client_id@),
    {
        ApplicationAuthenticator { client_id: String::from_str(client_id), token: None }
    }
}

pub open spec fn application_grant(client_id: Seq<char>) -> TokenRequestView {
    TokenRequestView {
        form: seq![
            ("grant_type"@, "https://oauth.reddit.com/grants/installed_client"@),
            ("device_id"@, "DO_NOT_TRACK_THIS_DEVICE"@),
        ],
        basic_user: client_id,
        basic_password: None,
    }
}

impl Authenticator for ApplicationAuthenticator {
    closed spec fn held_token(&self) -> Option<Token> {
        self.token
    }

    open spec fn acts_for_user(&self) -> bool {
        false
    }

    closed spec fn kept_refresh_token(&self) -> Option<Seq<char>> {
        None
    }

    closed spec fn grant(&self) -> TokenRequestView {
        application_grant(self.client_id@)
    }

    fn token(&self) -> (r: Option<Token>) {
        clone_token(&self.token)
    }

    fn is_logged_in(&self) -> (r: bool)
        ensures
            !r,
    {
        false
    }

    fn refresh_token(&self) -> (r: Option<String>) {
        None
    }

    fn token_request(&self) -> (r: TokenRequest) {
        let mut form = Vec::new();
        form.push(pair("grant_type", "https://oauth.reddit.com/grants/installed_client"));
        form.push(pair("device_id", "DO_NOT_TRACK_THIS_DEVICE"));
        let r = TokenRequest { form, basic_user: self.client_id.clone(), basic_password: None };
        assert(r.view().form =~= self.grant().form);
        r
    }

    fn set_token(&mut self, token: Token) {
        self.token = Some(token);
    }
}

/// One of the three kinds of authenticator, so that a client can hold any of
/// them and have it swapped for another.
#[derive(Debug)]
pub enum AnyAuthenticator {
    User(UserAuthenticator),
    Script(ScriptAuthenticator),
    Application(ApplicationAuthenticator),
}

impl Authenticator for AnyAuthenticator {
    open spec fn held_token(&self) -> Option<Token> {
        match self {
            AnyAuthenticator::User(a) => a.held_token(),
            AnyAuthenticator::Script(a) => a.held_token(),
            AnyAuthenticator::Application(a) => a.held_token(),
        }
    }

    open spec fn acts_for_user(&self) -> bool {
        match self {
            AnyAuthenticator::User(a) => a.acts_for_user(),
            AnyAuthenticator::Script(a) => a.acts_for_user(),
            AnyAuthenticator::Application(a) => a.acts_for_user(),
        }
    }

    open spec fn kept_refresh_token(&self) -> Option<Seq<char>> {
        match self {
            AnyAuthenticator::User(a) => a.kept_refresh_token(),
            AnyAuthenticator::Script(a) => a.kept_refresh_token(),
            AnyAuthenticator::Application(a) => a.kept_refresh_token(),
        }
    }

    open spec fn grant(&self) -> TokenRequestView {
        match self {
            AnyAuthenticator::User(a) => a.grant(),
            AnyAuthenticator::Script(a) => a.grant(),
            AnyAuthenticator::Application(a) => a.grant(),
        }
    }

    fn token(&self) -> (r: Option<Token>) {
        match self {
            AnyAuthenticator::User(a) => a.token(),
            AnyAuthenticator::Script(a) => a.token(),
            AnyAuthenticator::Application(a) => a.token(),
        }
    }

    fn is_logged_in(&self) -> (r: bool) {
        match self {
            AnyAuthenticator::User(a) => a.is_logged_in(),
            AnyAuthenticator::Script(a) => a.is_logged_in(),
            AnyAuthenticator::Application(a) => a.is_logged_in(),
        }
    }

    fn refresh_token(&self) -> (r: Option<String>) {
        match self {
            AnyAuthenticator::User(a) => a.refresh_token(),
            AnyAuthenticator::Script(a) => a.refresh_token(),
            AnyAuthenticator::Application(a) => a.refresh_token(),
        }
    }

    fn token_request(&self) -> (r: TokenRequest) {
        match self {
            AnyAuthenticator::User(a) => a.token_request(),
            AnyAuthenticator::Script(a) => a.token_request(),
            AnyAuthenticator::Application(a) => a.token_request(),
        }
    }

    fn set_token(&mut self, token: Token) {
        match self {
            AnyAuthenticator::User(a) => a.set_token(token),
            AnyAuthenticator::Script(a) => a.set_token(token),
            AnyAuthenticator::Application(a) => a.set_token(token),
        }
    }
}

impl From<UserAuthenticator> for AnyAuthenticator {
    fn from(a: UserAuthenticator) -> (r: Self)
        ensures
            r == AnyAuthenticator::User(a),
    {
        AnyAuthenticator::User(a)
    }
}

impl vstd::std_specs::convert::FromSpecImpl<UserAuthenticator> for AnyAuthenticator {
    open spec fn obeys_from_spec() -> bool {
        true
    }

    open spec fn from_spec(a: UserAuthenticator) -> AnyAuthenticator {
        AnyAuthenticator::User(a)
    }
}

impl From<ScriptAuthenticator> for AnyAuthenticator {
    fn from(a: ScriptAuthenticator) -> (r: Self)
        ensures
            r == AnyAuthenticator::Script(a),
    {
        AnyAuthenticator::Script(a)
    }
}

impl vstd::std_specs::convert::FromSpecImpl<ScriptAuthenticator> for AnyAuthenticator {
    open spec fn obeys_from_spec() -> bool {
        true
    }

    open spec fn from_spec(a: ScriptAuthenticator) -> AnyAuthenticator {
        AnyAuthenticator::Script(a)
    }
}

impl From<ApplicationAuthenticator> for AnyAuthenticator {
    fn from(a: ApplicationAuthenticator) -> (r: Self)
        ensures
            r == AnyAuthenticator::Application(a),
    {
        AnyAuthenticator::Application(a)
    }
}

impl vstd::std_specs::convert::FromSpecImpl<ApplicationAuthenticator> for AnyAuthenticator {
    open spec fn obeys_from_spec() -> bool {
        true
    }

    open spec fn from_spec(a: ApplicationAuthenticator) -> AnyAuthenticator {
        AnyAuthenticator::Application(a)
    }
}

pub open spec fn wrong_credentials_spec(reason: Seq<char>) -> Seq<char> {
    "Username or password are most likely wrong, Reddit returned: "@ + reason
}

pub open spec fn unexpected_answer_spec(body: Seq<char>, status: u16) -> Seq<char> {
    "Unexpected error occured, text: "@ + body + ", code: "@ + nat_decimal(status as nat)
}

/// Reads the answer of the authorization endpoint, given its status, its
/// body, and the body decoded as a token record and as an `{"error": ...}`
/// object (none where it does not decode as one). The endpoint answers 200
/// for both shapes, so the token shape is tried first, then the error shape,
/// and only then the status.
pub fn parse_response(
    status: u16,
    token: Option<TokenJson>,
    error: Option<String>,
    body: &str,
) -> (r: Result<TokenJson>)
    ensures
        token is Some ==> r == Ok::<TokenJson, ApiError>(token->0),
        token is None && error is Some ==> (r matches Err(ApiError::AuthenticationError(m)) && m@
            == wrong_credentials_spec(error->0@)),
        token is None && error is None && status == 401 ==> (r matches Err(
            ApiError::AuthenticationError(m),
        ) && m@ == "Reddit returned 401 Unauthorized, are client ID and secret correct?"@),
        token is None && error is None && status != 401 ==> (r matches Err(
            ApiError::AuthenticationError(m),
        ) && m@ == unexpected_answer_spec(body@, status)),
{
    match token {
        Some(t) => Ok(t),
        None => match error {
            Some(e) => Err(
                ApiError::AuthenticationError(
                    String::from_str(
                        "Username or password are most likely wrong, Reddit returned: ",
                    ).concat(e.as_str()),
                ),
            ),
            None => {
                if status == 401 {
                    Err(
                        ApiError::AuthenticationError(
                            String::from_str(
                                "Reddit returned 401 Unauthorized, are client ID and secret correct?",
                            ),
                        ),
                    )
                } else {
                    let m = String::from_str("Unexpected error occured, text: ").concat(body).concat(
                        ", code: ",
                    ).concat(u64_decimal(status as u64).as_str());
                    Err(ApiError::AuthenticationError(m))
                }
            },
        },
    }
}

/// Ends a login with the endpoint's answer as `parse_response` read it: a
/// token record replaces the held token whole; a failure leaves the
/// authenticator as it was.
pub fn complete_login<A: Authenticator>(auth: &mut A, answer: Result<TokenJson>) -> (r: Result<()>)
    ensures
        match answer {
            Ok(t) => r is Ok && final(auth).held_token() == Some(token_of(t)),
            Err(e) => r == Err::<(), ApiError>(e) && *final(auth) == *old(auth),
        },
        final(auth).grant() == old(auth).grant(),
        final(auth).kept_refresh_token() == old(auth).kept_refresh_token(),
        final(auth).acts_for_user() == old(auth).acts_for_user(),
{
    match answer {
        Ok(t) => {
            auth.set_token(Token::from(t));
            Ok(())
        },
        Err(e) => Err(e),
    }
}

} // verus!
