//! Twitch OAuth: the texts the bot sends to the identity service, and the two
//! token refresh flows (the application token and the user token) as state
//! machines. The caller performs each action and reports what came back.
use vstd::prelude::*;
use rand::Rng;

use crate::{build_url, string_views, url_text, Url};

verus! {

/// Where tokens are requested and refreshed.
pub const TOKEN_URL: &'static str = "https://id.twitch.tv/oauth2/token";

/// Where tokens are validated.
pub const VALIDATE_URL: &'static str = "https://id.twitch.tv/oauth2/validate";

/// Where the identity service sends the user back after authorization.
pub const REDIRECT_URI: &'static str = "http://localhost:3000";

/// The number of characters of the state that ties an authorization request
/// to its redirect.
pub const AUTHORIZATION_STATE_LEN: usize = 16;

/// An application access token as the identity service returns it.
#[derive(Debug, PartialEq, Eq, Clone)]
pub struct AppAccessToken {
    pub access_token: String,
    pub expires_in: u32,
    pub token_type: String,
}

/// A user access token as the identity service returns it.
#[derive(Debug, PartialEq, Eq, Clone)]
pub struct UserAccessToken {
    pub access_token: String,
    pub expires_in: u32,
    pub refresh_token: String,
    pub scope: Vec<String>,
    pub token_type: String,
}

/// The client id and secret of the bot's Twitch application.
pub struct ClientCredentials {
    pub client_id: String,
    pub client_secret: String,
}

/// Whether an HTTP status code is in the success class.
pub open spec fn is_success_status(code: u16) -> bool {
    200 <= code && code <= 299
}

/// Whether an HTTP status code is in the success class (200 to 299).
pub fn status_is_success(code: u16) -> (ok: bool)
    ensures
        ok == is_success_status(code),
{
    200 <= code && code <= 299
}

/// The `Authorization` header that asks to validate a token.
pub open spec fn oauth_header_text(token: Seq<char>) -> Seq<char> {
    "OAuth "@ + token
}

/// The form body that asks for an application token.
pub open spec fn app_token_body_text(client_id: Seq<char>, client_secret: Seq<char>) -> Seq<char> {
    "client_id="@ + client_id + "&client_secret="@ + client_secret
        + "&grant_type=client_credentials"@
}

/// The form body that trades a refresh token for a new user token.
pub open spec fn refresh_body_text(
    client_id: Seq<char>,
    client_secret: Seq<char>,
    refresh_token: Seq<char>,
) -> Seq<char> {
    "client_id="@ + client_id + "&client_secret="@ + client_secret
        + "&grant_type=refresh_token&refresh_token="@ + refresh_token
}

/// The form body that trades an authorization code for a user token.
pub open spec fn code_exchange_body_text(
    client_id: Seq<char>,
    client_secret: Seq<char>,
    code: Seq<char>,
) -> Seq<char> {
    "client_id="@ + client_id + "&client_secret="@ + client_secret + "&code="@ + code
        + "&grant_type=authorization_code&redirect_uri="@ + REDIRECT_URI@
}

/// The query parameters of the authorization URL, in order.
pub open spec fn authorize_parameters(client_id: Seq<char>, state: Seq<char>) -> Seq<Seq<char>> {
    seq![
        "?response_type=code"@,
        "&client_id="@ + client_id,
        "&redirect_uri=http://localhost:3000"@,
        "&scope=user%3Aread%3Achat+user%3Awrite%3Achat+user%3Abot+moderator%3Aread%3Achatters"@,
        "&state="@ + state,
    ]
}

/// The URL the user opens to authorize the bot.
pub open spec fn authorize_url_text(client_id: Seq<char>, state: Seq<char>) -> Seq<char> {
    url_text(
        "https"@,
        "id.twitch.tv"@,
        Some("oauth2/authorize"@),
        Some(authorize_parameters(client_id, state)),
    )
}

/// Whether a character is an ASCII letter or digit.
pub open spec fn is_ascii_alphanumeric(c: char) -> bool {
    ('A' <= c && c <= 'Z') || ('a' <= c && c <= 'z') || ('0' <= c && c <= '9')
}

/// Whether a text can be the state of an authorization request: sixteen
/// ASCII letters or digits.
pub open spec fn is_authorization_state(s: Seq<char>) -> bool {
    &&& s.len() == AUTHORIZATION_STATE_LEN
    &&& forall|i: int| 0 <= i < s.len() ==> is_ascii_alphanumeric(#[trigger] s[i])
}

/// Calls `rand::rng()` and takes `len` samples of `rand::distr::Alphanumeric`,
/// each a byte of `A-Z`, `a-z` or `0-9`, into a string. The contract states
/// the length and the alphabet only: which characters come out is chance.
/// (`rand::rng` panics only if the operating system gives no entropy, which
/// nothing here can rule out.)
#[verifier::external_body]
fn random_alphanumeric(len: usize) -> (s: String)
    ensures
        s@.len() == len,
        forall|i: int| 0 <= i < s@.len() ==> is_ascii_alphanumeric(#[trigger] s@[i]),
{
    rand::rng().sample_iter(&rand::distr::Alphanumeric).take(len).map(char::from).collect()
}

/// A fresh random state for an authorization request.
pub fn new_authorization_state() -> (state: String)
    ensures
        is_authorization_state(state@),
{
    random_alphanumeric(AUTHORIZATION_STATE_LEN)
}

/// The `Authorization` header that asks to validate `token`.
pub fn oauth_header(token: &str) -> (header: String)
    ensures
        header@ == oauth_header_text(token@),
{
    let mut header = String::from_str("OAuth ");
    header.append(token);
    header
}

/// The form body that asks for an application token.
pub fn app_token_request_body(creds: &ClientCredentials) -> (body: String)
    ensures
        body@ == app_token_body_text(creds.client_id@, creds.client_secret@),
{
    let mut body = String::from_str("client_id=");
    body.append(creds.client_id.as_str());
    body.append("&client_secret=");
    body.append(creds.client_secret.as_str());
    body.append("&grant_type=client_credentials");
    body
}

/// The form body that trades `refresh_token` for a new user token.
pub fn refresh_request_body(creds: &ClientCredentials, refresh_token: &str) -> (body: String)
    ensures
        body@ == refresh_body_text(creds.client_id@, creds.client_secret@, refresh_token@),
{
    let mut body = String::from_str("client_id=");
    body.append(creds.client_id.as_str());
    body.append("&client_secret=");
    body.append(creds.client_secret.as_str());
    body.append("&grant_type=refresh_token&refresh_token=");
    body.append(refresh_token);
    body
}

/// The form body that trades an authorization `code` for a user token.
pub fn code_exchange_body(creds: &ClientCredentials, code: &str) -> (body: String)
    ensures
        body@ == code_exchange_body_text(creds.client_id@, creds.client_secret@, code@),
{
    let mut body = String::from_str("client_id=");
    body.append(creds.client_id.as_str());
    body.append("&client_secret=");
    body.append(creds.client_secret.as_str());
    body.append("&code=");
    body.append(code);
    body.append("&grant_type=authorization_code&redirect_uri=");
    body.append(REDIRECT_URI);
    body
}

/// The URL the user opens to authorize the bot, carrying `state`.
pub fn authorize_url(client_id: &str, state: &str) -> (url: String)
    ensures
        url@ == authorize_url_text(client_id@, state@),
{
    let mut client_param = String::from_str("&client_id=");
    client_param.append(client_id);
    let mut state_param = String::from_str("&state=");
    state_param.append(state);
    let mut parameters: Vec<String> = Vec::new();
    parameters.push(String::from_str("?response_type=code"));
    parameters.push(client_param);
    parameters.push(String::from_str("&redirect_uri=http://localhost:3000"));
    parameters.push(
        String::from_str(
            "&scope=user%3Aread%3Achat+user%3Awrite%3Achat+user%3Abot+moderator%3Aread%3Achatters",
        ),
    );
    parameters.push(state_param);
    assert(string_views(parameters@) =~= authorize_parameters(client_id@, state@));
    build_url(
        Url {
            protocol: String::from_str("https"),
            domain: String::from_str("id.twitch.tv"),
            path: Some(String::from_str("oauth2/authorize")),
            parameters: Some(parameters),
        },
    )
}

/// What to send to validate a stored token: nothing when no token is
/// stored (the token then counts as invalid), else the `Authorization`
/// header for it.
pub fn validation_header(stored: &Option<String>) -> (header: Option<String>)
    ensures
        stored is None ==> header is None,
        stored matches Some(t) ==> (header matches Some(h) && h@ == oauth_header_text(t@)),
{
    match stored {
        Some(token) => Some(oauth_header(token.as_str())),
        None => None,
    }
}

/// Where the application token refresh stands.
#[derive(Debug, Clone, Copy, PartialEq, Eq, Structural)]
pub enum AppTokenRefresh {
    /// Nothing has been done yet.
    Start,
    /// The stored token is being validated.
    Validating,
    /// A new token has been requested.
    Requesting,
    /// The new token is being stored.
    Storing,
    /// The flow is over.
    Done,
}

/// What the caller reports back to the application token refresh.
pub enum AppTokenEvent {
    /// The flow is to begin.
    Begin,
    /// The stored token was validated; `true` if it is valid.
    Validated(bool),
    /// The identity service returned a new application token.
    Received(AppAccessToken),
    /// The new token was stored.
    Stored,
}

/// What the application token refresh asks the caller to do next.
pub enum AppTokenAction {
    /// Validate the stored application token.
    ValidateStored,
    /// Request a new application token with the client credentials (the
    /// stored token is invalid).
    RequestToken,
    /// Replace the stored application token with `access_token`.
    StoreToken { access_token: String },
    /// Nothing is left to do.
    Finish,
}

/// An [`AppTokenAction`] with its text as a sequence of characters.
pub enum AppTokenActionView {
    ValidateStored,
    RequestToken,
    StoreToken { access_token: Seq<char> },
    Finish,
}

impl View for AppTokenAction {
    type V = AppTokenActionView;

    open spec fn view(&self) -> AppTokenActionView {
        match self {
            AppTokenAction::ValidateStored => AppTokenActionView::ValidateStored,
            AppTokenAction::RequestToken => AppTokenActionView::RequestToken,
            AppTokenAction::StoreToken { access_token } => AppTokenActionView::StoreToken {
                access_token: access_token@,
            },
            AppTokenAction::Finish => AppTokenActionView::Finish,
        }
    }
}

/// Whether the application token refresh, in state `s`, takes event `e`.
pub open spec fn app_refresh_expects(s: AppTokenRefresh, e: AppTokenEvent) -> bool {
    match (s, e) {
        (AppTokenRefresh::Start, AppTokenEvent::Begin) => true,
        (AppTokenRefresh::Validating, AppTokenEvent::Validated(_)) => true,
        (AppTokenRefresh::Requesting, AppTokenEvent::Received(_)) => true,
        (AppTokenRefresh::Storing, AppTokenEvent::Stored) => true,
        _ => false,
    }
}

/// One step of the application token refresh: a valid stored token is kept;
/// otherwise a new token is requested, and the access token that comes back
/// is stored.
pub open spec fn app_refresh_next(s: AppTokenRefresh, e: AppTokenEvent) -> (
    AppTokenRefresh,
    AppTokenActionView,
) {
    match (s, e) {
        (AppTokenRefresh::Start, AppTokenEvent::Begin) => (
            AppTokenRefresh::Validating,
            AppTokenActionView::ValidateStored,
        ),
        (AppTokenRefresh::Validating, AppTokenEvent::Validated(valid)) => if valid {
            (AppTokenRefresh::Done, AppTokenActionView::Finish)
        } else {
            (AppTokenRefresh::Requesting, AppTokenActionView::RequestToken)
        },
        (AppTokenRefresh::Requesting, AppTokenEvent::Received(token)) => (
            AppTokenRefresh::Storing,
            AppTokenActionView::StoreToken { access_token: token.access_token@ },
        ),
        _ => (AppTokenRefresh::Done, AppTokenActionView::Finish),
    }
}

impl AppTokenRefresh {
    /// Whether the flow, in this state, takes `event`.
    pub fn accepts(&self, event: &AppTokenEvent) -> (ok: bool)
        ensures
            ok == app_refresh_expects(*self, *event),
    {
        match (self, event) {
            (AppTokenRefresh::Start, AppTokenEvent::Begin) => true,
            (AppTokenRefresh::Validating, AppTokenEvent::Validated(_)) => true,
            (AppTokenRefresh::Requesting, AppTokenEvent::Received(_)) => true,
            (AppTokenRefresh::Storing, AppTokenEvent::Stored) => true,
            _ => false,
        }
    }

    /// Takes the caller's report and says what to do next.
    pub fn step(self, event: AppTokenEvent) -> (next: (AppTokenRefresh, AppTokenAction))
        requires
            app_refresh_expects(self, event),
        ensures
            (next.0, next.1@) == app_refresh_next(self, event),
    {
        match event {
            AppTokenEvent::Begin => (AppTokenRefresh::Validating, AppTokenAction::ValidateStored),
            AppTokenEvent::Validated(valid) => {
                if valid {
                    (AppTokenRefresh::Done, AppTokenAction::Finish)
                } else {
                    (AppTokenRefresh::Requesting, AppTokenAction::RequestToken)
                }
            },
            AppTokenEvent::Received(token) => (
                AppTokenRefresh::Storing,
                AppTokenAction::StoreToken { access_token: token.access_token },
            ),
            AppTokenEvent::Stored => (AppTokenRefresh::Done, AppTokenAction::Finish),
        }
    }
}

/// Where the user token refresh stands.
#[derive(Debug, Clone, Copy, PartialEq, Eq, Structural)]
pub enum UserTokenRefresh {
    /// Nothing has been done yet.
    Start,
    /// The stored user token is being validated.
    Validating,
    /// The stored refresh token is being read.
    LoadingRefreshToken,
    /// The refresh token is being traded for a new user token.
    Refreshing,
    /// The user has been sent to authorize the bot; the redirect's code is
    /// awaited.
    AwaitingCode,
    /// The authorization code is being traded for a user token.
    Exchanging,
    /// The new tokens are being stored.
    Storing,
    /// The flow is over.
    Done,
}

/// What the caller reports back to the user token refresh.
pub enum UserTokenEvent {
    /// The flow is to begin.
    Begin,
    /// The stored user token was validated; `true` if it is valid.
    Validated(bool),
    /// The stored refresh token, if there is one.
    RefreshTokenLoaded(Option<String>),
    /// The identity service returned a user token for the refresh token.
    Refreshed(UserAccessToken),
    /// The redirect brought this authorization code.
    CodeReceived(String),
    /// The identity service returned a user token for the code.
    Exchanged(UserAccessToken),
    /// The new tokens were stored.
    Stored,
}

/// What the user token refresh asks the caller to do next.
pub enum UserTokenAction {
    /// Validate the stored user token.
    ValidateStored,
    /// Read the stored refresh token (the user token is invalid).
    LoadRefreshToken,
    /// Trade `refresh_token` for a new user token.
    RequestRefresh { refresh_token: String },
    /// Send the user to authorize the bot with a request that carries
    /// `state`, and wait for the redirect (there is no refresh token).
    Authorize { state: String },
    /// Trade the authorization `code` for a user token.
    ExchangeCode { code: String },
    /// Replace the stored user tokens with these.
    StoreTokens { access_token: String, refresh_token: String },
    /// Nothing is left to do.
    Finish,
}

/// A [`UserTokenAction`] with its texts as sequences of characters.
pub enum UserTokenActionView {
    ValidateStored,
    LoadRefreshToken,
    RequestRefresh { refresh_token: Seq<char> },
    Authorize { state: Seq<char> },
    ExchangeCode { code: Seq<char> },
    StoreTokens { access_token: Seq<char>, refresh_token: Seq<char> },
    Finish,
}

impl View for UserTokenAction {
    type V = UserTokenActionView;

    open spec fn view(&self) -> UserTokenActionView {
        match self {
            UserTokenAction::ValidateStored => UserTokenActionView::ValidateStored,
            UserTokenAction::LoadRefreshToken => UserTokenActionView::LoadRefreshToken,
            UserTokenAction::RequestRefresh { refresh_token } => UserTokenActionView::RequestRefresh {
                refresh_token: refresh_token@,
            },
            UserTokenAction::Authorize { state } => UserTokenActionView::Authorize { state: state@ },
            UserTokenAction::ExchangeCode { code } => UserTokenActionView::ExchangeCode {
                code: code@,
            },
            UserTokenAction::StoreTokens { access_token, refresh_token } =>
                UserTokenActionView::StoreTokens {
                access_token: access_token@,
                refresh_token: refresh_token@,
            },
            UserTokenAction::Finish => UserTokenActionView::Finish,
        }
    }
}

/// The state carried by an authorization action, or the empty text for any
/// other action.
pub open spec fn authorization_state_of(a: UserTokenActionView) -> Seq<char> {
    match a {
        UserTokenActionView::Authorize { state } => state,
        _ => Seq::empty(),
    }
}

/// Whether the user token refresh, in state `s`, takes event `e`.
pub open spec fn user_refresh_expects(s: UserTokenRefresh, e: UserTokenEvent) -> bool {
    match (s, e) {
        (UserTokenRefresh::Start, UserTokenEvent::Begin) => true,
        (UserTokenRefresh::Validating, UserTokenEvent::Validated(_)) => true,
        (UserTokenRefresh::LoadingRefreshToken, UserTokenEvent::RefreshTokenLoaded(_)) => true,
        (UserTokenRefresh::Refreshing, UserTokenEvent::Refreshed(_)) => true,
        (UserTokenRefresh::AwaitingCode, UserTokenEvent::CodeReceived(_)) => true,
        (UserTokenRefresh::Exchanging, UserTokenEvent::Exchanged(_)) => true,
        (UserTokenRefresh::Storing, UserTokenEvent::Stored) => true,
        _ => false,
    }
}

/// One step of the user token refresh: a valid stored token is kept;
/// otherwise the stored refresh token is traded for new tokens, or, when
/// there is none, the user is sent to authorize the bot (with `state`) and
/// the code the redirect brings is traded for them; the new access and
/// refresh tokens are then stored.
pub open spec fn user_refresh_next(s: UserTokenRefresh, e: UserTokenEvent, state: Seq<char>) -> (
    UserTokenRefresh,
    UserTokenActionView,
) {
    match (s, e) {
        (UserTokenRefresh::Start, UserTokenEvent::Begin) => (
            UserTokenRefresh::Validating,
            UserTokenActionView::ValidateStored,
        ),
        (UserTokenRefresh::Validating, UserTokenEvent::Validated(valid)) => if valid {
            (UserTokenRefresh::Done, UserTokenActionView::Finish)
        } else {
            (UserTokenRefresh::LoadingRefreshToken, UserTokenActionView::LoadRefreshToken)
        },
        (UserTokenRefresh::LoadingRefreshToken, UserTokenEvent::RefreshTokenLoaded(loaded)) =>
            match loaded {
            Some(refresh) => (
                UserTokenRefresh::Refreshing,
                UserTokenActionView::RequestRefresh { refresh_token: refresh@ },
            ),
            None => (UserTokenRefresh::AwaitingCode, UserTokenActionView::Authorize { state }),
        },
        (UserTokenRefresh::Refreshing, UserTokenEvent::Refreshed(token)) => (
            UserTokenRefresh::Storing,
            UserTokenActionView::StoreTokens {
                access_token: token.access_token@,
                refresh_token: token.refresh_token@,
            },
        ),
        (UserTokenRefresh::AwaitingCode, UserTokenEvent::CodeReceived(code)) => (
            UserTokenRefresh::Exchanging,
            UserTokenActionView::ExchangeCode { code: code@ },
        ),
        (UserTokenRefresh::Exchanging, UserTokenEvent::Exchanged(token)) => (
            UserTokenRefresh::Storing,
            UserTokenActionView::StoreTokens {
                access_token: token.access_token@,
                refresh_token: token.refresh_token@,
            },
        ),
        _ => (UserTokenRefresh::Done, UserTokenActionView::Finish),
    }
}

impl UserTokenRefresh {
    /// Whether the flow, in this state, takes `event`.
    pub fn accepts(&self, event: &UserTokenEvent) -> (ok: bool)
        ensures
            ok == user_refresh_expects(*self, *event),
    {
        match (self, event) {
            (UserTokenRefresh::Start, UserTokenEvent::Begin) => true,
            (UserTokenRefresh::Validating, UserTokenEvent::Validated(_)) => true,
            (UserTokenRefresh::LoadingRefreshToken, UserTokenEvent::RefreshTokenLoaded(_)) => true,
            (UserTokenRefresh::Refreshing, UserTokenEvent::Refreshed(_)) => true,
            (UserTokenRefresh::AwaitingCode, UserTokenEvent::CodeReceived(_)) => true,
            (UserTokenRefresh::Exchanging, UserTokenEvent::Exchanged(_)) => true,
            (UserTokenRefresh::Storing, UserTokenEvent::Stored) => true,
            _ => false,
        }
    }

    /// Takes the caller's report and says what to do next. When the user must
    /// authorize the bot, a fresh random state is drawn for the request.
    pub fn step(self, event: UserTokenEvent) -> (next: (UserTokenRefresh, UserTokenAction))
        requires
            user_refresh_expects(self, event),
        ensures
            (next.0, next.1@) == user_refresh_next(self, event, authorization_state_of(next.1@)),
            next.1 is Authorize ==> is_authorization_state(authorization_state_of(next.1@)),
    {
        match event {
            UserTokenEvent::Begin => (UserTokenRefresh::Validating, UserTokenAction::ValidateStored),
            UserTokenEvent::Validated(valid) => {
                if valid {
                    (UserTokenRefresh::Done, UserTokenAction::Finish)
                } else {
                    (UserTokenRefresh::LoadingRefreshToken, UserTokenAction::LoadRefreshToken)
                }
            },
            UserTokenEvent::RefreshTokenLoaded(loaded) => match loaded {
                Some(refresh) => (
                    UserTokenRefresh::Refreshing,
                    UserTokenAction::RequestRefresh { refresh_token: refresh },
                ),
                None => (
                    UserTokenRefresh::AwaitingCode,
                    UserTokenAction::Authorize { state: new_authorization_state() },
                ),
            },
            UserTokenEvent::Refreshed(token) => (
                UserTokenRefresh::Storing,
                UserTokenAction::StoreTokens {
                    access_token: token.access_token,
                    refresh_token: token.refresh_token,
                },
            ),
            UserTokenEvent::CodeReceived(code) => (
                UserTokenRefresh::Exchanging,
                UserTokenAction::ExchangeCode { code },
            ),
            UserTokenEvent::Exchanged(token) => (
                UserTokenRefresh::Storing,
                UserTokenAction::StoreTokens {
                    access_token: token.access_token,
                    refresh_token: token.refresh_token,
                },
            ),
            UserTokenEvent::Stored => (UserTokenRefresh::Done, UserTokenAction::Finish),
        }
    }
}

/// The state reached and the actions asked for when the application token
/// refresh, from state `s`, takes `events` in turn.
pub open spec fn app_refresh_run(s: AppTokenRefresh, events: Seq<AppTokenEvent>) -> (
    AppTokenRefresh,
    Seq<AppTokenActionView>,
)
    decreases events.len(),
{
    if events.len() == 0 {
        (s, Seq::empty())
    } else {
        let (next, action) = app_refresh_next(s, events[0]);
        let (last, actions) = app_refresh_run(next, events.drop_first());
        (last, seq![action] + actions)
    }
}

/// The state reached and the actions asked for when the user token refresh,
/// from state `s`, takes `events` in turn, `state` being the random state of
/// an authorization request if one is made.
pub open spec fn user_refresh_run(
    s: UserTokenRefresh,
    events: Seq<UserTokenEvent>,
    state: Seq<char>,
) -> (UserTokenRefresh, Seq<UserTokenActionView>)
    decreases events.len(),
{
    if events.len() == 0 {
        (s, Seq::empty())
    } else {
        let (next, action) = user_refresh_next(s, events[0], state);
        let (last, actions) = user_refresh_run(next, events.drop_first(), state);
        (last, seq![action] + actions)
    }
}

/// A finished flow takes no more events, for either token.
pub proof fn lemma_done_takes_nothing(app_event: AppTokenEvent, user_event: UserTokenEvent)
    ensures
        !app_refresh_expects(AppTokenRefresh::Done, app_event),
        !user_refresh_expects(UserTokenRefresh::Done, user_event),
{
}

/// A stored token that validates is kept: the flow ends without storing
/// anything, for either token.
pub proof fn lemma_valid_token_is_kept(state: Seq<char>)
    ensures
        app_refresh_run(
            AppTokenRefresh::Start,
            seq![AppTokenEvent::Begin, AppTokenEvent::Validated(true)],
        ) == (AppTokenRefresh::Done, seq![
            AppTokenActionView::ValidateStored,
            AppTokenActionView::Finish,
        ]),
        user_refresh_run(
            UserTokenRefresh::Start,
            seq![UserTokenEvent::Begin, UserTokenEvent::Validated(true)],
            state,
        ) == (UserTokenRefresh::Done, seq![
            UserTokenActionView::ValidateStored,
            UserTokenActionView::Finish,
        ]),
{
    let app_events = seq![AppTokenEvent::Begin, AppTokenEvent::Validated(true)];
    assert(app_events.drop_first() =~= seq![AppTokenEvent::Validated(true)]);
    assert(app_events.drop_first().drop_first() =~= Seq::<AppTokenEvent>::empty());
    reveal_with_fuel(app_refresh_run, 3);
    let user_events = seq![UserTokenEvent::Begin, UserTokenEvent::Validated(true)];
    assert(user_events.drop_first() =~= seq![UserTokenEvent::Validated(true)]);
    assert(user_events.drop_first().drop_first() =~= Seq::<UserTokenEvent>::empty());
    reveal_with_fuel(user_refresh_run, 3);
    assert(app_refresh_run(AppTokenRefresh::Start, app_events).1 =~= seq![
        AppTokenActionView::ValidateStored,
        AppTokenActionView::Finish,
    ]);
    assert(user_refresh_run(UserTokenRefresh::Start, user_events, state).1 =~= seq![
        UserTokenActionView::ValidateStored,
        UserTokenActionView::Finish,
    ]);
}

/// An invalid application token is replaced: a new token is requested and
/// exactly the access token that comes back is stored.
pub proof fn lemma_invalid_app_token_is_replaced(token: AppAccessToken)
    ensures
        app_refresh_run(
            AppTokenRefresh::Start,
            seq![
                AppTokenEvent::Begin,
                AppTokenEvent::Validated(false),
                AppTokenEvent::Received(token),
                AppTokenEvent::Stored,
            ],
        ) == (AppTokenRefresh::Done, seq![
            AppTokenActionView::ValidateStored,
            AppTokenActionView::RequestToken,
            AppTokenActionView::StoreToken { access_token: token.access_token@ },
            AppTokenActionView::Finish,
        ]),
{
    let e0 = seq![
        AppTokenEvent::Begin,
        AppTokenEvent::Validated(false),
        AppTokenEvent::Received(token),
        AppTokenEvent::Stored,
    ];
    let e1 = e0.drop_first();
    let e2 = e1.drop_first();
    let e3 = e2.drop_first();
    assert(e1 =~= seq![AppTokenEvent::Validated(false), AppTokenEvent::Received(token), AppTokenEvent::Stored]);
    assert(e2 =~= seq![AppTokenEvent::Received(token), AppTokenEvent::Stored]);
    assert(e3 =~= seq![AppTokenEvent::Stored]);
    assert(e3.drop_first() =~= Seq::<AppTokenEvent>::empty());
    reveal_with_fuel(app_refresh_run, 2);
    let store = AppTokenActionView::StoreToken { access_token: token.access_token@ };
    assert(app_refresh_run(AppTokenRefresh::Storing, e3).1 =~= seq![AppTokenActionView::Finish]);
    assert(app_refresh_run(AppTokenRefresh::Requesting, e2).1 =~= seq![
        store,
        AppTokenActionView::Finish,
    ]);
    assert(app_refresh_run(AppTokenRefresh::Validating, e1).1 =~= seq![
        AppTokenActionView::RequestToken,
        store,
        AppTokenActionView::Finish,
    ]);
    assert(app_refresh_run(AppTokenRefresh::Start, e0).1 =~= seq![
        AppTokenActionView::ValidateStored,
        AppTokenActionView::RequestToken,
        store,
        AppTokenActionView::Finish,
    ]);
}

/// An invalid user token with a stored refresh token: that refresh token is
/// traded, and the access and refresh tokens that come back are what is
/// stored.
pub proof fn lemma_user_token_refreshed(refresh: String, token: UserAccessToken, state: Seq<char>)
    ensures
        user_refresh_run(
            UserTokenRefresh::Start,
            seq![
                UserTokenEvent::Begin,
                UserTokenEvent::Validated(false),
                UserTokenEvent::RefreshTokenLoaded(Some(refresh)),
                UserTokenEvent::Refreshed(token),
                UserTokenEvent::Stored,
            ],
            state,
        ) == (UserTokenRefresh::Done, seq![
            UserTokenActionView::ValidateStored,
            UserTokenActionView::LoadRefreshToken,
            UserTokenActionView::RequestRefresh { refresh_token: refresh@ },
            UserTokenActionView::StoreTokens {
                access_token: token.access_token@,
                refresh_token: token.refresh_token@,
            },
            UserTokenActionView::Finish,
        ]),
{
    let e0 = seq![
        UserTokenEvent::Begin,
        UserTokenEvent::Validated(false),
        UserTokenEvent::RefreshTokenLoaded(Some(refresh)),
        UserTokenEvent::Refreshed(token),
        UserTokenEvent::Stored,
    ];
    let e1 = e0.drop_first();
    let e2 = e1.drop_first();
    let e3 = e2.drop_first();
    let e4 = e3.drop_first();
    assert(e1 =~= seq![
        UserTokenEvent::Validated(false),
        UserTokenEvent::RefreshTokenLoaded(Some(refresh)),
        UserTokenEvent::Refreshed(token),
        UserTokenEvent::Stored,
    ]);
    assert(e2 =~= seq![
        UserTokenEvent::RefreshTokenLoaded(Some(refresh)),
        UserTokenEvent::Refreshed(token),
        UserTokenEvent::Stored,
    ]);
    assert(e3 =~= seq![UserTokenEvent::Refreshed(token), UserTokenEvent::Stored]);
    assert(e4 =~= seq![UserTokenEvent::Stored]);
    assert(e4.drop_first() =~= Seq::<UserTokenEvent>::empty());
    reveal_with_fuel(user_refresh_run, 2);
    let store = UserTokenActionView::StoreTokens {
        access_token: token.access_token@,
        refresh_token: token.refresh_token@,
    };
    let request = UserTokenActionView::RequestRefresh { refresh_token: refresh@ };
    assert(user_refresh_run(UserTokenRefresh::Storing, e4, state).1 =~= seq![
        UserTokenActionView::Finish,
    ]);
    assert(user_refresh_run(UserTokenRefresh::Refreshing, e3, state).1 =~= seq![
        store,
        UserTokenActionView::Finish,
    ]);
    assert(user_refresh_run(UserTokenRefresh::LoadingRefreshToken, e2, state).1 =~= seq![
        request,
        store,
        UserTokenActionView::Finish,
    ]);
    assert(user_refresh_run(UserTokenRefresh::Validating, e1, state).1 =~= seq![
        UserTokenActionView::LoadRefreshToken,
        request,
        store,
        UserTokenActionView::Finish,
    ]);
    assert(user_refresh_run(UserTokenRefresh::Start, e0, state).1 =~= seq![
        UserTokenActionView::ValidateStored,
        UserTokenActionView::LoadRefreshToken,
        request,
        store,
        UserTokenActionView::Finish,
    ]);
}

/// An invalid user token with no refresh token: the user is sent to
/// authorize the bot with a request that carries `state`, the code the
/// redirect brings is traded, and the access and refresh tokens that come
/// back are what is stored.
pub proof fn lemma_user_token_authorized(code: String, token: UserAccessToken, state: Seq<char>)
    ensures
        user_refresh_run(
            UserTokenRefresh::Start,
            seq![
                UserTokenEvent::Begin,
                UserTokenEvent::Validated(false),
                UserTokenEvent::RefreshTokenLoaded(None),
                UserTokenEvent::CodeReceived(code),
                UserTokenEvent::Exchanged(token),
                UserTokenEvent::Stored,
            ],
            state,
        ) == (UserTokenRefresh::Done, seq![
            UserTokenActionView::ValidateStored,
            UserTokenActionView::LoadRefreshToken,
            UserTokenActionView::Authorize { state },
            UserTokenActionView::ExchangeCode { code: code@ },
            UserTokenActionView::StoreTokens {
                access_token: token.access_token@,
                refresh_token: token.refresh_token@,
            },
            UserTokenActionView::Finish,
        ]),
{
    let e0 = seq![
        UserTokenEvent::Begin,
        UserTokenEvent::Validated(false),
        UserTokenEvent::RefreshTokenLoaded(None),
        UserTokenEvent::CodeReceived(code),
        UserTokenEvent::Exchanged(token),
        UserTokenEvent::Stored,
    ];
    let e1 = e0.drop_first();
    let e2 = e1.drop_first();
    let e3 = e2.drop_first();
    let e4 = e3.drop_first();
    let e5 = e4.drop_first();
    assert(e1 =~= seq![
        UserTokenEvent::Validated(false),
        UserTokenEvent::RefreshTokenLoaded(None),
        UserTokenEvent::CodeReceived(code),
        UserTokenEvent::Exchanged(token),
        UserTokenEvent::Stored,
    ]);
    assert(e2 =~= seq![
        UserTokenEvent::RefreshTokenLoaded(None),
        UserTokenEvent::CodeReceived(code),
        UserTokenEvent::Exchanged(token),
        UserTokenEvent::Stored,
    ]);
    assert(e3 =~= seq![
        UserTokenEvent::CodeReceived(code),
        UserTokenEvent::Exchanged(token),
        UserTokenEvent::Stored,
    ]);
    assert(e4 =~= seq![UserTokenEvent::Exchanged(token), UserTokenEvent::Stored]);
    assert(e5 =~= seq![UserTokenEvent::Stored]);
    assert(e5.drop_first() =~= Seq::<UserTokenEvent>::empty());
    reveal_with_fuel(user_refresh_run, 2);
    let authorize = UserTokenActionView::Authorize { state };
    let exchange = UserTokenActionView::ExchangeCode { code: code@ };
    let store = UserTokenActionView::StoreTokens {
        access_token: token.access_token@,
        refresh_token: token.refresh_token@,
    };
    assert(user_refresh_run(UserTokenRefresh::Storing, e5, state).1 =~= seq![
        UserTokenActionView::Finish,
    ]);
    assert(user_refresh_run(UserTokenRefresh::Exchanging, e4, state).1 =~= seq![
        store,
        UserTokenActionView::Finish,
    ]);
    assert(user_refresh_run(UserTokenRefresh::AwaitingCode, e3, state).1 =~= seq![
        exchange,
        store,
        UserTokenActionView::Finish,
    ]);
    assert(user_refresh_run(UserTokenRefresh::LoadingRefreshToken, e2, state).1 =~= seq![
        authorize,
        exchange,
        store,
        UserTokenActionView::Finish,
    ]);
    assert(user_refresh_run(UserTokenRefresh::Validating, e1, state).1 =~= seq![
        UserTokenActionView::LoadRefreshToken,
        authorize,
        exchange,
        store,
        UserTokenActionView::Finish,
    ]);
    assert(user_refresh_run(UserTokenRefresh::Start, e0, state).1 =~= seq![
        UserTokenActionView::ValidateStored,
        UserTokenActionView::LoadRefreshToken,
        authorize,
        exchange,
        store,
        UserTokenActionView::Finish,
    ]);
}

/// The application token flow stores no token but the one the identity
/// service has just returned.
pub proof fn lemma_app_stores_only_received(s: AppTokenRefresh, e: AppTokenEvent)
    requires
        app_refresh_expects(s, e),
    ensures
        app_refresh_next(s, e).1 matches AppTokenActionView::StoreToken { access_token }
            ==> (e matches AppTokenEvent::Received(t) && access_token == t.access_token@),
{
}

/// The user token flow stores no tokens but those the identity service has
/// just returned, for a refresh token or for an authorization code; it
/// trades no code but the one the redirect brought; and it sends the user to
/// authorize the bot only when no refresh token is stored.
pub proof fn lemma_user_stores_only_received(s: UserTokenRefresh, e: UserTokenEvent, state: Seq<char>)
    requires
        user_refresh_expects(s, e),
    ensures
        user_refresh_next(s, e, state).1 matches UserTokenActionView::StoreTokens {
            access_token,
            refresh_token,
        } ==> ((e matches UserTokenEvent::Refreshed(t) && access_token == t.access_token@
            && refresh_token == t.refresh_token@) || (e matches UserTokenEvent::Exchanged(t)
            && access_token == t.access_token@ && refresh_token == t.refresh_token@)),
        user_refresh_next(s, e, state).1 matches UserTokenActionView::ExchangeCode { code }
            ==> (e matches UserTokenEvent::CodeReceived(c) && code == c@),
        user_refresh_next(s, e, state).1 is Authorize ==> e matches UserTokenEvent::RefreshTokenLoaded(
            None,
        ),
{
}

/// The authorization URL ends with the request's state: whatever the
/// client id, the redirect can be matched against the state the URL sent.
pub proof fn lemma_authorize_url_ends_with_state(client_id: Seq<char>, state: Seq<char>)
    ensures
        authorize_url_text(client_id, state) == url_text(
            "https"@,
            "id.twitch.tv"@,
            Some("oauth2/authorize"@),
            Some(authorize_parameters(client_id, state).take(4)),
        ) + ("&state="@ + state),
{
    let ps = authorize_parameters(client_id, state);
    assert(ps.take(4).push("&state="@ + state) =~= ps);
    crate::lemma_parameter_appends(
        "https"@,
        "id.twitch.tv"@,
        Some("oauth2/authorize"@),
        ps.take(4),
        "&state="@ + state,
    );
}

/// In every state where it waits for something, the application token flow
/// takes the event it waits for whatever that event carries: any validation
/// verdict, and any token the identity service returns. The token taken is
/// the one whose access token is then stored.
pub proof fn lemma_app_flow_takes_what_it_waits_for(valid: bool, token: AppAccessToken)
    ensures
        app_refresh_expects(AppTokenRefresh::Start, AppTokenEvent::Begin),
        app_refresh_expects(AppTokenRefresh::Validating, AppTokenEvent::Validated(valid)),
        app_refresh_expects(AppTokenRefresh::Requesting, AppTokenEvent::Received(token)),
        app_refresh_expects(AppTokenRefresh::Storing, AppTokenEvent::Stored),
        app_refresh_next(AppTokenRefresh::Requesting, AppTokenEvent::Received(token))
            == (AppTokenRefresh::Storing, AppTokenActionView::StoreToken {
            access_token: token.access_token@,
        }),
{
}

/// In every state where it waits for something, the user token flow takes
/// the event it waits for whatever that event carries: any validation
/// verdict, a refresh token or none, any token the identity service returns
/// and any code the redirect brings. A token taken is the one whose access
/// and refresh tokens are then stored; a code taken is the one traded.
pub proof fn lemma_user_flow_takes_what_it_waits_for(
    valid: bool,
    loaded: Option<String>,
    token: UserAccessToken,
    code: String,
    state: Seq<char>,
)
    ensures
        user_refresh_expects(UserTokenRefresh::Start, UserTokenEvent::Begin),
        user_refresh_expects(UserTokenRefresh::Validating, UserTokenEvent::Validated(valid)),
        user_refresh_expects(
            UserTokenRefresh::LoadingRefreshToken,
            UserTokenEvent::RefreshTokenLoaded(loaded),
        ),
        user_refresh_expects(UserTokenRefresh::Refreshing, UserTokenEvent::Refreshed(token)),
        user_refresh_expects(UserTokenRefresh::AwaitingCode, UserTokenEvent::CodeReceived(code)),
        user_refresh_expects(UserTokenRefresh::Exchanging, UserTokenEvent::Exchanged(token)),
        user_refresh_expects(UserTokenRefresh::Storing, UserTokenEvent::Stored),
        user_refresh_next(UserTokenRefresh::Refreshing, UserTokenEvent::Refreshed(token), state)
            == (UserTokenRefresh::Storing, UserTokenActionView::StoreTokens {
            access_token: token.access_token@,
            refresh_token: token.refresh_token@,
        }),
        user_refresh_next(UserTokenRefresh::Exchanging, UserTokenEvent::Exchanged(token), state)
            == (UserTokenRefresh::Storing, UserTokenActionView::StoreTokens {
            access_token: token.access_token@,
            refresh_token: token.refresh_token@,
        }),
        user_refresh_next(UserTokenRefresh::AwaitingCode, UserTokenEvent::CodeReceived(code), state)
            == (UserTokenRefresh::Exchanging, UserTokenActionView::ExchangeCode { code: code@ }),
{
}

} // verus!
