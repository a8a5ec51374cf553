//! The Dropworks client: its session state, the requests it sends and how
//! it judges the replies.
//!
//! Every operation of the REST contract is a request built from the client's
//! state, an exchange with the transport, and a decision on the reply. The
//! exchange is asynchronous and happens outside the library; the library
//! holds the state, builds the requests and makes the decisions.

use vstd::prelude::*;

use crate::json::{json_object, json_string, json_string_literal, member_text, member_texts, object_text, string_views};
use crate::text::{decimal_text, decimal_u16, trim_trailing_slash, without_trailing_slashes};
use crate::transport::{
    is_success, is_success_status, json_post, reply_view, transport_error_text,
    HttpRequest, HttpResponse, RequestView, ResponseView, TransportError,
};

verus! {

broadcast use vstd::string::group_string_axioms;

/// Version of the Dropworks REST contract this crate targets.
pub const DROPWORKS_API_VERSION: u32 = 1;

/// Base path for every Dropworks REST endpoint.
pub const API_BASE_PATH: &'static str = "/api/v1/dropworks";

// ---------------------------------------------------------------------------
// Sessions
// ---------------------------------------------------------------------------

/// A signed-in Dropworks session.
#[derive(Debug, Clone, PartialEq, Eq)]
pub struct DropworksSession {
    pub app_id: String,
    pub user_id: String,
    pub auth_token: String,
}

/// A session taken by its characters.
pub struct SessionView {
    pub app_id: Seq<char>,
    pub user_id: Seq<char>,
    pub auth_token: Seq<char>,
}

impl View for DropworksSession {
    type V = SessionView;

    open spec fn view(&self) -> SessionView {
        SessionView { app_id: self.app_id@, user_id: self.user_id@, auth_token: self.auth_token@ }
    }
}

impl DropworksSession {
    /// A field-by-field copy of this session.
    fn copy_of(&self) -> (copy: Self)
        ensures
            copy@ == self@,
    {
        DropworksSession {
            app_id: self.app_id.clone(),
            user_id: self.user_id.clone(),
            auth_token: self.auth_token.clone(),
        }
    }
}

// ---------------------------------------------------------------------------
// Errors
// ---------------------------------------------------------------------------

/// Why a Dropworks operation failed.
#[derive(Debug)]
pub enum DropworksError {
    Transport(TransportError),
    InvalidArgument(String),
    InvalidResponse(String),
    NotSignedIn,
    Http { status: u16, body: String },
}

/// An error taken by its characters.
pub enum ErrorView {
    Transport(Seq<char>),
    InvalidArgument(Seq<char>),
    InvalidResponse(Seq<char>),
    NotSignedIn,
    Http { status: u16, body: Seq<char> },
}

impl View for DropworksError {
    type V = ErrorView;

    open spec fn view(&self) -> ErrorView {
        match self {
            DropworksError::Transport(e) => ErrorView::Transport(e.0@),
            DropworksError::InvalidArgument(m) => ErrorView::InvalidArgument(m@),
            DropworksError::InvalidResponse(m) => ErrorView::InvalidResponse(m@),
            DropworksError::NotSignedIn => ErrorView::NotSignedIn,
            DropworksError::Http { status, body } => ErrorView::Http { status: *status, body: body@ },
        }
    }
}

/// The user-facing text of an error.
pub open spec fn error_text(error: ErrorView) -> Seq<char> {
    match error {
        ErrorView::Transport(m) => transport_error_text(m),
        ErrorView::InvalidArgument(m) => "dropworks argument was invalid: "@ + m,
        ErrorView::InvalidResponse(m) => "dropworks response was invalid: "@ + m,
        ErrorView::NotSignedIn => "dropworks client is not signed in"@,
        ErrorView::Http { status, body } => "dropworks request failed with HTTP "@ + decimal_text(
            status as nat,
        ) + ": "@ + body,
    }
}

impl DropworksError {
    /// The user-facing text of this error.
    pub fn to_string(&self) -> (text: String)
        ensures
            text@ == error_text(self@),
    {
        match self {
            DropworksError::Transport(e) => e.to_string(),
            DropworksError::InvalidArgument(m) => {
                let mut text = "dropworks argument was invalid: ".to_string();
                text.append(m.as_str());
                text
            },
            DropworksError::InvalidResponse(m) => {
                let mut text = "dropworks response was invalid: ".to_string();
                text.append(m.as_str());
                text
            },
            DropworksError::NotSignedIn => "dropworks client is not signed in".to_string(),
            DropworksError::Http { status, body } => {
                let mut text = "dropworks request failed with HTTP ".to_string();
                text.append(decimal_u16(*status).as_str());
                text.append(": ");
                text.append(body.as_str());
                text
            },
        }
    }
}

impl From<TransportError> for DropworksError {
    fn from(error: TransportError) -> (converted: Self) {
        DropworksError::Transport(error)
    }
}

impl vstd::std_specs::convert::FromSpecImpl<TransportError> for DropworksError {
    open spec fn obeys_from_spec() -> bool {
        true
    }

    open spec fn from_spec(v: TransportError) -> Self {
        DropworksError::Transport(v)
    }
}

// ---------------------------------------------------------------------------
// Result views
// ---------------------------------------------------------------------------

/// A built request or the error that refused it, taken by characters.
pub open spec fn request_result_view(r: Result<HttpRequest, DropworksError>) -> Result<RequestView, ErrorView> {
    match r {
        Ok(request) => Ok(request@),
        Err(e) => Err(e@),
    }
}

/// A text or an error, taken by characters.
pub open spec fn text_result_view(r: Result<String, DropworksError>) -> Result<Seq<char>, ErrorView> {
    match r {
        Ok(t) => Ok(t@),
        Err(e) => Err(e@),
    }
}

/// A session or an error, taken by characters.
pub open spec fn session_result_view(r: Result<DropworksSession, DropworksError>) -> Result<SessionView, ErrorView> {
    match r {
        Ok(s) => Ok(s@),
        Err(e) => Err(e@),
    }
}

/// A flag or an error, taken by characters.
pub open spec fn flag_result_view(r: Result<bool, DropworksError>) -> Result<bool, ErrorView> {
    match r {
        Ok(b) => Ok(b),
        Err(e) => Err(e@),
    }
}

/// Either of two texts, taken by characters.
pub open spec fn either_text_view(r: Result<String, String>) -> Result<Seq<char>, Seq<char>> {
    match r {
        Ok(t) => Ok(t@),
        Err(t) => Err(t@),
    }
}

// ---------------------------------------------------------------------------
// The model of the client and of each step of the REST contract
// ---------------------------------------------------------------------------

/// The state of a client: its base URL and, once signed in, its session.
pub struct ClientView {
    pub base_url: Seq<char>,
    pub session: Option<SessionView>,
}

/// Whether a URL ends otherwise than with `'/'`.
pub open spec fn has_no_trailing_slash(url: Seq<char>) -> bool {
    url.len() == 0 || url.last() != '/'
}

/// The URL of the endpoint at `path` below the contract's base path.
pub open spec fn endpoint_url(base_url: Seq<char>, path: Seq<char>) -> Seq<char> {
    base_url + API_BASE_PATH@ + path
}

/// Each endpoint's URL is the base URL followed by the endpoint's full path.
pub proof fn lemma_endpoint_paths(base_url: Seq<char>)
    ensures
        endpoint_url(base_url, "/session"@) == base_url + "/api/v1/dropworks/session"@,
        endpoint_url(base_url, "/achievement"@) == base_url + "/api/v1/dropworks/achievement"@,
        endpoint_url(base_url, "/leaderboard"@) == base_url + "/api/v1/dropworks/leaderboard"@,
        endpoint_url(base_url, "/presence"@) == base_url + "/api/v1/dropworks/presence"@,
{
    reveal_strlit("/api/v1/dropworks");
    reveal_strlit("/session");
    reveal_strlit("/achievement");
    reveal_strlit("/leaderboard");
    reveal_strlit("/presence");
    reveal_strlit("/api/v1/dropworks/session");
    reveal_strlit("/api/v1/dropworks/achievement");
    reveal_strlit("/api/v1/dropworks/leaderboard");
    reveal_strlit("/api/v1/dropworks/presence");
    assert(API_BASE_PATH@ + "/session"@ =~= "/api/v1/dropworks/session"@);
    assert(API_BASE_PATH@ + "/achievement"@ =~= "/api/v1/dropworks/achievement"@);
    assert(API_BASE_PATH@ + "/leaderboard"@ =~= "/api/v1/dropworks/leaderboard"@);
    assert(API_BASE_PATH@ + "/presence"@ =~= "/api/v1/dropworks/presence"@);
    assert(endpoint_url(base_url, "/session"@) =~= base_url + "/api/v1/dropworks/session"@);
    assert(endpoint_url(base_url, "/achievement"@) =~= base_url + "/api/v1/dropworks/achievement"@);
    assert(endpoint_url(base_url, "/leaderboard"@) =~= base_url + "/api/v1/dropworks/leaderboard"@);
    assert(endpoint_url(base_url, "/presence"@) =~= base_url + "/api/v1/dropworks/presence"@);
}

/// `request` with the bearer token added as its authorization header.
pub open spec fn with_bearer(request: RequestView, token: Seq<char>) -> RequestView {
    RequestView {
        method: request.method,
        url: request.url,
        body: request.body,
        headers: request.headers.push(("authorization"@, "Bearer "@ + token)),
    }
}

/// The members of a sign-in body, in map order.
pub open spec fn sign_in_entries(app_id: Seq<char>, auth_token: Seq<char>) -> Seq<(Seq<char>, Seq<char>)> {
    seq![("appId"@, json_string_literal(app_id)), ("authToken"@, json_string_literal(auth_token))]
}

/// The body of a sign-in request.
pub open spec fn sign_in_body(app_id: Seq<char>, auth_token: Seq<char>) -> Seq<char> {
    json_object(sign_in_entries(app_id, auth_token))
}

/// The members of an achievement unlock body, in map order.
pub open spec fn achievement_entries(app_id: Seq<char>, user_id: Seq<char>, achievement_id: Seq<char>) -> Seq<
    (Seq<char>, Seq<char>),
> {
    seq![
        ("achievementId"@, json_string_literal(achievement_id)),
        ("appId"@, json_string_literal(app_id)),
        ("userId"@, json_string_literal(user_id)),
    ]
}

/// The body of an achievement unlock.
pub open spec fn achievement_body(app_id: Seq<char>, user_id: Seq<char>, achievement_id: Seq<char>) -> Seq<char> {
    json_object(achievement_entries(app_id, user_id, achievement_id))
}

/// The members of a score submission body, in map order; `score` is the
/// score as JSON number text.
pub open spec fn score_entries(app_id: Seq<char>, user_id: Seq<char>, key: Seq<char>, score: Seq<char>) -> Seq<
    (Seq<char>, Seq<char>),
> {
    seq![
        ("appId"@, json_string_literal(app_id)),
        ("key"@, json_string_literal(key)),
        ("score"@, score),
        ("userId"@, json_string_literal(user_id)),
    ]
}

/// The body of a score submission.
pub open spec fn score_body(app_id: Seq<char>, user_id: Seq<char>, key: Seq<char>, score: Seq<char>) -> Seq<char> {
    json_object(score_entries(app_id, user_id, key, score))
}

/// The sign-in request, or why it is refused before anything is sent.
pub open spec fn sign_in_request_spec(client: ClientView, app_id: Seq<char>, auth_token: Seq<char>) -> Result<RequestView, ErrorView> {
    if app_id.len() == 0 || auth_token.len() == 0 {
        Err(ErrorView::InvalidArgument("app id and auth token are required"@))
    } else {
        Ok(json_post(endpoint_url(client.base_url, "/session"@), sign_in_body(app_id, auth_token)))
    }
}

/// The payload of a sign-in reply, or the error it amounts to.
pub open spec fn sign_in_reply_spec(reply: Result<ResponseView, Seq<char>>) -> Result<Seq<char>, ErrorView> {
    match reply {
        Err(message) => Err(ErrorView::Transport(message)),
        Ok(response) => if is_success_status(response.status) {
            Ok(response.body)
        } else {
            Err(ErrorView::Http { status: response.status, body: response.body })
        },
    }
}

/// The client after a sign-in whose payload yielded `user_id` (or a parse
/// error message), with the operation's result.
pub open spec fn sign_in_completion(
    client: ClientView,
    app_id: Seq<char>,
    auth_token: Seq<char>,
    user_id: Result<Seq<char>, Seq<char>>,
) -> (ClientView, Result<SessionView, ErrorView>) {
    match user_id {
        Err(message) => (client, Err(ErrorView::InvalidResponse(message))),
        Ok(user_id) => {
            let session = SessionView { app_id, user_id, auth_token };
            (ClientView { base_url: client.base_url, session: Some(session) }, Ok(session))
        },
    }
}

/// The achievement unlock request, or why it is refused.
pub open spec fn unlock_request_spec(client: ClientView, achievement_id: Seq<char>) -> Result<RequestView, ErrorView> {
    match client.session {
        None => Err(ErrorView::NotSignedIn),
        Some(s) => Ok(
            with_bearer(
                json_post(
                    endpoint_url(client.base_url, "/achievement"@),
                    achievement_body(s.app_id, s.user_id, achievement_id),
                ),
                s.auth_token,
            ),
        ),
    }
}

/// The score submission request, or why it is refused.
pub open spec fn score_request_spec(
    client: ClientView,
    leaderboard_key: Seq<char>,
    score_is_finite: bool,
    score: Seq<char>,
) -> Result<RequestView, ErrorView> {
    if leaderboard_key.len() == 0 {
        Err(ErrorView::InvalidArgument("leaderboard key is required"@))
    } else if !score_is_finite {
        Err(ErrorView::InvalidArgument("score must be finite"@))
    } else {
        match client.session {
            None => Err(ErrorView::NotSignedIn),
            Some(s) => Ok(
                with_bearer(
                    json_post(
                        endpoint_url(client.base_url, "/leaderboard"@),
                        score_body(s.app_id, s.user_id, leaderboard_key, score),
                    ),
                    s.auth_token,
                ),
            ),
        }
    }
}

/// Whether the server accepted an unlock or a score: the reply's status is
/// a success, or the transport's failure.
pub open spec fn acceptance_spec(reply: Result<ResponseView, Seq<char>>) -> Result<bool, ErrorView> {
    match reply {
        Err(message) => Err(ErrorView::Transport(message)),
        Ok(response) => Ok(is_success_status(response.status)),
    }
}

/// A call on a client, as far as its state goes: ending a sign-in with the
/// user id its reply yielded (or the parse failure's message), which is
/// the one step that takes the client mutably; or any other call, all of
/// which take the client by shared reference.
pub enum ClientCall {
    CompleteSignIn { app_id: Seq<char>, auth_token: Seq<char>, user_id: Result<Seq<char>, Seq<char>> },
    Shared,
}

/// The client after a sequence of calls, the first one first.
pub open spec fn after_calls(client: ClientView, calls: Seq<ClientCall>) -> ClientView
    decreases calls.len(),
{
    if calls.len() == 0 {
        client
    } else {
        let before = after_calls(client, calls.drop_last());
        match calls.last() {
            ClientCall::CompleteSignIn { app_id, auth_token, user_id } => sign_in_completion(
                before,
                app_id,
                auth_token,
                user_id,
            ).0,
            ClientCall::Shared => before,
        }
    }
}

/// The session of the last sign-in in `calls` that succeeded, or `start`
/// when none did.
pub open spec fn latest_session(start: Option<SessionView>, calls: Seq<ClientCall>) -> Option<SessionView>
    decreases calls.len(),
{
    if calls.len() == 0 {
        start
    } else {
        match calls.last() {
            ClientCall::CompleteSignIn { app_id, auth_token, user_id: Ok(user_id) } => Some(
                SessionView { app_id, user_id, auth_token },
            ),
            _ => latest_session(start, calls.drop_last()),
        }
    }
}

// ---------------------------------------------------------------------------
// Request bodies
// ---------------------------------------------------------------------------

/// The text of a sign-in body.
pub fn sign_in_body_text(app_id: &str, auth_token: &str) -> (body: String)
    ensures
        body@ == sign_in_body(app_id@, auth_token@),
{
    let mut members: Vec<String> = Vec::new();
    members.push(member_text("appId", json_string(app_id).as_str()));
    members.push(member_text("authToken", json_string(auth_token).as_str()));
    let body = object_text(&members);
    assert(string_views(members@) =~= member_texts(sign_in_entries(app_id@, auth_token@)));
    body
}

/// The text of an achievement unlock body.
pub fn achievement_body_text(app_id: &str, user_id: &str, achievement_id: &str) -> (body: String)
    ensures
        body@ == achievement_body(app_id@, user_id@, achievement_id@),
{
    let mut members: Vec<String> = Vec::new();
    members.push(member_text("achievementId", json_string(achievement_id).as_str()));
    members.push(member_text("appId", json_string(app_id).as_str()));
    members.push(member_text("userId", json_string(user_id).as_str()));
    let body = object_text(&members);
    assert(string_views(members@) =~= member_texts(achievement_entries(app_id@, user_id@, achievement_id@)));
    body
}

/// The text of a score submission body.
pub fn score_body_text(app_id: &str, user_id: &str, key: &str, score: &str) -> (body: String)
    ensures
        body@ == score_body(app_id@, user_id@, key@, score@),
{
    let mut members: Vec<String> = Vec::new();
    members.push(member_text("appId", json_string(app_id).as_str()));
    members.push(member_text("key", json_string(key).as_str()));
    members.push(member_text("score", score));
    members.push(member_text("userId", json_string(user_id).as_str()));
    let body = object_text(&members);
    assert(string_views(members@) =~= member_texts(score_entries(app_id@, user_id@, key@, score@)));
    body
}

/// Adds the authorization header carrying `token` as a bearer token.
fn add_bearer(request: &mut HttpRequest, token: &str)
    ensures
        final(request)@ == with_bearer(old(request)@, token@),
{
    let mut value = "Bearer ".to_string();
    value.append(token);
    request.headers.push(("authorization".to_string(), value));
    assert(final(request)@.headers =~= old(request)@.headers.push(("authorization"@, "Bearer "@ + token@)));
}

// ---------------------------------------------------------------------------
// Replies
// ---------------------------------------------------------------------------

/// Judges a sign-in reply: the transport's failure, a refused status, or
/// the body to parse.
pub fn sign_in_payload(reply: Result<HttpResponse, TransportError>) -> (payload: Result<String, DropworksError>)
    ensures
        text_result_view(payload) == sign_in_reply_spec(reply_view(reply)),
{
    match reply {
        Err(error) => Err(DropworksError::Transport(error)),
        Ok(response) => {
            if is_success(response.status) {
                Ok(response.body)
            } else {
                Err(DropworksError::Http { status: response.status, body: response.body })
            }
        },
    }
}

/// Judges an unlock or score reply: whether the server answered with a
/// success status, or the transport's failure.
pub fn server_accepted(reply: Result<HttpResponse, TransportError>) -> (accepted: Result<bool, DropworksError>)
    ensures
        flag_result_view(accepted) == acceptance_spec(reply_view(reply)),
{
    match reply {
        Err(error) => Err(DropworksError::Transport(error)),
        Ok(response) => Ok(is_success(response.status)),
    }
}

// ---------------------------------------------------------------------------
// The client
// ---------------------------------------------------------------------------

/// Dropworks client over a caller-supplied transport.
pub struct DropworksClient<T> {
    transport: T,
    base_url: String,
    session: Option<DropworksSession>,
}

impl<T> View for DropworksClient<T> {
    type V = ClientView;

    closed spec fn view(&self) -> ClientView {
        ClientView {
            base_url: self.base_url@,
            session: match self.session {
                Some(s) => Some(s@),
                None => None,
            },
        }
    }
}

impl<T> DropworksClient<T> {
    /// The transport the client was made with.
    pub closed spec fn held_transport(&self) -> T {
        self.transport
    }

    /// A client over `transport` for the server at `base_url`, whose
    /// trailing slashes are dropped; not signed in.
    pub fn new(transport: T, base_url: &str) -> (client: Self)
        ensures
            client@ == (ClientView { base_url: without_trailing_slashes(base_url@), session: None }),
            client.held_transport() == transport,
    {
        DropworksClient { transport, base_url: trim_trailing_slash(base_url.to_string()), session: None }
    }

    /// The session of the last successful sign-in, if any.
    pub fn current_session(&self) -> (session: Option<&DropworksSession>)
        ensures
            match session {
                Some(s) => self@.session == Some(s@),
                None => self@.session is None,
            },
    {
        self.session.as_ref()
    }

    /// The transport the client sends its requests through.
    pub fn transport(&self) -> (transport: &T)
        ensures
            *transport == self.held_transport(),
    {
        &self.transport
    }

    /// The base URL, without trailing slashes.
    pub fn base_url(&self) -> (url: &str)
        ensures
            url@ == self@.base_url,
    {
        self.base_url.as_str()
    }

    /// The URL of the endpoint at `path`.
    fn endpoint(&self, path: &str) -> (url: String)
        ensures
            url@ == endpoint_url(self@.base_url, path@),
    {
        let mut url = self.base_url.clone();
        url.append(API_BASE_PATH);
        url.append(path);
        url
    }

    /// The sign-in request (`POST {base}/api/v1/dropworks/session`), or
    /// `InvalidArgument` when the app id or the token is empty.
    pub fn sign_in_request(&self, app_id: &str, auth_token: &str) -> (request: Result<HttpRequest, DropworksError>)
        ensures
            request_result_view(request) == sign_in_request_spec(self@, app_id@, auth_token@),
    {
        if app_id.is_empty() || auth_token.is_empty() {
            return Err(DropworksError::InvalidArgument("app id and auth token are required".to_string()));
        }
        Ok(HttpRequest::post(self.endpoint("/session"), sign_in_body_text(app_id, auth_token)))
    }

    /// Ends a sign-in whose reply payload yielded `user_id` (or the message
    /// of the parse failure): stores and returns the new session, or leaves
    /// the client unchanged and reports `InvalidResponse`.
    pub fn complete_sign_in(
        &mut self,
        app_id: &str,
        auth_token: &str,
        user_id: Result<String, String>,
    ) -> (session: Result<DropworksSession, DropworksError>)
        ensures
            (final(self)@, session_result_view(session)) == sign_in_completion(
                old(self)@,
                app_id@,
                auth_token@,
                either_text_view(user_id),
            ),
            final(self).held_transport() == old(self).held_transport(),
    {
        match user_id {
            Err(message) => Err(DropworksError::InvalidResponse(message)),
            Ok(user_id) => {
                let session = DropworksSession {
                    app_id: app_id.to_string(),
                    user_id,
                    auth_token: auth_token.to_string(),
                };
                let stored = session.copy_of();
                self.session = Some(stored);
                Ok(session)
            },
        }
    }

    /// The achievement unlock request (`POST {base}/api/v1/dropworks/achievement`
    /// with the session's bearer token), or `NotSignedIn`.
    pub fn unlock_achievement_request(&self, achievement_id: &str) -> (request: Result<HttpRequest, DropworksError>)
        ensures
            request_result_view(request) == unlock_request_spec(self@, achievement_id@),
    {
        match &self.session {
            None => Err(DropworksError::NotSignedIn),
            Some(session) => {
                let body = achievement_body_text(
                    session.app_id.as_str(),
                    session.user_id.as_str(),
                    achievement_id,
                );
                let mut request = HttpRequest::post(self.endpoint("/achievement"), body);
                add_bearer(&mut request, session.auth_token.as_str());
                Ok(request)
            },
        }
    }

    /// The score submission request (`POST {base}/api/v1/dropworks/leaderboard`
    /// with the session's bearer token). `score_is_finite` tells whether the
    /// score is a finite number and `score` is its JSON number text.
    /// Refused with `InvalidArgument` for an empty key or a non-finite
    /// score, then with `NotSignedIn`.
    pub fn submit_score_request(
        &self,
        leaderboard_key: &str,
        score_is_finite: bool,
        score: &str,
    ) -> (request: Result<HttpRequest, DropworksError>)
        ensures
            request_result_view(request) == score_request_spec(
                self@,
                leaderboard_key@,
                score_is_finite,
                score@,
            ),
    {
        if leaderboard_key.is_empty() {
            return Err(DropworksError::InvalidArgument("leaderboard key is required".to_string()));
        }
        if !score_is_finite {
            return Err(DropworksError::InvalidArgument("score must be finite".to_string()));
        }
        match &self.session {
            None => Err(DropworksError::NotSignedIn),
            Some(session) => {
                let body = score_body_text(
                    session.app_id.as_str(),
                    session.user_id.as_str(),
                    leaderboard_key,
                    score,
                );
                let mut request = HttpRequest::post(self.endpoint("/leaderboard"), body);
                add_bearer(&mut request, session.auth_token.as_str());
                Ok(request)
            },
        }
    }
}

} // verus!
