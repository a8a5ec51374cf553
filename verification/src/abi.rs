//! The decisions behind the C ABI (`libdropworks`).
//!
//! The exported `extern "C"` functions read raw pointers, own the blocking
//! HTTP client and write out-parameters; those are the edges. What they
//! decide — which arguments are refused and with which status code, what is
//! recorded as the last error, which request is sent, how a reply maps to a
//! status code and to the out-parameters — is decided here.

use vstd::prelude::*;
use vstd::utf8::{decode_utf8, valid_utf8};

use crate::client::{
    achievement_body, achievement_body_text, endpoint_url, has_no_trailing_slash, score_body, score_body_text,
    sign_in_body, sign_in_body_text, API_BASE_PATH,
};
use crate::json::{
    document_member, flag_of, json_document, json_member_value, json_object, json_rejection, json_string,
    json_string_literal, member_text, member_texts, object_text, string_views, text_of, JsonMember,
};
use crate::text::{decimal_text, decimal_u16, has_nul, is_blank, trim_trailing_slash, utf8_text, white_space, without_trailing_slashes};
use crate::transport::{is_success, is_success_status};

verus! {

broadcast use vstd::string::group_string_axioms;

pub const DROPWORKS_OK: i32 = 0;
pub const DROPWORKS_ERR_INVALID_ARGUMENT: i32 = 1;
pub const DROPWORKS_ERR_NETWORK: i32 = 2;
pub const DROPWORKS_ERR_UNAUTHORIZED: i32 = 3;
pub const DROPWORKS_ERR_SERVER: i32 = 4;
pub const DROPWORKS_ERR_NOT_SIGNED_IN: i32 = 5;
pub const DROPWORKS_ERR_INTERNAL: i32 = 6;
pub const DROPWORKS_ERR_NOT_IMPLEMENTED: i32 = 7;

/// Sentinel for an output flag whose value the server did not report.
pub const DROPWORKS_BOOL_UNKNOWN: i32 = -1;

/// Request timeout used when the configuration gives none.
pub const DEFAULT_TIMEOUT_MS: u64 = 10_000;

/// Longest string, in bytes, accepted across the ABI.
pub const MAX_STRING_BYTES: usize = 64 * 1024;

// ---------------------------------------------------------------------------
// Status codes
// ---------------------------------------------------------------------------

/// The status code for a refused HTTP status: unauthorized for 401 and 403,
/// a server error otherwise.
pub open spec fn http_failure_code(status: u16) -> i32 {
    if status == 401 || status == 403 {
        DROPWORKS_ERR_UNAUTHORIZED
    } else {
        DROPWORKS_ERR_SERVER
    }
}

/// Maps a refused HTTP status to a status code.
pub fn status_for_http(status: u16) -> (code: i32)
    ensures
        code == http_failure_code(status),
{
    if status == 401 || status == 403 {
        DROPWORKS_ERR_UNAUTHORIZED
    } else {
        DROPWORKS_ERR_SERVER
    }
}

/// The name of a status code; unknown codes are named
/// `DROPWORKS_ERR_UNKNOWN`.
pub open spec fn status_label(status: i32) -> Seq<char> {
    if status == DROPWORKS_OK {
        "DROPWORKS_OK"@
    } else if status == DROPWORKS_ERR_INVALID_ARGUMENT {
        "DROPWORKS_ERR_INVALID_ARGUMENT"@
    } else if status == DROPWORKS_ERR_NETWORK {
        "DROPWORKS_ERR_NETWORK"@
    } else if status == DROPWORKS_ERR_UNAUTHORIZED {
        "DROPWORKS_ERR_UNAUTHORIZED"@
    } else if status == DROPWORKS_ERR_SERVER {
        "DROPWORKS_ERR_SERVER"@
    } else if status == DROPWORKS_ERR_NOT_SIGNED_IN {
        "DROPWORKS_ERR_NOT_SIGNED_IN"@
    } else if status == DROPWORKS_ERR_INTERNAL {
        "DROPWORKS_ERR_INTERNAL"@
    } else if status == DROPWORKS_ERR_NOT_IMPLEMENTED {
        "DROPWORKS_ERR_NOT_IMPLEMENTED"@
    } else {
        "DROPWORKS_ERR_UNKNOWN"@
    }
}

/// The name of a status code, as a NUL-terminated string for C callers.
pub fn status_string(status: i32) -> (name: &'static str)
    ensures
        name@ == status_label(status).push('\0'),
{
    proof {
        reveal_strlit("DROPWORKS_OK");
        reveal_strlit("DROPWORKS_OK\0");
        reveal_strlit("DROPWORKS_ERR_INVALID_ARGUMENT");
        reveal_strlit("DROPWORKS_ERR_INVALID_ARGUMENT\0");
        reveal_strlit("DROPWORKS_ERR_NETWORK");
        reveal_strlit("DROPWORKS_ERR_NETWORK\0");
        reveal_strlit("DROPWORKS_ERR_UNAUTHORIZED");
        reveal_strlit("DROPWORKS_ERR_UNAUTHORIZED\0");
        reveal_strlit("DROPWORKS_ERR_SERVER");
        reveal_strlit("DROPWORKS_ERR_SERVER\0");
        reveal_strlit("DROPWORKS_ERR_NOT_SIGNED_IN");
        reveal_strlit("DROPWORKS_ERR_NOT_SIGNED_IN\0");
        reveal_strlit("DROPWORKS_ERR_INTERNAL");
        reveal_strlit("DROPWORKS_ERR_INTERNAL\0");
        reveal_strlit("DROPWORKS_ERR_NOT_IMPLEMENTED");
        reveal_strlit("DROPWORKS_ERR_NOT_IMPLEMENTED\0");
        reveal_strlit("DROPWORKS_ERR_UNKNOWN");
        reveal_strlit("DROPWORKS_ERR_UNKNOWN\0");
    }
    let name = if status == DROPWORKS_OK {
        "DROPWORKS_OK\0"
    } else if status == DROPWORKS_ERR_INVALID_ARGUMENT {
        "DROPWORKS_ERR_INVALID_ARGUMENT\0"
    } else if status == DROPWORKS_ERR_NETWORK {
        "DROPWORKS_ERR_NETWORK\0"
    } else if status == DROPWORKS_ERR_UNAUTHORIZED {
        "DROPWORKS_ERR_UNAUTHORIZED\0"
    } else if status == DROPWORKS_ERR_SERVER {
        "DROPWORKS_ERR_SERVER\0"
    } else if status == DROPWORKS_ERR_NOT_SIGNED_IN {
        "DROPWORKS_ERR_NOT_SIGNED_IN\0"
    } else if status == DROPWORKS_ERR_INTERNAL {
        "DROPWORKS_ERR_INTERNAL\0"
    } else if status == DROPWORKS_ERR_NOT_IMPLEMENTED {
        "DROPWORKS_ERR_NOT_IMPLEMENTED\0"
    } else {
        "DROPWORKS_ERR_UNKNOWN\0"
    };
    assert(name@ =~= status_label(status).push('\0'));
    name
}

// ---------------------------------------------------------------------------
// Strings handed across the ABI
// ---------------------------------------------------------------------------

/// Whether a string of `len` bytes may be read (it is within the cap).
pub fn within_string_cap(len: usize) -> (allowed: bool)
    ensures
        allowed == (len <= MAX_STRING_BYTES),
{
    len <= MAX_STRING_BYTES
}

/// The text of a string handed across the ABI: nothing for a missing
/// (null) string or one longer than the cap, and otherwise its UTF-8
/// decoding, if the bytes are well-formed.
pub open spec fn abi_text(bytes: Option<Seq<u8>>) -> Option<Seq<char>> {
    match bytes {
        None => None,
        Some(b) => if b.len() <= MAX_STRING_BYTES && valid_utf8(b) {
            Some(decode_utf8(b))
        } else {
            None
        },
    }
}

/// The bytes of an optional slice.
pub open spec fn optional_bytes(bytes: Option<&[u8]>) -> Option<Seq<u8>> {
    match bytes {
        Some(b) => Some(b@),
        None => None,
    }
}

/// An optional string, taken by its characters.
pub open spec fn optional_text(text: Option<String>) -> Option<Seq<char>> {
    match text {
        Some(t) => Some(t@),
        None => None,
    }
}

/// Reads a string handed across the ABI; `None` stands for a null pointer.
pub fn read_slice(bytes: Option<&[u8]>) -> (text: Option<String>)
    ensures
        optional_text(text) == abi_text(optional_bytes(bytes)),
{
    match bytes {
        None => None,
        Some(b) => {
            if !within_string_cap(b.len()) {
                return None;
            }
            utf8_text(b)
        },
    }
}

// ---------------------------------------------------------------------------
// Client configuration
// ---------------------------------------------------------------------------

/// The timeout to use for a configured one; 0 asks for the default.
pub open spec fn timeout_for(timeout_ms: u32) -> u64 {
    if timeout_ms == 0 {
        DEFAULT_TIMEOUT_MS
    } else {
        timeout_ms as u64
    }
}

/// Whether every character of `s` is white space.
pub open spec fn is_blank_text(s: Seq<char>) -> bool {
    forall|i: int| 0 <= i < s.len() ==> white_space(#[trigger] s[i])
}

/// The base URL and timeout of a new client, or the status code that
/// refuses the configuration: a missing or blank base URL is an invalid
/// argument.
pub open spec fn settings_for(base_url: Option<Seq<char>>, timeout_ms: u32) -> Result<(Seq<char>, u64), i32> {
    match base_url {
        None => Err(DROPWORKS_ERR_INVALID_ARGUMENT),
        Some(url) => if is_blank_text(url) {
            Err(DROPWORKS_ERR_INVALID_ARGUMENT)
        } else {
            Ok((url, timeout_for(timeout_ms)))
        },
    }
}

/// Checks a client configuration.
pub fn client_settings(base_url: Option<String>, timeout_ms: u32) -> (settings: Result<(String, u64), i32>)
    ensures
        match settings {
            Ok((url, timeout)) => settings_for(optional_text(base_url), timeout_ms) == Ok::<
                (Seq<char>, u64),
                i32,
            >((url@, timeout)),
            Err(code) => settings_for(optional_text(base_url), timeout_ms) == Err::<
                (Seq<char>, u64),
                i32,
            >(code),
        },
{
    match base_url {
        None => Err(DROPWORKS_ERR_INVALID_ARGUMENT),
        Some(url) => {
            if is_blank(url.as_str()) {
                return Err(DROPWORKS_ERR_INVALID_ARGUMENT);
            }
            let timeout: u64 = if timeout_ms == 0 {
                DEFAULT_TIMEOUT_MS
            } else {
                timeout_ms as u64
            };
            Ok((url, timeout))
        },
    }
}

// ---------------------------------------------------------------------------
// Clients, sessions and the last error
// ---------------------------------------------------------------------------

/// What a C-side client holds besides its HTTP client: its identity, its
/// base URL and the last error it recorded.
pub struct AbiClient {
    id: u64,
    base_url: String,
    last_error: Option<String>,
}

/// A C-side client taken by its characters.
pub struct AbiClientView {
    pub id: u64,
    pub base_url: Seq<char>,
    pub last_error: Option<Seq<char>>,
}

impl View for AbiClient {
    type V = AbiClientView;

    closed spec fn view(&self) -> AbiClientView {
        AbiClientView { id: self.id, base_url: self.base_url@, last_error: optional_text(self.last_error) }
    }
}

/// What the error slot holds after recording `message`: the message, unless
/// it holds a NUL character and so cannot become a C string, in which case
/// the slot is emptied.
pub open spec fn error_slot(message: Seq<char>) -> Option<Seq<char>> {
    if message.contains('\0') {
        None
    } else {
        Some(message)
    }
}

/// `client` after recording `message` as its last error.
pub open spec fn with_error(client: AbiClientView, message: Seq<char>) -> AbiClientView {
    AbiClientView { id: client.id, base_url: client.base_url, last_error: error_slot(message) }
}

/// Whether a client's recorded error can be handed out as a C string.
pub open spec fn error_is_c_text(client: AbiClientView) -> bool {
    match client.last_error {
        Some(m) => !m.contains('\0'),
        None => true,
    }
}

impl AbiClient {
    #[verifier::type_invariant]
    spec fn well_formed(self) -> bool {
        &&& error_is_c_text(self@)
        &&& has_no_trailing_slash(self.base_url@)
    }

    /// A client with identity `id` for the server at `base_url`, whose
    /// trailing slashes are dropped; no error recorded.
    pub fn new(id: u64, base_url: String) -> (client: Self)
        ensures
            client@ == (AbiClientView {
                id,
                base_url: without_trailing_slashes(base_url@),
                last_error: None,
            }),
    {
        proof {
            crate::text::lemma_trimmed_has_no_trailing_slash(base_url@);
        }
        AbiClient { id, base_url: trim_trailing_slash(base_url), last_error: None }
    }

    /// The client's identity.
    pub fn id(&self) -> (id: u64)
        ensures
            id == self@.id,
    {
        self.id
    }

    /// The client's base URL.
    pub fn base_url(&self) -> (url: &str)
        ensures
            url@ == self@.base_url,
            has_no_trailing_slash(url@),
    {
        proof {
            use_type_invariant(self);
        }
        self.base_url.as_str()
    }

    /// The last error recorded, if any; it never holds a NUL character.
    pub fn last_error(&self) -> (message: Option<&str>)
        ensures
            match message {
                Some(m) => self@.last_error == Some(m@) && !m@.contains('\0'),
                None => self@.last_error is None,
            },
    {
        proof {
            use_type_invariant(self);
        }
        match &self.last_error {
            Some(m) => Some(m.as_str()),
            None => None,
        }
    }

    /// Records `message` as the last error.
    pub fn set_error(&mut self, message: String)
        ensures
            final(self)@ == with_error(old(self)@, message@),
    {
        proof {
            use_type_invariant(&*self);
        }
        if has_nul(message.as_str()) {
            self.last_error = None;
        } else {
            self.last_error = Some(message);
        }
    }

    /// Records `message` as the last error and hands back `code`.
    fn refuse(&mut self, message: String, code: i32) -> (refused: i32)
        ensures
            final(self)@ == with_error(old(self)@, message@),
            refused == code,
    {
        self.set_error(message);
        code
    }

    /// Whether `session` was created by this client.
    pub fn session_matches(&self, session: &AbiSession) -> (matches: bool)
        ensures
            matches == (self@.id == session@.client_id),
    {
        self.id == session.client_id
    }
}

/// What a C-side session holds: the client that created it and its
/// credentials.
pub struct AbiSession {
    client_id: u64,
    app_id: String,
    user_id: String,
    auth_token: String,
}

/// A C-side session taken by its characters.
pub struct AbiSessionView {
    pub client_id: u64,
    pub app_id: Seq<char>,
    pub user_id: Seq<char>,
    pub auth_token: Seq<char>,
}

impl View for AbiSession {
    type V = AbiSessionView;

    closed spec fn view(&self) -> AbiSessionView {
        AbiSessionView {
            client_id: self.client_id,
            app_id: self.app_id@,
            user_id: self.user_id@,
            auth_token: self.auth_token@,
        }
    }
}

/// Whether none of the credentials holds a NUL character, so that each can
/// be handed out as a C string.
pub open spec fn credentials_are_c_text(app_id: Seq<char>, user_id: Seq<char>, auth_token: Seq<char>) -> bool {
    !app_id.contains('\0') && !user_id.contains('\0') && !auth_token.contains('\0')
}

impl AbiSession {
    #[verifier::type_invariant]
    spec fn well_formed(self) -> bool {
        credentials_are_c_text(self.app_id@, self.user_id@, self.auth_token@)
    }

    /// A session of client `client_id`, unless a credential holds a NUL
    /// character.
    pub fn new(client_id: u64, app_id: String, user_id: String, auth_token: String) -> (session: Option<Self>)
        ensures
            match session {
                Some(s) => credentials_are_c_text(app_id@, user_id@, auth_token@) && s@ == (
                AbiSessionView { client_id, app_id: app_id@, user_id: user_id@, auth_token: auth_token@ }),
                None => !credentials_are_c_text(app_id@, user_id@, auth_token@),
            },
    {
        if has_nul(app_id.as_str()) || has_nul(user_id.as_str()) || has_nul(auth_token.as_str()) {
            None
        } else {
            Some(AbiSession { client_id, app_id, user_id, auth_token })
        }
    }

    /// The client that created the session.
    pub fn client_id(&self) -> (id: u64)
        ensures
            id == self@.client_id,
    {
        self.client_id
    }

    /// The app id; it never holds a NUL character.
    pub fn app_id(&self) -> (app_id: &str)
        ensures
            app_id@ == self@.app_id,
            !app_id@.contains('\0'),
    {
        proof {
            use_type_invariant(self);
        }
        self.app_id.as_str()
    }

    /// The user id; it never holds a NUL character.
    pub fn user_id(&self) -> (user_id: &str)
        ensures
            user_id@ == self@.user_id,
            !user_id@.contains('\0'),
    {
        proof {
            use_type_invariant(self);
        }
        self.user_id.as_str()
    }

    /// The auth token; it never holds a NUL character.
    pub fn auth_token(&self) -> (auth_token: &str)
        ensures
            auth_token@ == self@.auth_token,
            !auth_token@.contains('\0'),
    {
        proof {
            use_type_invariant(self);
        }
        self.auth_token.as_str()
    }
}

// ---------------------------------------------------------------------------
// Requests sent across the ABI
// ---------------------------------------------------------------------------

/// A request the C ABI sends: a JSON `POST` of `body` to `url`, with
/// `bearer` as bearer token when present.
pub struct AbiCall {
    pub url: String,
    pub body: String,
    pub bearer: Option<String>,
}

/// A request of the C ABI taken by its characters.
pub struct CallView {
    pub url: Seq<char>,
    pub body: Seq<char>,
    pub bearer: Option<Seq<char>>,
}

impl View for AbiCall {
    type V = CallView;

    open spec fn view(&self) -> CallView {
        CallView { url: self.url@, body: self.body@, bearer: optional_text(self.bearer) }
    }
}

/// A request or the status code that refused it, taken by characters.
pub open spec fn call_result(call: Result<AbiCall, i32>) -> Result<CallView, i32> {
    match call {
        Ok(c) => Ok(c@),
        Err(code) => Err(code),
    }
}

/// A session or the status code that refused it, taken by characters.
pub open spec fn session_result(session: Result<AbiSession, i32>) -> Result<AbiSessionView, i32> {
    match session {
        Ok(s) => Ok(s@),
        Err(code) => Err(code),
    }
}

/// An optional borrowed string, taken by its characters.
pub open spec fn optional_str(text: Option<&str>) -> Option<Seq<char>> {
    match text {
        Some(t) => Some(t@),
        None => None,
    }
}

/// Whether an optional text is present and not empty.
pub open spec fn is_filled(text: Option<Seq<char>>) -> bool {
    match text {
        Some(t) => t.len() > 0,
        None => false,
    }
}

/// The text of a present option (empty otherwise).
pub open spec fn filled(text: Option<Seq<char>>) -> Seq<char> {
    match text {
        Some(t) => t,
        None => Seq::empty(),
    }
}

/// The message recorded when a refused HTTP status ends an operation.
pub open spec fn http_failure_message(operation: Seq<char>, status: u16) -> Seq<char> {
    operation + " failed with HTTP "@ + decimal_text(status as nat)
}

/// Records the message for a refused HTTP status of `operation`.
fn http_failure_text(operation: &str, status: u16) -> (message: String)
    ensures
        message@ == http_failure_message(operation@, status),
{
    let mut message = operation.to_string();
    message.append(" failed with HTTP ");
    message.append(decimal_u16(status).as_str());
    message
}

/// The call and state after the start of a sign-in: both credentials must be
/// readable and non-empty.
pub open spec fn sign_in_begin(
    client: AbiClientView,
    app_id: Option<Seq<char>>,
    auth_token: Option<Seq<char>>,
) -> (AbiClientView, Result<CallView, i32>) {
    if is_filled(app_id) && is_filled(auth_token) {
        (
            client,
            Ok(
                CallView {
                    url: endpoint_url(client.base_url, "/session"@),
                    body: sign_in_body(filled(app_id), filled(auth_token)),
                    bearer: None,
                },
            ),
        )
    } else {
        (with_error(client, "app id and auth token are required"@), Err(DROPWORKS_ERR_INVALID_ARGUMENT))
    }
}

/// The state and result once a sign-in reply yielded `user_id` (or no
/// string `userId` member): a session of this client, unless a credential
/// cannot become a C string.
pub open spec fn user_id_outcome(
    client: AbiClientView,
    app_id: Seq<char>,
    auth_token: Seq<char>,
    user_id: Option<Seq<char>>,
) -> (AbiClientView, Result<AbiSessionView, i32>) {
    match user_id {
        None => (with_error(client, "sign-in response was missing userId"@), Err(DROPWORKS_ERR_INTERNAL)),
        Some(user_id) => if credentials_are_c_text(app_id, user_id, auth_token) {
            (client, Ok(AbiSessionView { client_id: client.id, app_id, user_id, auth_token }))
        } else {
            (
                with_error(client, "credentials contained an interior NUL byte"@),
                Err(DROPWORKS_ERR_INVALID_ARGUMENT),
            )
        },
    }
}

/// A reply of the C ABI's HTTP client, taken by characters: the status
/// and body text, or the message of the network error.
pub open spec fn abi_reply(reply: Result<(u16, String), String>) -> Result<(u16, Seq<char>), Seq<char>> {
    match reply {
        Ok((status, body)) => Ok((status, body@)),
        Err(message) => Err(message@),
    }
}

/// A reply whose body is not read: the status, or the network error.
pub open spec fn status_reply(reply: Result<u16, String>) -> Result<u16, Seq<char>> {
    match reply {
        Ok(status) => Ok(status),
        Err(message) => Err(message@),
    }
}

/// The call and state after the start of an achievement unlock.
pub open spec fn unlock_begin(
    client: AbiClientView,
    session: AbiSessionView,
    achievement_id: Option<Seq<char>>,
) -> (AbiClientView, Result<CallView, i32>) {
    if client.id != session.client_id {
        (with_error(client, "session does not belong to this client"@), Err(DROPWORKS_ERR_INVALID_ARGUMENT))
    } else if !is_filled(achievement_id) {
        (with_error(client, "achievement id is required"@), Err(DROPWORKS_ERR_INVALID_ARGUMENT))
    } else {
        (
            client,
            Ok(
                CallView {
                    url: endpoint_url(client.base_url, "/achievement"@),
                    body: achievement_body(session.app_id, session.user_id, filled(achievement_id)),
                    bearer: Some(session.auth_token),
                },
            ),
        )
    }
}

/// The state, status code and unlocked flag after an unlock reply.
pub open spec fn unlock_finish(client: AbiClientView, reply: Result<u16, Seq<char>>) -> (AbiClientView, (i32, i32)) {
    match reply {
        Err(message) => (with_error(client, message), (DROPWORKS_ERR_NETWORK, 0)),
        Ok(status) => if is_success_status(status) {
            (client, (DROPWORKS_OK, 1))
        } else {
            (with_error(client, http_failure_message("unlock"@, status)), (http_failure_code(status), 0))
        },
    }
}

/// The members of a presence update body, in map order; the game id is
/// left out when absent.
pub open spec fn presence_entries(
    app_id: Seq<char>,
    user_id: Seq<char>,
    status: Seq<char>,
    game_id: Option<Seq<char>>,
) -> Seq<(Seq<char>, Seq<char>)> {
    match game_id {
        None => seq![
            ("appId"@, json_string_literal(app_id)),
            ("status"@, json_string_literal(status)),
            ("userId"@, json_string_literal(user_id)),
        ],
        Some(game_id) => seq![
            ("appId"@, json_string_literal(app_id)),
            ("gameId"@, json_string_literal(game_id)),
            ("status"@, json_string_literal(status)),
            ("userId"@, json_string_literal(user_id)),
        ],
    }
}

/// The body of a presence update.
pub open spec fn presence_body(
    app_id: Seq<char>,
    user_id: Seq<char>,
    status: Seq<char>,
    game_id: Option<Seq<char>>,
) -> Seq<char> {
    json_object(presence_entries(app_id, user_id, status, game_id))
}

/// An optional game id handed across the ABI: `None` when the pointer is
/// null, otherwise what reading it gave.
pub open spec fn game_id_view(game_id: Option<Option<String>>) -> Option<Option<Seq<char>>> {
    match game_id {
        None => None,
        Some(read) => Some(optional_text(read)),
    }
}

/// The call and state after the start of a presence update.
pub open spec fn presence_begin(
    client: AbiClientView,
    session: AbiSessionView,
    game_id: Option<Option<Seq<char>>>,
    status: Option<Seq<char>>,
) -> (AbiClientView, Result<CallView, i32>) {
    if client.id != session.client_id {
        (with_error(client, "session does not belong to this client"@), Err(DROPWORKS_ERR_INVALID_ARGUMENT))
    } else if !is_filled(status) {
        (with_error(client, "status is required"@), Err(DROPWORKS_ERR_INVALID_ARGUMENT))
    } else {
        match game_id {
            Some(None) => (
                with_error(client, "game id is invalid or too long"@),
                Err(DROPWORKS_ERR_INVALID_ARGUMENT),
            ),
            Some(Some(game_id)) => (
                client,
                Ok(
                    CallView {
                        url: endpoint_url(client.base_url, "/presence"@),
                        body: presence_body(session.app_id, session.user_id, filled(status), Some(game_id)),
                        bearer: Some(session.auth_token),
                    },
                ),
            ),
            None => (
                client,
                Ok(
                    CallView {
                        url: endpoint_url(client.base_url, "/presence"@),
                        body: presence_body(session.app_id, session.user_id, filled(status), None),
                        bearer: Some(session.auth_token),
                    },
                ),
            ),
        }
    }
}

/// The state and status code after a presence reply.
pub open spec fn presence_finish(client: AbiClientView, reply: Result<u16, Seq<char>>) -> (AbiClientView, i32) {
    match reply {
        Err(message) => (with_error(client, message), DROPWORKS_ERR_NETWORK),
        Ok(status) => if is_success_status(status) {
            (client, DROPWORKS_OK)
        } else {
            (with_error(client, http_failure_message("presence update"@, status)), http_failure_code(status))
        },
    }
}

/// The call and state after the start of a score submission. `score` is
/// the score's JSON number text and `score_is_finite` whether it is finite.
pub open spec fn score_begin(
    client: AbiClientView,
    session: AbiSessionView,
    leaderboard_key: Option<Seq<char>>,
    score_is_finite: bool,
    score: Seq<char>,
) -> (AbiClientView, Result<CallView, i32>) {
    if client.id != session.client_id {
        (with_error(client, "session does not belong to this client"@), Err(DROPWORKS_ERR_INVALID_ARGUMENT))
    } else if leaderboard_key is None {
        (with_error(client, "leaderboard key is required"@), Err(DROPWORKS_ERR_INVALID_ARGUMENT))
    } else if !is_filled(leaderboard_key) || !score_is_finite {
        (
            with_error(client, "leaderboard key and a finite score are required"@),
            Err(DROPWORKS_ERR_INVALID_ARGUMENT),
        )
    } else {
        (
            client,
            Ok(
                CallView {
                    url: endpoint_url(client.base_url, "/leaderboard"@),
                    body: score_body(session.app_id, session.user_id, filled(leaderboard_key), score),
                    bearer: Some(session.auth_token),
                },
            ),
        )
    }
}

/// The out-parameter for the server's `improved` flag: 1 or 0 when it was
/// reported, unknown when it was not.
pub open spec fn improved_code(improved: Option<bool>) -> i32 {
    match improved {
        Some(true) => 1,
        Some(false) => 0,
        None => DROPWORKS_BOOL_UNKNOWN,
    }
}

/// The state and result after a sign-in reply: a network error, a refused
/// status and a body that is not JSON end it with the error recorded;
/// otherwise the body's `userId` member decides, through `user_id_outcome`.
pub open spec fn sign_in_finish(
    client: AbiClientView,
    app_id: Seq<char>,
    auth_token: Seq<char>,
    reply: Result<(u16, Seq<char>), Seq<char>>,
) -> (AbiClientView, Result<AbiSessionView, i32>) {
    match reply {
        Err(message) => (with_error(client, message), Err(DROPWORKS_ERR_NETWORK)),
        Ok((status, body)) => if !is_success_status(status) {
            (with_error(client, http_failure_message("sign-in"@, status)), Err(http_failure_code(status)))
        } else if !json_document(body) {
            (
                with_error(client, "invalid sign-in response: "@ + json_rejection(body)),
                Err(DROPWORKS_ERR_INTERNAL),
            )
        } else {
            user_id_outcome(client, app_id, auth_token, text_of(json_member_value(body, "userId"@)))
        },
    }
}

/// The improved flag the server reported in a success body: a boolean
/// `improved` member of a JSON document, if there is one.
pub open spec fn reported_improvement(body: Seq<char>) -> Option<bool> {
    if json_document(body) {
        flag_of(json_member_value(body, "improved"@))
    } else {
        None
    }
}

/// The state, status code and improved flag after a score reply.
pub open spec fn score_finish(client: AbiClientView, reply: Result<(u16, Seq<char>), Seq<char>>) -> (
    AbiClientView,
    (i32, i32),
) {
    match reply {
        Err(message) => (with_error(client, message), (DROPWORKS_ERR_NETWORK, DROPWORKS_BOOL_UNKNOWN)),
        Ok((status, body)) => if is_success_status(status) {
            (client, (DROPWORKS_OK, improved_code(reported_improvement(body))))
        } else {
            (with_error(client, http_failure_message("score submission"@, status)), (http_failure_code(status), 0))
        },
    }
}

/// Maps the server's `improved` flag to the out-parameter value.
pub fn improved_flag(improved: Option<bool>) -> (flag: i32)
    ensures
        flag == improved_code(improved),
{
    match improved {
        Some(true) => 1,
        Some(false) => 0,
        None => DROPWORKS_BOOL_UNKNOWN,
    }
}

/// The text of a presence update body.
pub fn presence_body_text(app_id: &str, user_id: &str, status: &str, game_id: Option<&str>) -> (body: String)
    ensures
        body@ == presence_body(app_id@, user_id@, status@, optional_str(game_id)),
{
    let mut members: Vec<String> = Vec::new();
    members.push(member_text("appId", json_string(app_id).as_str()));
    match game_id {
        Some(g) => members.push(member_text("gameId", json_string(g).as_str())),
        None => {},
    }
    members.push(member_text("status", json_string(status).as_str()));
    members.push(member_text("userId", json_string(user_id).as_str()));
    let body = object_text(&members);
    assert(string_views(members@) =~= member_texts(
        presence_entries(app_id@, user_id@, status@, optional_str(game_id)),
    ));
    body
}

impl AbiClient {
    /// The URL of the endpoint at `path`.
    fn endpoint(&self, path: &str) -> (url: String)
        ensures
            url@ == endpoint_url(self@.base_url, path@),
    {
        let mut url = self.base_url.clone();
        url.append(API_BASE_PATH);
        url.append(path);
        url
    }

    /// Starts a sign-in with the credentials read across the ABI (`None`
    /// when unreadable): the request to send, or `INVALID_ARGUMENT` with the
    /// error recorded.
    pub fn begin_sign_in(&mut self, app_id: Option<&str>, auth_token: Option<&str>) -> (call: Result<AbiCall, i32>)
        ensures
            (final(self)@, call_result(call)) == sign_in_begin(old(self)@, optional_str(app_id), optional_str(auth_token)),
    {
        match (app_id, auth_token) {
            (Some(app_id), Some(auth_token)) => {
                if !app_id.is_empty() && !auth_token.is_empty() {
                    let url = self.endpoint("/session");
                    let body = sign_in_body_text(app_id, auth_token);
                    return Ok(AbiCall { url, body, bearer: None });
                }
            },
            _ => {},
        }
        Err(self.refuse("app id and auth token are required".to_string(), DROPWORKS_ERR_INVALID_ARGUMENT))
    }

    /// Ends a sign-in once the reply's `userId` member was looked up: the
    /// session, or the status code with the error recorded.
    pub fn accept_user_id(&mut self, app_id: &str, auth_token: &str, user_id: Option<String>) -> (session: Result<
        AbiSession,
        i32,
    >)
        ensures
            (final(self)@, session_result(session)) == user_id_outcome(
                old(self)@,
                app_id@,
                auth_token@,
                optional_text(user_id),
            ),
    {
        match user_id {
            None => Err(self.refuse("sign-in response was missing userId".to_string(), DROPWORKS_ERR_INTERNAL)),
            Some(user_id) => {
                match AbiSession::new(self.id, app_id.to_string(), user_id, auth_token.to_string()) {
                    Some(session) => Ok(session),
                    None => Err(
                        self.refuse(
                            "credentials contained an interior NUL byte".to_string(),
                            DROPWORKS_ERR_INVALID_ARGUMENT,
                        ),
                    ),
                }
            },
        }
    }

    /// Ends a sign-in with the reply of the HTTP client: the status and
    /// body text, or the network error's message.
    pub fn finish_sign_in(&mut self, app_id: &str, auth_token: &str, reply: Result<(u16, String), String>) -> (session: Result<
        AbiSession,
        i32,
    >)
        ensures
            (final(self)@, session_result(session)) == sign_in_finish(old(self)@, app_id@, auth_token@, abi_reply(reply)),
    {
        match reply {
            Err(message) => Err(self.refuse(message, DROPWORKS_ERR_NETWORK)),
            Ok((status, body)) => {
                if !is_success(status) {
                    let message = http_failure_text("sign-in", status);
                    return Err(self.refuse(message, status_for_http(status)));
                }
                match document_member(body.as_str(), "userId") {
                    Err(detail) => {
                        let mut message = "invalid sign-in response: ".to_string();
                        message.append(detail.as_str());
                        Err(self.refuse(message, DROPWORKS_ERR_INTERNAL))
                    },
                    Ok(member) => {
                        let user_id = match member {
                            JsonMember::Text(user_id) => Some(user_id),
                            _ => None,
                        };
                        self.accept_user_id(app_id, auth_token, user_id)
                    },
                }
            },
        }
    }

    /// Starts an achievement unlock for `session`: the request to send, or
    /// `INVALID_ARGUMENT` with the error recorded.
    pub fn begin_unlock(&mut self, session: &AbiSession, achievement_id: Option<&str>) -> (call: Result<AbiCall, i32>)
        ensures
            (final(self)@, call_result(call)) == unlock_begin(old(self)@, session@, optional_str(achievement_id)),
    {
        if !self.session_matches(session) {
            return Err(
                self.refuse("session does not belong to this client".to_string(), DROPWORKS_ERR_INVALID_ARGUMENT),
            );
        }
        match achievement_id {
            Some(achievement_id) => {
                if !achievement_id.is_empty() {
                    let url = self.endpoint("/achievement");
                    let body = achievement_body_text(session.app_id(), session.user_id(), achievement_id);
                    return Ok(AbiCall { url, body, bearer: Some(session.auth_token().to_string()) });
                }
            },
            None => {},
        }
        Err(self.refuse("achievement id is required".to_string(), DROPWORKS_ERR_INVALID_ARGUMENT))
    }

    /// Ends an achievement unlock: the status code and the unlocked flag to
    /// write out.
    pub fn finish_unlock(&mut self, reply: Result<u16, String>) -> (outcome: (i32, i32))
        ensures
            (final(self)@, outcome) == unlock_finish(old(self)@, status_reply(reply)),
    {
        match reply {
            Err(message) => (self.refuse(message, DROPWORKS_ERR_NETWORK), 0),
            Ok(status) => {
                if is_success(status) {
                    (DROPWORKS_OK, 1)
                } else {
                    let message = http_failure_text("unlock", status);
                    (self.refuse(message, status_for_http(status)), 0)
                }
            },
        }
    }

    /// Starts a presence update for `session`: the request to send, or
    /// `INVALID_ARGUMENT` with the error recorded.
    pub fn begin_presence(
        &mut self,
        session: &AbiSession,
        game_id: Option<Option<String>>,
        status: Option<&str>,
    ) -> (call: Result<AbiCall, i32>)
        ensures
            (final(self)@, call_result(call)) == presence_begin(
                old(self)@,
                session@,
                game_id_view(game_id),
                optional_str(status),
            ),
    {
        if !self.session_matches(session) {
            return Err(
                self.refuse("session does not belong to this client".to_string(), DROPWORKS_ERR_INVALID_ARGUMENT),
            );
        }
        let status = match status {
            Some(status) => status,
            None => {
                return Err(self.refuse("status is required".to_string(), DROPWORKS_ERR_INVALID_ARGUMENT));
            },
        };
        if status.is_empty() {
            return Err(self.refuse("status is required".to_string(), DROPWORKS_ERR_INVALID_ARGUMENT));
        }
        let game_id: Option<String> = match game_id {
            None => None,
            Some(read) => match read {
                Some(game_id) => Some(game_id),
                None => {
                    return Err(
                        self.refuse("game id is invalid or too long".to_string(), DROPWORKS_ERR_INVALID_ARGUMENT),
                    );
                },
            },
        };
        let url = self.endpoint("/presence");
        let body = match &game_id {
            Some(g) => presence_body_text(session.app_id(), session.user_id(), status, Some(g.as_str())),
            None => presence_body_text(session.app_id(), session.user_id(), status, None),
        };
        Ok(AbiCall { url, body, bearer: Some(session.auth_token().to_string()) })
    }

    /// Ends a presence update: the status code.
    pub fn finish_presence(&mut self, reply: Result<u16, String>) -> (code: i32)
        ensures
            (final(self)@, code) == presence_finish(old(self)@, status_reply(reply)),
    {
        match reply {
            Err(message) => self.refuse(message, DROPWORKS_ERR_NETWORK),
            Ok(status) => {
                if is_success(status) {
                    DROPWORKS_OK
                } else {
                    let message = http_failure_text("presence update", status);
                    self.refuse(message, status_for_http(status))
                }
            },
        }
    }

    /// Starts a score submission for `session`. `score_is_finite` tells
    /// whether the score is finite and `score` is its JSON number text.
    pub fn begin_score(
        &mut self,
        session: &AbiSession,
        leaderboard_key: Option<&str>,
        score_is_finite: bool,
        score: &str,
    ) -> (call: Result<AbiCall, i32>)
        ensures
            (final(self)@, call_result(call)) == score_begin(
                old(self)@,
                session@,
                optional_str(leaderboard_key),
                score_is_finite,
                score@,
            ),
    {
        if !self.session_matches(session) {
            return Err(
                self.refuse("session does not belong to this client".to_string(), DROPWORKS_ERR_INVALID_ARGUMENT),
            );
        }
        let key = match leaderboard_key {
            Some(key) => key,
            None => {
                return Err(
                    self.refuse("leaderboard key is required".to_string(), DROPWORKS_ERR_INVALID_ARGUMENT),
                );
            },
        };
        if key.is_empty() || !score_is_finite {
            return Err(
                self.refuse(
                    "leaderboard key and a finite score are required".to_string(),
                    DROPWORKS_ERR_INVALID_ARGUMENT,
                ),
            );
        }
        let url = self.endpoint("/leaderboard");
        let body = score_body_text(session.app_id(), session.user_id(), key, score);
        Ok(AbiCall { url, body, bearer: Some(session.auth_token().to_string()) })
    }

    /// Ends a score submission with the reply (status and, for a success
    /// status, the body text; or the network error's message): the status
    /// code and the improved flag to write out.
    pub fn finish_score(&mut self, reply: Result<(u16, String), String>) -> (outcome: (i32, i32))
        ensures
            (final(self)@, outcome) == score_finish(old(self)@, abi_reply(reply)),
    {
        match reply {
            Err(message) => (self.refuse(message, DROPWORKS_ERR_NETWORK), DROPWORKS_BOOL_UNKNOWN),
            Ok((status, body)) => {
                if !is_success(status) {
                    let message = http_failure_text("score submission", status);
                    return (self.refuse(message, status_for_http(status)), 0);
                }
                let improved = match document_member(body.as_str(), "improved") {
                    Ok(JsonMember::Flag(improved)) => Some(improved),
                    _ => None,
                };
                (DROPWORKS_OK, improved_flag(improved))
            },
        }
    }
}

} // verus!
