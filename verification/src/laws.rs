//! Properties of the library that span several steps or calls.

use vstd::prelude::*;

use crate::abi::{
    credentials_are_c_text, error_slot, http_failure_message, improved_code, presence_begin, presence_body,
    presence_entries, presence_finish, score_begin, score_finish, settings_for, sign_in_begin, sign_in_finish,
    status_label, unlock_begin, unlock_finish, user_id_outcome, with_error, AbiClientView, AbiSessionView, CallView,
    DROPWORKS_BOOL_UNKNOWN, DROPWORKS_ERR_INTERNAL, DROPWORKS_ERR_INVALID_ARGUMENT, DROPWORKS_ERR_NETWORK,
    DROPWORKS_ERR_SERVER, DROPWORKS_ERR_UNAUTHORIZED, DROPWORKS_OK,
};
use crate::client::{
    achievement_body, achievement_entries, acceptance_spec, after_calls, endpoint_url, has_no_trailing_slash,
    latest_session, lemma_endpoint_paths, score_body, score_entries, score_request_spec, sign_in_body,
    sign_in_completion, sign_in_entries, sign_in_reply_spec, sign_in_request_spec, unlock_request_spec, with_bearer,
    ClientCall, ClientView, ErrorView, SessionView,
};
use crate::json::{json_document, json_member_value, keys_ascending, text_before, MemberView};
use crate::transport::RequestView;
use crate::text::white_space;
use crate::text::{decimal_text, digit_char, lemma_trimmed_has_no_trailing_slash, without_trailing_slashes};
use crate::transport::{json_post, ResponseView};

verus! {

/// A client's base URL is the given URL up to its trailing slashes: it does
/// not end with `'/'`, it is a prefix of the given URL, and only slashes
/// follow it there.
pub proof fn law_base_url_drops_only_trailing_slashes(base_url: Seq<char>)
    ensures
        ({
            let kept = without_trailing_slashes(base_url);
            &&& has_no_trailing_slash(kept)
            &&& base_url.subrange(0, kept.len() as int) == kept
            &&& forall|i: int| kept.len() <= i < base_url.len() ==> base_url[i] == '/'
        }),
{
    lemma_trimmed_has_no_trailing_slash(base_url);
}

/// Dropping trailing slashes twice is dropping them once: a client made
/// from another client's base URL has the same base URL.
pub proof fn law_trimming_is_idempotent(base_url: Seq<char>)
    ensures
        without_trailing_slashes(without_trailing_slashes(base_url)) == without_trailing_slashes(base_url),
{
    lemma_trimmed_has_no_trailing_slash(base_url);
}

/// Slashes appended to a URL do not change the base URL of a client made
/// from it: `https://host`, `https://host/` and `https://host//` give the
/// same client.
pub proof fn law_appended_slashes_do_not_matter(url: Seq<char>, extra: nat)
    ensures
        without_trailing_slashes(url + Seq::new(extra, |i: int| '/')) == without_trailing_slashes(url),
    decreases extra,
{
    if extra > 0 {
        let longer = url + Seq::new(extra, |i: int| '/');
        let shorter = url + Seq::new((extra - 1) as nat, |i: int| '/');
        assert(longer.drop_last() =~= shorter);
        law_appended_slashes_do_not_matter(url, (extra - 1) as nat);
    } else {
        assert(url + Seq::new(0, |i: int| '/') =~= url);
    }
}

/// A sign-in whose reply yields a user id stores the new session, made of
/// the given credentials and that user id, and returns it; the base URL is
/// kept.
pub proof fn law_sign_in_stores_the_session(
    client: ClientView,
    app_id: Seq<char>,
    auth_token: Seq<char>,
    user_id: Seq<char>,
)
    ensures
        ({
            let (after, result) = sign_in_completion(client, app_id, auth_token, Ok(user_id));
            let session = SessionView { app_id, user_id, auth_token };
            &&& result == Ok::<SessionView, ErrorView>(session)
            &&& after.session == Some(session)
            &&& after.base_url == client.base_url
        }),
{
}

/// A sign-in whose reply cannot be parsed leaves the client as it was (a
/// previous session stays current) and reports an invalid response.
pub proof fn law_failed_sign_in_keeps_the_client(
    client: ClientView,
    app_id: Seq<char>,
    auth_token: Seq<char>,
    message: Seq<char>,
)
    ensures
        sign_in_completion(client, app_id, auth_token, Err(message)) == (client, Err::<SessionView, ErrorView>(
            ErrorView::InvalidResponse(message),
        )),
{
}

/// An achievement unlock is refused with `NotSignedIn` exactly when the
/// client holds no session.
pub proof fn law_unlock_requires_sign_in(client: ClientView, achievement_id: Seq<char>)
    ensures
        (unlock_request_spec(client, achievement_id) == Err::<crate::transport::RequestView, ErrorView>(
            ErrorView::NotSignedIn,
        )) <==> client.session is None,
{
}

/// A score with a key and a finite value is refused with `NotSignedIn`
/// exactly when the client holds no session.
pub proof fn law_score_requires_sign_in(client: ClientView, leaderboard_key: Seq<char>, score: Seq<char>)
    requires
        leaderboard_key.len() > 0,
    ensures
        (score_request_spec(client, leaderboard_key, true, score) == Err::<
            crate::transport::RequestView,
            ErrorView,
        >(ErrorView::NotSignedIn)) <==> client.session is None,
{
}

/// After a sign-in, an unlock posts to the achievement endpoint the app and
/// user ids of the new session with the achievement id, and authenticates
/// with the session's token.
pub proof fn law_unlock_after_sign_in_uses_the_session(
    client: ClientView,
    app_id: Seq<char>,
    auth_token: Seq<char>,
    user_id: Seq<char>,
    achievement_id: Seq<char>,
)
    ensures
        ({
            let (after, _) = sign_in_completion(client, app_id, auth_token, Ok(user_id));
            unlock_request_spec(after, achievement_id) == Ok::<crate::transport::RequestView, ErrorView>(
                with_bearer(
                    json_post(
                        endpoint_url(client.base_url, "/achievement"@),
                        achievement_body(app_id, user_id, achievement_id),
                    ),
                    auth_token,
                ),
            )
        }),
{
}

/// After a sign-in, a score with a key and a finite value posts to the
/// leaderboard endpoint with the new session's ids and token.
pub proof fn law_score_after_sign_in_uses_the_session(
    client: ClientView,
    app_id: Seq<char>,
    auth_token: Seq<char>,
    user_id: Seq<char>,
    leaderboard_key: Seq<char>,
    score: Seq<char>,
)
    requires
        leaderboard_key.len() > 0,
    ensures
        ({
            let (after, _) = sign_in_completion(client, app_id, auth_token, Ok(user_id));
            score_request_spec(after, leaderboard_key, true, score) == Ok::<
                crate::transport::RequestView,
                ErrorView,
            >(
                with_bearer(
                    json_post(
                        endpoint_url(client.base_url, "/leaderboard"@),
                        score_body(app_id, user_id, leaderboard_key, score),
                    ),
                    auth_token,
                ),
            )
        }),
{
}

/// An unlock or a score is reported as accepted exactly when the server
/// answered with a status in `200..300`.
pub proof fn law_acceptance_is_a_success_status(response: ResponseView)
    ensures
        acceptance_spec(Ok(response)) == Ok::<bool, ErrorView>(200 <= response.status < 300),
{
}

/// Through the C ABI, a session created by another client is refused by
/// every operation with `INVALID_ARGUMENT`, the refusal is recorded as the
/// last error, and no request is made.
pub proof fn law_foreign_sessions_are_refused(
    client: AbiClientView,
    session: AbiSessionView,
    text: Option<Seq<char>>,
    game_id: Option<Option<Seq<char>>>,
    score_is_finite: bool,
    score: Seq<char>,
)
    requires
        client.id != session.client_id,
    ensures
        ({
            let refused = (
                with_error(client, "session does not belong to this client"@),
                Err::<CallView, i32>(DROPWORKS_ERR_INVALID_ARGUMENT),
            );
            &&& unlock_begin(client, session, text) == refused
            &&& presence_begin(client, session, game_id, text) == refused
            &&& score_begin(client, session, text, score_is_finite, score) == refused
        }),
{
}

/// Through the C ABI, a session created by a sign-in belongs to the client
/// that made it, so an unlock with it and a non-empty achievement id is
/// sent, authenticated with the session's token, and the client is left as
/// it was.
pub proof fn law_abi_session_serves_its_client(
    client: AbiClientView,
    app_id: Seq<char>,
    auth_token: Seq<char>,
    user_id: Seq<char>,
    achievement_id: Seq<char>,
)
    requires
        credentials_are_c_text(app_id, user_id, auth_token),
        achievement_id.len() > 0,
    ensures
        ({
            let (after, result) = user_id_outcome(client, app_id, auth_token, Some(user_id));
            &&& after == client
            &&& result matches Ok(session) && unlock_begin(after, session, Some(achievement_id)) == (
                client,
                Ok::<CallView, i32>(
                    CallView {
                        url: endpoint_url(client.base_url, "/achievement"@),
                        body: achievement_body(app_id, user_id, achievement_id),
                        bearer: Some(auth_token),
                    },
                ),
            )
        }),
{
}

/// Each status code of the C ABI has a name of its own: no other code, known
/// or unknown, shares it.
pub proof fn law_status_names_are_distinct(code: i32, other: i32)
    requires
        0 <= code <= 7,
        code != other,
    ensures
        status_label(code) != status_label(other),
{
    reveal_strlit("DROPWORKS_OK");
    reveal_strlit("DROPWORKS_ERR_INVALID_ARGUMENT");
    reveal_strlit("DROPWORKS_ERR_NETWORK");
    reveal_strlit("DROPWORKS_ERR_UNAUTHORIZED");
    reveal_strlit("DROPWORKS_ERR_SERVER");
    reveal_strlit("DROPWORKS_ERR_NOT_SIGNED_IN");
    reveal_strlit("DROPWORKS_ERR_INTERNAL");
    reveal_strlit("DROPWORKS_ERR_NOT_IMPLEMENTED");
    reveal_strlit("DROPWORKS_ERR_UNKNOWN");
    if status_label(code) == status_label(other) {
        assert(status_label(code).len() == status_label(other).len());
        assert(status_label(code)[14] == status_label(other)[14]);
    }
}

/// Over any sequence of calls, a client's current session is the one of
/// its last successful sign-in, or the one it started with when no sign-in
/// succeeded: failed sign-ins, unlocks and scores never change it, and the
/// base URL never changes.
pub proof fn law_current_session_is_the_latest_sign_in(client: ClientView, calls: Seq<ClientCall>)
    ensures
        after_calls(client, calls).session == latest_session(client.session, calls),
        after_calls(client, calls).base_url == client.base_url,
    decreases calls.len(),
{
    if calls.len() > 0 {
        law_current_session_is_the_latest_sign_in(client, calls.drop_last());
    }
}

/// A client made by `new` has no session until a sign-in succeeds, and then
/// the session of the latest successful sign-in, over any sequence of calls.
pub proof fn law_new_client_holds_the_latest_sign_in(base_url: Seq<char>, calls: Seq<ClientCall>)
    ensures
        after_calls(ClientView { base_url: without_trailing_slashes(base_url), session: None }, calls).session
            == latest_session(None, calls),
{
    law_current_session_is_the_latest_sign_in(
        ClientView { base_url: without_trailing_slashes(base_url), session: None },
        calls,
    );
}

/// No character of `a + b` is `c` when none of `a` or of `b` is.
proof fn lemma_concat_lacks(a: Seq<char>, b: Seq<char>, c: char)
    requires
        !a.contains(c),
        !b.contains(c),
    ensures
        !(a + b).contains(c),
{
    if (a + b).contains(c) {
        let i = choose|i: int| 0 <= i < (a + b).len() && (a + b)[i] == c;
        if i < a.len() {
            assert(a[i] == c);
        } else {
            assert(b[i - a.len()] == c);
        }
    }
}

/// A decimal numeral holds digits only, no NUL.
proof fn lemma_decimal_lacks_nul(n: nat)
    ensures
        !decimal_text(n).contains('\0'),
    decreases n,
{
    if n >= 10 {
        lemma_decimal_lacks_nul(n / 10);
        let digit = seq![digit_char(n % 10)];
        assert(!digit.contains('\0')) by {
            if digit.contains('\0') {
                assert(digit[0] == '\0');
            }
        }
        lemma_concat_lacks(decimal_text(n / 10), digit, '\0');
        assert(decimal_text(n) =~= decimal_text(n / 10) + digit);
    } else {
        let digit = seq![digit_char(n)];
        if digit.contains('\0') {
            assert(digit[0] == '\0');
        }
    }
}

/// The message for a refused HTTP status holds no NUL.
proof fn lemma_http_failure_message_lacks_nul(operation: Seq<char>, status: u16)
    requires
        !operation.contains('\0'),
    ensures
        !http_failure_message(operation, status).contains('\0'),
{
    reveal_strlit(" failed with HTTP ");
    lemma_decimal_lacks_nul(status as nat);
    lemma_concat_lacks(operation, " failed with HTTP "@, '\0');
    lemma_concat_lacks(operation + " failed with HTTP "@, decimal_text(status as nat), '\0');
}

/// Every message the C ABI records of its own — each refusal of an
/// argument or of a reply, and each refused HTTP status whatever its code —
/// is kept in the error slot as it is, never emptied.
pub proof fn law_own_messages_are_kept(status: u16)
    ensures
        error_slot("app id and auth token are required"@) == Some("app id and auth token are required"@),
        error_slot("sign-in response was missing userId"@) == Some("sign-in response was missing userId"@),
        error_slot("credentials contained an interior NUL byte"@) == Some(
            "credentials contained an interior NUL byte"@,
        ),
        error_slot("session does not belong to this client"@) == Some("session does not belong to this client"@),
        error_slot("achievement id is required"@) == Some("achievement id is required"@),
        error_slot("status is required"@) == Some("status is required"@),
        error_slot("game id is invalid or too long"@) == Some("game id is invalid or too long"@),
        error_slot("leaderboard key is required"@) == Some("leaderboard key is required"@),
        error_slot("leaderboard key and a finite score are required"@) == Some(
            "leaderboard key and a finite score are required"@,
        ),
        error_slot(http_failure_message("sign-in"@, status)) == Some(http_failure_message("sign-in"@, status)),
        error_slot(http_failure_message("unlock"@, status)) == Some(http_failure_message("unlock"@, status)),
        error_slot(http_failure_message("presence update"@, status)) == Some(
            http_failure_message("presence update"@, status),
        ),
        error_slot(http_failure_message("score submission"@, status)) == Some(
            http_failure_message("score submission"@, status),
        ),
{
    reveal_strlit("app id and auth token are required");
    reveal_strlit("sign-in response was missing userId");
    reveal_strlit("credentials contained an interior NUL byte");
    reveal_strlit("session does not belong to this client");
    reveal_strlit("achievement id is required");
    reveal_strlit("status is required");
    reveal_strlit("game id is invalid or too long");
    reveal_strlit("leaderboard key is required");
    reveal_strlit("leaderboard key and a finite score are required");
    reveal_strlit("sign-in");
    reveal_strlit("unlock");
    reveal_strlit("presence update");
    reveal_strlit("score submission");
    lemma_http_failure_message_lacks_nul("sign-in"@, status);
    lemma_http_failure_message_lacks_nul("unlock"@, status);
    lemma_http_failure_message_lacks_nul("presence update"@, status);
    lemma_http_failure_message_lacks_nul("score submission"@, status);
}

/// Through the C ABI, a session signed in with one client is refused by any
/// other client: the operation ends with `INVALID_ARGUMENT` before any
/// request is made (so no out-parameter is written), and the other client
/// records and keeps the refusal as its last error.
pub proof fn law_sessions_are_refused_by_other_clients(
    first: AbiClientView,
    second: AbiClientView,
    app_id: Seq<char>,
    auth_token: Seq<char>,
    reply: Result<(u16, Seq<char>), Seq<char>>,
    achievement_id: Option<Seq<char>>,
)
    requires
        first.id != second.id,
    ensures
        sign_in_finish(first, app_id, auth_token, reply).1 matches Ok(session) ==> {
            &&& session.client_id == first.id
            &&& unlock_begin(second, session, achievement_id) == (
                with_error(second, "session does not belong to this client"@),
                Err::<CallView, i32>(DROPWORKS_ERR_INVALID_ARGUMENT),
            )
            &&& with_error(second, "session does not belong to this client"@).last_error == Some(
                "session does not belong to this client"@,
            )
        },
{
    law_own_messages_are_kept(0);
}

/// Every request body lists its members in the order of their keys, which
/// is the order serde_json's key-ordered map writes them in.
pub proof fn law_bodies_list_keys_in_map_order(
    app_id: Seq<char>,
    user_id: Seq<char>,
    auth_token: Seq<char>,
    achievement_id: Seq<char>,
    leaderboard_key: Seq<char>,
    score: Seq<char>,
    status: Seq<char>,
    game_id: Option<Seq<char>>,
)
    ensures
        keys_ascending(sign_in_entries(app_id, auth_token)),
        keys_ascending(achievement_entries(app_id, user_id, achievement_id)),
        keys_ascending(score_entries(app_id, user_id, leaderboard_key, score)),
        keys_ascending(presence_entries(app_id, user_id, status, game_id)),
{
    reveal_strlit("achievementId");
    reveal_strlit("appId");
    reveal_strlit("authToken");
    reveal_strlit("gameId");
    reveal_strlit("key");
    reveal_strlit("score");
    reveal_strlit("status");
    reveal_strlit("userId");
    reveal_with_fuel(text_before, 3);
    assert(text_before("achievementId"@, "appId"@));
    assert(text_before("appId"@, "authToken"@));
    assert(text_before("appId"@, "gameId"@));
    assert(text_before("appId"@, "key"@));
    assert(text_before("appId"@, "status"@));
    assert(text_before("gameId"@, "status"@));
    assert(text_before("key"@, "score"@));
    assert(text_before("score"@, "userId"@));
    assert(text_before("status"@, "userId"@));
    assert(text_before("appId"@, "userId"@));
}

// ---------------------------------------------------------------------------
// What each operation sends and how it judges the reply
// ---------------------------------------------------------------------------

/// The status code of a refused HTTP status: unauthorized for 401 and 403,
/// a server error for any other.
pub open spec fn refusal_code(status: u16) -> i32 {
    if status == 401 || status == 403 {
        DROPWORKS_ERR_UNAUTHORIZED
    } else {
        DROPWORKS_ERR_SERVER
    }
}

/// `client` with `message` as its last error.
pub open spec fn recorded(client: AbiClientView, message: Seq<char>) -> AbiClientView {
    AbiClientView { id: client.id, base_url: client.base_url, last_error: Some(message) }
}

/// Through the C ABI, a sign-in with readable, non-empty credentials posts
/// them to the session endpoint, without a bearer token, and leaves the
/// client as it was.
pub proof fn law_sign_in_calls_post_the_credentials(client: AbiClientView, app_id: Seq<char>, auth_token: Seq<char>)
    requires
        app_id.len() > 0,
        auth_token.len() > 0,
    ensures
        sign_in_begin(client, Some(app_id), Some(auth_token)) == (client, Ok::<CallView, i32>(
            CallView {
                url: client.base_url + "/api/v1/dropworks/session"@,
                body: sign_in_body(app_id, auth_token),
                bearer: None,
            },
        )),
{
    lemma_endpoint_paths(client.base_url);
}

/// Through the C ABI, for a client and a session it created and a present,
/// non-empty achievement id, the unlock request is made to the achievement
/// endpoint and carries the session's auth token as its bearer token.
pub proof fn law_unlock_calls_carry_the_session_token(
    client: AbiClientView,
    session: AbiSessionView,
    achievement_id: Seq<char>,
)
    requires
        client.id == session.client_id,
        achievement_id.len() > 0,
    ensures
        unlock_begin(client, session, Some(achievement_id)) == (client, Ok::<CallView, i32>(
            CallView {
                url: client.base_url + "/api/v1/dropworks/achievement"@,
                body: achievement_body(session.app_id, session.user_id, achievement_id),
                bearer: Some(session.auth_token),
            },
        )),
{
    lemma_endpoint_paths(client.base_url);
}

/// Through the C ABI, for a client and a session it created, a present
/// non-empty leaderboard key and a finite score, the score request is made
/// to the leaderboard endpoint and carries the session's auth token as its
/// bearer token, whatever the key and the score; a score that is not finite
/// is refused.
pub proof fn law_score_calls_carry_the_session_token(
    client: AbiClientView,
    session: AbiSessionView,
    leaderboard_key: Seq<char>,
    score: Seq<char>,
)
    requires
        client.id == session.client_id,
        leaderboard_key.len() > 0,
    ensures
        score_begin(client, session, Some(leaderboard_key), true, score) == (client, Ok::<CallView, i32>(
            CallView {
                url: client.base_url + "/api/v1/dropworks/leaderboard"@,
                body: score_body(session.app_id, session.user_id, leaderboard_key, score),
                bearer: Some(session.auth_token),
            },
        )),
        score_begin(client, session, Some(leaderboard_key), false, score).1 == Err::<CallView, i32>(
            DROPWORKS_ERR_INVALID_ARGUMENT,
        ),
{
    lemma_endpoint_paths(client.base_url);
}

/// The game id of a presence update as handed across the ABI: absent, or
/// read.
pub open spec fn given_game_id(game_id: Option<Seq<char>>) -> Option<Option<Seq<char>>> {
    match game_id {
        Some(g) => Some(Some(g)),
        None => None,
    }
}

/// Through the C ABI, for a client and a session it created and a present
/// non-empty status, the presence request is made to the presence endpoint
/// and carries the session's auth token as its bearer token, whether or not
/// a game id is given.
pub proof fn law_presence_calls_carry_the_session_token(
    client: AbiClientView,
    session: AbiSessionView,
    status: Seq<char>,
    game_id: Option<Seq<char>>,
)
    requires
        client.id == session.client_id,
        status.len() > 0,
    ensures
        presence_begin(client, session, given_game_id(game_id), Some(status)) == (client, Ok::<CallView, i32>(
            CallView {
                url: client.base_url + "/api/v1/dropworks/presence"@,
                body: presence_body(session.app_id, session.user_id, status, game_id),
                bearer: Some(session.auth_token),
            },
        )),
{
    lemma_endpoint_paths(client.base_url);
}

/// The message recorded for a refused status spelled out.
proof fn lemma_failure_messages(status: u16)
    ensures
        http_failure_message("sign-in"@, status) == "sign-in failed with HTTP "@ + decimal_text(status as nat),
        http_failure_message("unlock"@, status) == "unlock failed with HTTP "@ + decimal_text(status as nat),
        http_failure_message("presence update"@, status) == "presence update failed with HTTP "@ + decimal_text(
            status as nat,
        ),
        http_failure_message("score submission"@, status) == "score submission failed with HTTP "@
            + decimal_text(status as nat),
{
    reveal_strlit("sign-in");
    reveal_strlit("unlock");
    reveal_strlit("presence update");
    reveal_strlit("score submission");
    reveal_strlit(" failed with HTTP ");
    reveal_strlit("sign-in failed with HTTP ");
    reveal_strlit("unlock failed with HTTP ");
    reveal_strlit("presence update failed with HTTP ");
    reveal_strlit("score submission failed with HTTP ");
    assert("sign-in"@ + " failed with HTTP "@ =~= "sign-in failed with HTTP "@);
    assert("unlock"@ + " failed with HTTP "@ =~= "unlock failed with HTTP "@);
    assert("presence update"@ + " failed with HTTP "@ =~= "presence update failed with HTTP "@);
    assert("score submission"@ + " failed with HTTP "@ =~= "score submission failed with HTTP "@);
}

/// An unlock reply with any status in `200..300` yields `DROPWORKS_OK` with
/// the unlocked flag 1 and leaves the client (its last error) unchanged;
/// any other status is refused with the unlocked flag 0, its code (401 and
/// 403 unauthorized, others a server error) and its message recorded; a
/// network error is reported as such, its message recorded.
pub proof fn law_unlock_is_accepted_exactly_on_success(client: AbiClientView, status: u16, message: Seq<char>)
    ensures
        200 <= status < 300 ==> unlock_finish(client, Ok(status)) == (client, (DROPWORKS_OK, 1i32)),
        !(200 <= status < 300) ==> unlock_finish(client, Ok(status)) == (
            recorded(client, "unlock failed with HTTP "@ + decimal_text(status as nat)),
            (refusal_code(status), 0i32),
        ),
        unlock_finish(client, Err(message)).1 == (DROPWORKS_ERR_NETWORK, 0i32),
{
    lemma_failure_messages(status);
    law_own_messages_are_kept(status);
}

/// A presence reply with any status in `200..300` yields `DROPWORKS_OK` and
/// leaves the client unchanged; any other status is refused with its code
/// and its message recorded.
pub proof fn law_presence_is_accepted_exactly_on_success(client: AbiClientView, status: u16)
    ensures
        200 <= status < 300 ==> presence_finish(client, Ok(status)) == (client, DROPWORKS_OK),
        !(200 <= status < 300) ==> presence_finish(client, Ok(status)) == (
            recorded(client, "presence update failed with HTTP "@ + decimal_text(status as nat)),
            refusal_code(status),
        ),
{
    lemma_failure_messages(status);
    law_own_messages_are_kept(status);
}

/// A score reply with any status in `200..300` yields `DROPWORKS_OK`, leaves
/// the client unchanged, and reports the improved flag as 1 or 0 exactly
/// when the body is a JSON document whose `improved` member is `true` or
/// `false`, and as unknown otherwise; any other status is refused with the
/// flag 0, its code and its message recorded; a network error leaves the
/// flag unknown.
pub proof fn law_score_reply_reports_the_server_flag(
    client: AbiClientView,
    status: u16,
    body: Seq<char>,
    message: Seq<char>,
)
    ensures
        ({
            let (after, (code, flag)) = score_finish(client, Ok((status, body)));
            let member = json_member_value(body, "improved"@);
            200 <= status < 300 ==> {
                &&& after == client
                &&& code == DROPWORKS_OK
                &&& (flag == 1 <==> json_document(body) && member == MemberView::Flag(true))
                &&& (flag == 0 <==> json_document(body) && member == MemberView::Flag(false))
                &&& (flag == DROPWORKS_BOOL_UNKNOWN <==> !(json_document(body) && member is Flag))
            }
        }),
        !(200 <= status < 300) ==> score_finish(client, Ok((status, body))) == (
            recorded(client, "score submission failed with HTTP "@ + decimal_text(status as nat)),
            (refusal_code(status), 0i32),
        ),
        score_finish(client, Err(message)).1 == (DROPWORKS_ERR_NETWORK, DROPWORKS_BOOL_UNKNOWN),
{
    lemma_failure_messages(status);
    law_own_messages_are_kept(status);
}

/// Through the C ABI, a sign-in reply with a status outside `200..300` is
/// refused with its code and message; one with a status in `200..300`
/// whose body is a JSON document with a string `userId` gives the session
/// of that user, made of the given credentials and belonging to the client,
/// when the credentials can become C strings, and leaves the client
/// unchanged.
pub proof fn law_abi_sign_in_succeeds_on_any_success_status(
    client: AbiClientView,
    app_id: Seq<char>,
    auth_token: Seq<char>,
    status: u16,
    body: Seq<char>,
    user_id: Seq<char>,
)
    ensures
        !(200 <= status < 300) ==> sign_in_finish(client, app_id, auth_token, Ok((status, body))) == (
            recorded(client, "sign-in failed with HTTP "@ + decimal_text(status as nat)),
            Err::<AbiSessionView, i32>(refusal_code(status)),
        ),
        (200 <= status < 300 && json_document(body) && json_member_value(body, "userId"@) == MemberView::Text(user_id)
            && credentials_are_c_text(app_id, user_id, auth_token)) ==> sign_in_finish(
            client,
            app_id,
            auth_token,
            Ok((status, body)),
        ) == (client, Ok::<AbiSessionView, i32>(
            AbiSessionView { client_id: client.id, app_id, user_id, auth_token },
        )),
        (200 <= status < 300 && !json_document(body)) ==> sign_in_finish(
            client,
            app_id,
            auth_token,
            Ok((status, body)),
        ).1 == Err::<AbiSessionView, i32>(DROPWORKS_ERR_INTERNAL),
{
    lemma_failure_messages(status);
    law_own_messages_are_kept(status);
}

/// A client configuration is refused only when its base URL is missing or
/// blank (every character white space): any base URL with a character that
/// is not white space is accepted unchanged, with the configured timeout,
/// or the 10 000 ms default for 0.
pub proof fn law_only_missing_or_blank_urls_are_refused(base_url: Option<Seq<char>>, timeout_ms: u32)
    ensures
        settings_for(base_url, timeout_ms) == match base_url {
            None => Err::<(Seq<char>, u64), i32>(DROPWORKS_ERR_INVALID_ARGUMENT),
            Some(url) => if exists|i: int| 0 <= i < url.len() && !white_space(#[trigger] url[i]) {
                Ok((url, if timeout_ms == 0 { 10_000u64 } else { timeout_ms as u64 }))
            } else {
                Err(DROPWORKS_ERR_INVALID_ARGUMENT)
            },
        },
{
}

/// The improved flag is 1 for `true`, 0 for `false` and unknown (-1) when
/// the server did not report it; the three are distinct.
pub proof fn law_improved_flag_is_a_tri_state(improved: Option<bool>)
    ensures
        (improved_code(improved) == 1) <==> (improved == Some(true)),
        (improved_code(improved) == 0) <==> (improved == Some(false)),
        (improved_code(improved) == -1) <==> (improved is None),
{
}

/// A sign-in reply with any status in `200..300` yields its body as the
/// payload to parse — the same success range by which unlocks and scores
/// are accepted; any other status becomes an HTTP error carrying the status
/// and the body; a transport failure becomes a transport error.
pub proof fn law_sign_in_payload_on_any_success_status(response: ResponseView, message: Seq<char>)
    ensures
        200 <= response.status < 300 ==> sign_in_reply_spec(Ok(response)) == Ok::<Seq<char>, ErrorView>(
            response.body,
        ),
        !(200 <= response.status < 300) ==> sign_in_reply_spec(Ok(response)) == Err::<Seq<char>, ErrorView>(
            ErrorView::Http { status: response.status, body: response.body },
        ),
        (200 <= response.status < 300) == (acceptance_spec(Ok(response)) == Ok::<bool, ErrorView>(true)),
        sign_in_reply_spec(Err(message)) == Err::<Seq<char>, ErrorView>(ErrorView::Transport(message)),
{
}

/// The async client's requests: a sign-in with non-empty credentials posts
/// them as JSON to the session endpoint; once signed in, an unlock and a
/// score (non-empty key, finite value) post as JSON to their endpoints with
/// the session's token as bearer token in the `authorization` header.
pub proof fn law_client_requests_carry_the_session_token(
    client: ClientView,
    app_id: Seq<char>,
    auth_token: Seq<char>,
    achievement_id: Seq<char>,
    leaderboard_key: Seq<char>,
    score: Seq<char>,
)
    ensures
        (app_id.len() > 0 && auth_token.len() > 0) ==> sign_in_request_spec(client, app_id, auth_token) == Ok::<
            RequestView,
            ErrorView,
        >(
            RequestView {
                method: "POST"@,
                url: client.base_url + "/api/v1/dropworks/session"@,
                body: Some(sign_in_body(app_id, auth_token)),
                headers: seq![("content-type"@, "application/json"@)],
            },
        ),
        client.session matches Some(s) ==> unlock_request_spec(client, achievement_id) == Ok::<
            RequestView,
            ErrorView,
        >(
            RequestView {
                method: "POST"@,
                url: client.base_url + "/api/v1/dropworks/achievement"@,
                body: Some(achievement_body(s.app_id, s.user_id, achievement_id)),
                headers: seq![
                    ("content-type"@, "application/json"@),
                    ("authorization"@, "Bearer "@ + s.auth_token),
                ],
            },
        ),
        client.session matches Some(s) ==> leaderboard_key.len() == 0 || score_request_spec(
            client,
            leaderboard_key,
            true,
            score,
        ) == Ok::<RequestView, ErrorView>(
            RequestView {
                method: "POST"@,
                url: client.base_url + "/api/v1/dropworks/leaderboard"@,
                body: Some(score_body(s.app_id, s.user_id, leaderboard_key, score)),
                headers: seq![
                    ("content-type"@, "application/json"@),
                    ("authorization"@, "Bearer "@ + s.auth_token),
                ],
            },
        ),
{
    lemma_endpoint_paths(client.base_url);
    match client.session {
        Some(s) => {
            assert(seq![("content-type"@, "application/json"@)].push(("authorization"@, "Bearer "@ + s.auth_token))
                =~= seq![("content-type"@, "application/json"@), ("authorization"@, "Bearer "@ + s.auth_token)]);
        },
        None => {},
    }
}

} // verus!
