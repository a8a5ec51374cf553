use dropworks::abi::{
    client_settings, improved_flag, presence_body_text, read_slice, status_for_http, status_string,
    within_string_cap, AbiClient, AbiSession, DEFAULT_TIMEOUT_MS, DROPWORKS_BOOL_UNKNOWN, DROPWORKS_ERR_INTERNAL,
    DROPWORKS_ERR_INVALID_ARGUMENT, DROPWORKS_ERR_NETWORK, DROPWORKS_ERR_NOT_IMPLEMENTED,
    DROPWORKS_ERR_NOT_SIGNED_IN, DROPWORKS_ERR_SERVER, DROPWORKS_ERR_UNAUTHORIZED, DROPWORKS_OK, MAX_STRING_BYTES,
};

fn client() -> AbiClient {
    AbiClient::new(7, "https://drop.example.com/".to_string())
}

fn session_for(client: &AbiClient) -> AbiSession {
    AbiSession::new(client.id(), "app".to_string(), "user".to_string(), "token".to_string()).unwrap()
}

#[test]
fn status_strings_are_stable() {
    let cases = [
        (DROPWORKS_OK, "DROPWORKS_OK"),
        (DROPWORKS_ERR_INVALID_ARGUMENT, "DROPWORKS_ERR_INVALID_ARGUMENT"),
        (DROPWORKS_ERR_NETWORK, "DROPWORKS_ERR_NETWORK"),
        (DROPWORKS_ERR_UNAUTHORIZED, "DROPWORKS_ERR_UNAUTHORIZED"),
        (DROPWORKS_ERR_SERVER, "DROPWORKS_ERR_SERVER"),
        (DROPWORKS_ERR_NOT_SIGNED_IN, "DROPWORKS_ERR_NOT_SIGNED_IN"),
        (DROPWORKS_ERR_INTERNAL, "DROPWORKS_ERR_INTERNAL"),
        (DROPWORKS_ERR_NOT_IMPLEMENTED, "DROPWORKS_ERR_NOT_IMPLEMENTED"),
    ];
    for (code, expected) in cases {
        let rendered = status_string(code);
        assert_eq!(rendered.strip_suffix('\0'), Some(expected));
    }
    assert_eq!(status_string(42), "DROPWORKS_ERR_UNKNOWN\0");
    assert_eq!(status_string(-1), "DROPWORKS_ERR_UNKNOWN\0");
}

#[test]
fn read_slice_validates_length_and_utf8() {
    assert_eq!(read_slice(Some(&b"hello\0"[..5])).as_deref(), Some("hello"));
    assert_eq!(read_slice(Some(b"x")).as_deref(), Some("x"));
    assert_eq!(read_slice(None), None);
    // Over-cap lengths are rejected.
    assert_eq!(read_slice(Some(&vec![b'x'; MAX_STRING_BYTES + 1])), None);
    assert!(!within_string_cap(MAX_STRING_BYTES + 1));
    // Invalid UTF-8 is rejected.
    assert_eq!(read_slice(Some(&[0xffu8, 0xfe])), None);
}

#[test]
fn read_slice_accepts_the_cap_and_multibyte_text() {
    assert!(within_string_cap(MAX_STRING_BYTES));
    assert_eq!(MAX_STRING_BYTES, 65536);
    assert_eq!(read_slice(Some(&vec![b'y'; MAX_STRING_BYTES])).map(|s| s.len()), Some(MAX_STRING_BYTES));
    assert_eq!(read_slice(Some("héllo".as_bytes())).as_deref(), Some("héllo"));
    assert_eq!(read_slice(Some(b"")).as_deref(), Some(""));
}

#[test]
fn http_failures_map_to_status_codes() {
    assert_eq!(status_for_http(401), DROPWORKS_ERR_UNAUTHORIZED);
    assert_eq!(status_for_http(403), DROPWORKS_ERR_UNAUTHORIZED);
    assert_eq!(status_for_http(404), DROPWORKS_ERR_SERVER);
    assert_eq!(status_for_http(500), DROPWORKS_ERR_SERVER);
    assert_eq!(status_for_http(302), DROPWORKS_ERR_SERVER);
}

#[test]
fn client_settings_refuse_missing_or_blank_urls() {
    assert_eq!(client_settings(None, 0), Err(DROPWORKS_ERR_INVALID_ARGUMENT));
    assert_eq!(client_settings(Some(String::new()), 0), Err(DROPWORKS_ERR_INVALID_ARGUMENT));
    assert_eq!(client_settings(Some(" \t\n\u{3000}".to_string()), 0), Err(DROPWORKS_ERR_INVALID_ARGUMENT));
    assert_eq!(
        client_settings(Some("https://d/".to_string()), 0),
        Ok(("https://d/".to_string(), DEFAULT_TIMEOUT_MS))
    );
    assert_eq!(client_settings(Some(" x ".to_string()), 1_000), Ok((" x ".to_string(), 1_000)));
    assert_eq!(DEFAULT_TIMEOUT_MS, 10_000);
}

#[test]
fn clients_trim_their_base_url_and_start_without_error() {
    let client = client();
    assert_eq!(client.id(), 7);
    assert_eq!(client.base_url(), "https://drop.example.com");
    assert_eq!(client.last_error(), None);
}

#[test]
fn errors_with_nul_clear_the_error_slot() {
    let mut client = client();
    client.set_error("first".to_string());
    assert_eq!(client.last_error(), Some("first"));
    client.set_error("bad\0text".to_string());
    assert_eq!(client.last_error(), None);
}

#[test]
fn sign_in_and_unlock_validate_arguments() {
    let mut client = client();
    assert_eq!(client.begin_sign_in(None, Some("token")).err(), Some(DROPWORKS_ERR_INVALID_ARGUMENT));
    assert_eq!(client.last_error(), Some("app id and auth token are required"));
    assert_eq!(client.begin_sign_in(Some(""), Some("token")).err(), Some(DROPWORKS_ERR_INVALID_ARGUMENT));
    assert_eq!(client.begin_sign_in(Some("app"), Some("")).err(), Some(DROPWORKS_ERR_INVALID_ARGUMENT));

    let session = session_for(&client);
    assert_eq!(client.begin_unlock(&session, None).err(), Some(DROPWORKS_ERR_INVALID_ARGUMENT));
    assert_eq!(client.last_error(), Some("achievement id is required"));
    assert_eq!(client.begin_unlock(&session, Some("")).err(), Some(DROPWORKS_ERR_INVALID_ARGUMENT));
    assert_eq!(client.begin_score(&session, None, true, "1.0").err(), Some(DROPWORKS_ERR_INVALID_ARGUMENT));
    assert_eq!(client.last_error(), Some("leaderboard key is required"));
    assert_eq!(client.begin_score(&session, Some("high"), false, "null").err(), Some(DROPWORKS_ERR_INVALID_ARGUMENT));
    assert_eq!(client.last_error(), Some("leaderboard key and a finite score are required"));
    assert_eq!(client.begin_presence(&session, None, None).err(), Some(DROPWORKS_ERR_INVALID_ARGUMENT));
    assert_eq!(client.last_error(), Some("status is required"));
}

#[test]
fn length_prefixed_sign_in_validates_arguments() {
    let mut client = client();
    let app = read_slice(Some(&b"app\0"[..3]));
    let token = read_slice(None);
    assert_eq!(client.begin_sign_in(app.as_deref(), token.as_deref()).err(), Some(DROPWORKS_ERR_INVALID_ARGUMENT));
}

#[test]
fn sign_in_call_posts_the_credentials() {
    let mut client = client();
    let call = client.begin_sign_in(Some("app-1"), Some("token-1")).unwrap();
    assert_eq!(call.url, "https://drop.example.com/api/v1/dropworks/session");
    assert_eq!(call.body, r#"{"appId":"app-1","authToken":"token-1"}"#);
    assert_eq!(call.bearer, None);
    assert_eq!(client.last_error(), None);
}

#[test]
fn finish_sign_in_maps_every_reply() {
    let mut client = client();
    assert_eq!(
        client.finish_sign_in("app", "token", Err("connection refused".to_string())).err(),
        Some(DROPWORKS_ERR_NETWORK)
    );
    assert_eq!(client.last_error(), Some("connection refused"));

    assert_eq!(
        client.finish_sign_in("app", "token", Ok((401, String::new()))).err(),
        Some(DROPWORKS_ERR_UNAUTHORIZED)
    );
    assert_eq!(client.last_error(), Some("sign-in failed with HTTP 401"));
    assert_eq!(
        client.finish_sign_in("app", "token", Ok((500, "oops".to_string()))).err(),
        Some(DROPWORKS_ERR_SERVER)
    );
    assert_eq!(client.last_error(), Some("sign-in failed with HTTP 500"));

    assert_eq!(
        client.finish_sign_in("app", "token", Ok((200, "not json".to_string()))).err(),
        Some(DROPWORKS_ERR_INTERNAL)
    );
    assert!(client.last_error().unwrap().starts_with("invalid sign-in response: "));

    assert_eq!(
        client.finish_sign_in("app", "token", Ok((200, r#"{"userId":5}"#.to_string()))).err(),
        Some(DROPWORKS_ERR_INTERNAL)
    );
    assert_eq!(client.last_error(), Some("sign-in response was missing userId"));

    assert_eq!(
        client.finish_sign_in("a\0pp", "token", Ok((200, r#"{"userId":"u"}"#.to_string()))).err(),
        Some(DROPWORKS_ERR_INVALID_ARGUMENT)
    );
    assert_eq!(client.last_error(), Some("credentials contained an interior NUL byte"));

    let session = client
        .finish_sign_in("app", "token", Ok((200, r#"{"userId":"user-1","extra":true}"#.to_string())))
        .unwrap();
    assert_eq!(session.client_id(), 7);
    assert_eq!(session.app_id(), "app");
    assert_eq!(session.user_id(), "user-1");
    assert_eq!(session.auth_token(), "token");
}

#[test]
fn operations_reject_a_session_from_another_client() {
    let mut client = client();
    let foreign = AbiSession::new(999_999, "app".to_string(), "user".to_string(), "token".to_string()).unwrap();

    assert_eq!(client.begin_unlock(&foreign, Some("ach")).err(), Some(DROPWORKS_ERR_INVALID_ARGUMENT));
    assert_eq!(client.last_error(), Some("session does not belong to this client"));
    assert_eq!(client.begin_presence(&foreign, None, Some("in-game")).err(), Some(DROPWORKS_ERR_INVALID_ARGUMENT));
    assert_eq!(client.begin_score(&foreign, Some("high"), true, "1.0").err(), Some(DROPWORKS_ERR_INVALID_ARGUMENT));
    assert!(!client.session_matches(&foreign));
}

#[test]
fn sessions_refuse_nul_credentials() {
    assert!(AbiSession::new(1, "a\0".to_string(), "u".to_string(), "t".to_string()).is_none());
    assert!(AbiSession::new(1, "a".to_string(), "\0".to_string(), "t".to_string()).is_none());
    assert!(AbiSession::new(1, "a".to_string(), "u".to_string(), "t\0".to_string()).is_none());
}

#[test]
fn unlock_posts_with_the_bearer_token_and_reports_status() {
    let mut client = client();
    let session = session_for(&client);
    let call = client.begin_unlock(&session, Some("ach")).unwrap();
    assert_eq!(call.url, "https://drop.example.com/api/v1/dropworks/achievement");
    assert_eq!(call.body, r#"{"achievementId":"ach","appId":"app","userId":"user"}"#);
    assert_eq!(call.bearer.as_deref(), Some("token"));

    assert_eq!(client.finish_unlock(Ok(201)), (DROPWORKS_OK, 1));
    assert_eq!(client.finish_unlock(Ok(403)), (DROPWORKS_ERR_UNAUTHORIZED, 0));
    assert_eq!(client.last_error(), Some("unlock failed with HTTP 403"));
    assert_eq!(client.finish_unlock(Err("timeout".to_string())), (DROPWORKS_ERR_NETWORK, 0));
    assert_eq!(client.last_error(), Some("timeout"));
}

#[test]
fn set_presence_rejects_unreadable_game_ids() {
    let mut client = client();
    let session = session_for(&client);
    let over_cap = read_slice(Some(&vec![b'g'; MAX_STRING_BYTES + 1]));
    assert_eq!(
        client.begin_presence(&session, Some(over_cap), Some("in-game")).err(),
        Some(DROPWORKS_ERR_INVALID_ARGUMENT)
    );
    let invalid = read_slice(Some(&[0xffu8, 0xfe]));
    assert_eq!(
        client.begin_presence(&session, Some(invalid), Some("in-game")).err(),
        Some(DROPWORKS_ERR_INVALID_ARGUMENT)
    );
    assert_eq!(client.last_error(), Some("game id is invalid or too long"));
}

#[test]
fn set_presence_keeps_a_null_game_id_optional() {
    let mut client = client();
    let session = session_for(&client);
    let call = client.begin_presence(&session, None, Some("in-game")).unwrap();
    assert!(call.body.contains("\"status\":\"in-game\""));
    assert!(!call.body.contains("gameId"));
    assert_eq!(call.url, "https://drop.example.com/api/v1/dropworks/presence");
    assert_eq!(call.bearer.as_deref(), Some("token"));

    let call = client.begin_presence(&session, Some(Some("g-1".to_string())), Some("in-game")).unwrap();
    assert_eq!(call.body, r#"{"appId":"app","gameId":"g-1","status":"in-game","userId":"user"}"#);
    assert_eq!(presence_body_text("a", "u", "s", None), r#"{"appId":"a","status":"s","userId":"u"}"#);

    assert_eq!(client.finish_presence(Ok(200)), DROPWORKS_OK);
    assert_eq!(client.finish_presence(Ok(401)), DROPWORKS_ERR_UNAUTHORIZED);
    assert_eq!(client.last_error(), Some("presence update failed with HTTP 401"));
    assert_eq!(client.finish_presence(Err("down".to_string())), DROPWORKS_ERR_NETWORK);
}

#[test]
fn submit_score_maps_improved_tri_state_through_the_c_abi() {
    let cases: [(&str, i32); 3] = [
        (r#"{"improved":true}"#, 1),
        (r#"{"improved":false}"#, 0),
        ("{}", DROPWORKS_BOOL_UNKNOWN),
    ];
    for (payload, expected) in cases {
        let mut client = client();
        let session = session_for(&client);
        let call = client.begin_score(&session, Some("high-score"), true, "1.0").unwrap();
        assert_eq!(call.url, "https://drop.example.com/api/v1/dropworks/leaderboard");
        assert_eq!(call.body, r#"{"appId":"app","key":"high-score","score":1.0,"userId":"user"}"#);
        assert_eq!(client.finish_score(Ok((200, payload.to_string()))), (DROPWORKS_OK, expected), "payload {payload}");
    }
}

#[test]
fn submit_score_reports_failures() {
    let mut client = client();
    assert_eq!(client.finish_score(Ok((200, "garbage".to_string()))), (DROPWORKS_OK, DROPWORKS_BOOL_UNKNOWN));
    assert_eq!(client.finish_score(Ok((200, r#"{"improved":"yes"}"#.to_string()))), (DROPWORKS_OK, DROPWORKS_BOOL_UNKNOWN));
    assert_eq!(client.finish_score(Ok((502, String::new()))), (DROPWORKS_ERR_SERVER, 0));
    assert_eq!(client.last_error(), Some("score submission failed with HTTP 502"));
    assert_eq!(client.finish_score(Err("reset".to_string())), (DROPWORKS_ERR_NETWORK, DROPWORKS_BOOL_UNKNOWN));
    assert_eq!(improved_flag(Some(true)), 1);
    assert_eq!(improved_flag(Some(false)), 0);
    assert_eq!(improved_flag(None), DROPWORKS_BOOL_UNKNOWN);
}

#[test]
fn signed_in_sessions_serve_their_client() {
    let mut client = client();
    let session = client.finish_sign_in("app", "tok", Ok((200, r#"{"userId":"u-9"}"#.to_string()))).unwrap();
    assert!(client.session_matches(&session));
    let call = client.begin_unlock(&session, Some("a-1")).unwrap();
    assert_eq!(call.bearer.as_deref(), Some("tok"));
    assert_eq!(call.body, r#"{"achievementId":"a-1","appId":"app","userId":"u-9"}"#);
    assert_eq!(client.last_error(), None);
    let other = AbiClient::new(8, "https://drop.example.com".to_string());
    assert!(!other.session_matches(&session));
}

#[test]
fn every_status_code_has_its_own_name() {
    let names: Vec<&str> = (0..8).map(status_string).collect();
    for (i, a) in names.iter().enumerate() {
        for (j, b) in names.iter().enumerate() {
            assert_eq!(i == j, a == b);
        }
        assert_ne!(*a, status_string(99));
    }
}

#[test]
fn sessions_are_refused_by_other_clients() {
    let mut first = client();
    let mut second = AbiClient::new(8, "https://drop.example.com".to_string());
    let session = first.finish_sign_in("app", "tok", Ok((200, r#"{"userId":"u"}"#.to_string()))).unwrap();
    assert_eq!(second.begin_unlock(&session, Some("ach")).err(), Some(DROPWORKS_ERR_INVALID_ARGUMENT));
    assert_eq!(second.last_error(), Some("session does not belong to this client"));
    assert_eq!(first.last_error(), None);
}

#[test]
fn white_space_follows_the_unicode_property() {
    assert_eq!(client_settings(Some("\u{85}\u{a0}\u{1680}\u{2000}\u{200a}\u{2028}\u{2029}\u{202f}\u{205f}".to_string()), 0), Err(DROPWORKS_ERR_INVALID_ARGUMENT));
    assert!(client_settings(Some("\u{200b}".to_string()), 0).is_ok());
    assert!(client_settings(Some("\u{180e}".to_string()), 0).is_ok());
}

#[test]
fn refused_statuses_are_recorded_with_their_code() {
    let mut client = client();
    assert_eq!(client.finish_presence(Ok(0)), DROPWORKS_ERR_SERVER);
    assert_eq!(client.last_error(), Some("presence update failed with HTTP 0"));
    assert_eq!(client.finish_unlock(Ok(65535)), (DROPWORKS_ERR_SERVER, 0));
    assert_eq!(client.last_error(), Some("unlock failed with HTTP 65535"));
}
