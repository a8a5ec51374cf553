use dropworks::client::{achievement_body_text, score_body_text, sign_in_body_text};
use dropworks::transport::{request_method, HttpMethod};
use dropworks::{
    server_accepted, sign_in_payload, trim_trailing_slash, DropworksClient, DropworksError, HttpRequest,
    HttpResponse, TransportError, API_BASE_PATH, DROPWORKS_API_VERSION,
};

fn response(status: u16, body: &str) -> Result<HttpResponse, TransportError> {
    Ok(HttpResponse { status, body: body.to_string() })
}

/// The user id of a sign-in payload, parsed the way the async client does.
fn user_id_of(payload: &str) -> Result<String, String> {
    match serde_json::from_str::<serde_json::Value>(payload) {
        Ok(value) => match value.get("userId").and_then(|v| v.as_str()) {
            Some(user_id) => Ok(user_id.to_string()),
            None => Err("missing field `userId`".to_string()),
        },
        Err(error) => Err(error.to_string()),
    }
}

fn signed_in(base_url: &str, app_id: &str, auth_token: &str, user_id: &str) -> DropworksClient<()> {
    let mut client = DropworksClient::new((), base_url);
    client.sign_in_request(app_id, auth_token).unwrap();
    client.complete_sign_in(app_id, auth_token, Ok(user_id.to_string())).unwrap();
    client
}

#[test]
fn sign_in_stores_the_session_and_posts_the_contract_body() {
    let mut client = DropworksClient::new((), "https://drop.example.com/");

    let request = client.sign_in_request("app-1", "token-1").unwrap();
    let payload = sign_in_payload(response(200, r#"{"userId":"user-1"}"#)).unwrap();
    let session = client.complete_sign_in("app-1", "token-1", user_id_of(&payload)).unwrap();
    assert_eq!(session.app_id, "app-1");
    assert_eq!(session.user_id, "user-1");
    assert_eq!(client.current_session().map(|s| s.user_id.as_str()), Some("user-1"));

    assert_eq!(request.url, "https://drop.example.com/api/v1/dropworks/session");
    assert!(request.body.as_deref().unwrap().contains(r#""appId":"app-1""#));
}

#[test]
fn unlock_achievement_requires_sign_in_and_reports_server_status() {
    let mut client = DropworksClient::new((), "https://drop.example.com");

    let error = client.unlock_achievement_request("ach-1").unwrap_err();
    assert!(matches!(error, DropworksError::NotSignedIn));

    client.sign_in_request("app", "token").unwrap();
    let payload = sign_in_payload(response(200, r#"{"userId":"user-1"}"#)).unwrap();
    client.complete_sign_in("app", "token", user_id_of(&payload)).unwrap();
    let request = client.unlock_achievement_request("ach-1").unwrap();
    let unlocked = server_accepted(response(200, "{}")).unwrap();
    assert!(unlocked);

    let unlock_body = request.body.as_deref().unwrap();
    assert!(unlock_body.contains(r#""achievementId":"ach-1""#));
    assert!(unlock_body.contains(r#""userId":"user-1""#));
}

#[test]
fn sign_in_maps_http_failures_and_invalid_payloads() {
    let mut client = DropworksClient::new((), "https://drop.example.com");

    client.sign_in_request("app", "token").unwrap();
    let error = sign_in_payload(response(401, "unauthorized")).unwrap_err();
    assert!(matches!(error, DropworksError::Http { status: 401, .. }));

    client.sign_in_request("app", "token").unwrap();
    let payload = sign_in_payload(response(200, r#"{"missing":"userId"}"#)).unwrap();
    let error = client.complete_sign_in("app", "token", user_id_of(&payload)).unwrap_err();
    assert!(matches!(error, DropworksError::InvalidResponse(_)));
    assert!(client.current_session().is_none());
}

#[test]
fn submit_score_requires_sign_in_and_posts_the_contract_body() {
    let mut client = DropworksClient::new((), "https://drop.example.com");

    let one = serde_json::to_string(&1.0f64).unwrap();
    let error = client.submit_score_request("high", 1.0f64.is_finite(), &one).unwrap_err();
    assert!(matches!(error, DropworksError::NotSignedIn));

    client.sign_in_request("app", "token").unwrap();
    let payload = sign_in_payload(response(200, r#"{"userId":"user-1"}"#)).unwrap();
    client.complete_sign_in("app", "token", user_id_of(&payload)).unwrap();
    let score = serde_json::to_string(&42.0f64).unwrap();
    let request = client.submit_score_request("high", 42.0f64.is_finite(), &score).unwrap();
    assert!(server_accepted(response(200, "{}")).unwrap());

    let body = request.body.as_deref().unwrap();
    assert!(body.contains(r#""key":"high""#));
    assert!(body.contains(r#""score":42.0"#));
}

#[test]
fn constants_name_the_contract() {
    assert_eq!(DROPWORKS_API_VERSION, 1);
    assert_eq!(API_BASE_PATH, "/api/v1/dropworks");
}

#[test]
fn new_drops_every_trailing_slash() {
    let client = DropworksClient::new(7u8, "https://drop.example.com///");
    assert_eq!(client.base_url(), "https://drop.example.com");
    assert_eq!(*client.transport(), 7u8);
    assert!(client.current_session().is_none());
    assert_eq!(DropworksClient::new((), "/").base_url(), "");
    assert_eq!(DropworksClient::new((), "").base_url(), "");
    assert_eq!(DropworksClient::new((), "a/b/").base_url(), "a/b");
}

#[test]
fn trimming_twice_is_trimming_once() {
    let once = trim_trailing_slash("https://drop.example.com//".to_string());
    assert_eq!(once, "https://drop.example.com");
    assert_eq!(trim_trailing_slash(once.clone()), once);
    assert_eq!(trim_trailing_slash("x/y".to_string()), "x/y");
}

#[test]
fn sign_in_rejects_empty_credentials() {
    let client = DropworksClient::new((), "https://drop.example.com");
    for (app_id, auth_token) in [("", "token"), ("app", ""), ("", "")] {
        match client.sign_in_request(app_id, auth_token) {
            Err(DropworksError::InvalidArgument(message)) => {
                assert_eq!(message, "app id and auth token are required")
            }
            other => panic!("unexpected {other:?}"),
        }
    }
}

#[test]
fn sign_in_request_is_an_exact_json_post() {
    let client = DropworksClient::new((), "https://drop.example.com/");
    let request = client.sign_in_request("app-1", "token-1").unwrap();
    assert_eq!(request.method, "POST");
    assert_eq!(request.body.as_deref(), Some(r#"{"appId":"app-1","authToken":"token-1"}"#));
    assert_eq!(
        request.headers,
        vec![("content-type".to_string(), "application/json".to_string())]
    );
}

#[test]
fn transport_failures_become_transport_errors() {
    let error = sign_in_payload(Err(TransportError("no route".to_string()))).unwrap_err();
    assert!(matches!(&error, DropworksError::Transport(TransportError(m)) if m == "no route"));
    let error = server_accepted(Err(TransportError("reset".to_string()))).unwrap_err();
    assert!(matches!(error, DropworksError::Transport(_)));
    let converted = DropworksError::from(TransportError("x".to_string()));
    assert!(matches!(converted, DropworksError::Transport(TransportError(m)) if m == "x"));
}

#[test]
fn refused_status_keeps_the_body() {
    match sign_in_payload(response(503, "maintenance")) {
        Err(DropworksError::Http { status, body }) => {
            assert_eq!(status, 503);
            assert_eq!(body, "maintenance");
        }
        other => panic!("unexpected {other:?}"),
    }
    assert_eq!(sign_in_payload(response(299, "b")).unwrap(), "b");
    assert!(sign_in_payload(response(300, "b")).is_err());
    assert!(sign_in_payload(response(199, "b")).is_err());
}

#[test]
fn acceptance_follows_the_success_range() {
    assert!(server_accepted(response(200, "")).unwrap());
    assert!(server_accepted(response(204, "")).unwrap());
    assert!(!server_accepted(response(300, "")).unwrap());
    assert!(!server_accepted(response(404, "")).unwrap());
    assert!(!server_accepted(response(199, "")).unwrap());
}

#[test]
fn failed_sign_in_keeps_the_previous_session() {
    let mut client = signed_in("https://d", "app", "token", "user-1");
    let error = client.complete_sign_in("app2", "token2", Err("bad".to_string())).unwrap_err();
    assert!(matches!(error, DropworksError::InvalidResponse(m) if m == "bad"));
    let session = client.current_session().unwrap();
    assert_eq!(session.user_id, "user-1");
    assert_eq!(session.auth_token, "token");
}

#[test]
fn unlock_request_carries_the_bearer_token() {
    let client = signed_in("https://drop.example.com/", "app", "secret", "u");
    let request = client.unlock_achievement_request("ach").unwrap();
    assert_eq!(request.url, "https://drop.example.com/api/v1/dropworks/achievement");
    assert_eq!(
        request.body.as_deref(),
        Some(r#"{"achievementId":"ach","appId":"app","userId":"u"}"#)
    );
    assert_eq!(
        request.headers,
        vec![
            ("content-type".to_string(), "application/json".to_string()),
            ("authorization".to_string(), "Bearer secret".to_string()),
        ]
    );
}

#[test]
fn score_request_checks_key_then_finiteness_then_session() {
    let client = DropworksClient::new((), "https://d");
    match client.submit_score_request("", false, "null") {
        Err(DropworksError::InvalidArgument(m)) => assert_eq!(m, "leaderboard key is required"),
        other => panic!("unexpected {other:?}"),
    }
    let nan = serde_json::to_string(&f64::NAN).unwrap();
    match client.submit_score_request("high", f64::NAN.is_finite(), &nan) {
        Err(DropworksError::InvalidArgument(m)) => assert_eq!(m, "score must be finite"),
        other => panic!("unexpected {other:?}"),
    }
    let signed = signed_in("https://d", "app", "tok", "u");
    let request = signed.submit_score_request("high", true, "42.5").unwrap();
    assert_eq!(request.url, "https://d/api/v1/dropworks/leaderboard");
    assert_eq!(
        request.body.as_deref(),
        Some(r#"{"appId":"app","key":"high","score":42.5,"userId":"u"}"#)
    );
    assert_eq!(request.headers[1], ("authorization".to_string(), "Bearer tok".to_string()));
}

#[test]
fn bodies_escape_their_strings() {
    assert_eq!(
        sign_in_body_text("a\"b", "c\\d\n"),
        r#"{"appId":"a\"b","authToken":"c\\d\n"}"#
    );
    assert_eq!(
        achievement_body_text("a", "u", "x\u{1}"),
        r#"{"achievementId":"x\u0001","appId":"a","userId":"u"}"#
    );
    assert_eq!(
        score_body_text("a", "u", "k", "1.0"),
        r#"{"appId":"a","key":"k","score":1.0,"userId":"u"}"#
    );
}

#[test]
fn post_sets_the_json_content_type() {
    let request = HttpRequest::post("u".to_string(), "b".to_string());
    assert_eq!(request.method, "POST");
    assert_eq!(request.url, "u");
    assert_eq!(request.body.as_deref(), Some("b"));
    assert_eq!(
        request.headers,
        vec![("content-type".to_string(), "application/json".to_string())]
    );
}

#[test]
fn errors_render_their_messages() {
    assert_eq!(
        DropworksError::Transport(TransportError("down".to_string())).to_string(),
        "dropworks transport error: down"
    );
    assert_eq!(
        DropworksError::InvalidArgument("x".to_string()).to_string(),
        "dropworks argument was invalid: x"
    );
    assert_eq!(
        DropworksError::InvalidResponse("y".to_string()).to_string(),
        "dropworks response was invalid: y"
    );
    assert_eq!(DropworksError::NotSignedIn.to_string(), "dropworks client is not signed in");
    assert_eq!(
        DropworksError::Http { status: 401, body: "no".to_string() }.to_string(),
        "dropworks request failed with HTTP 401: no"
    );
    assert_eq!(
        DropworksError::Http { status: 0, body: String::new() }.to_string(),
        "dropworks request failed with HTTP 0: "
    );
    assert_eq!(TransportError("t".to_string()).to_string(), "dropworks transport error: t");
}

#[test]
fn transports_support_get_and_post_only() {
    assert_eq!(request_method("GET").unwrap(), HttpMethod::Get);
    assert_eq!(request_method("POST").unwrap(), HttpMethod::Post);
    let error = request_method("PUT").unwrap_err();
    assert_eq!(error.0, "unsupported HTTP method 'PUT'");
    assert!(request_method("post").is_err());
    assert!(request_method("").is_err());
}

#[test]
fn appended_slashes_give_the_same_client() {
    let plain = DropworksClient::new((), "https://host");
    let one = DropworksClient::new((), "https://host/");
    let two = DropworksClient::new((), "https://host//");
    assert_eq!(plain.base_url(), one.base_url());
    assert_eq!(one.base_url(), two.base_url());
}

#[test]
fn current_session_is_the_latest_successful_sign_in() {
    let mut client = DropworksClient::new((), "https://d/");
    assert!(client.current_session().is_none());
    client.complete_sign_in("app", "t1", Err("bad".to_string())).unwrap_err();
    assert!(client.current_session().is_none());
    client.complete_sign_in("app", "t1", Ok("u1".to_string())).unwrap();
    client.unlock_achievement_request("a").unwrap();
    client.submit_score_request("k", true, "1.0").unwrap();
    client.complete_sign_in("app", "t2", Err("bad".to_string())).unwrap_err();
    assert_eq!(client.current_session().unwrap().user_id, "u1");
    client.complete_sign_in("app2", "t3", Ok("u3".to_string())).unwrap();
    let session = client.current_session().unwrap();
    assert_eq!((session.app_id.as_str(), session.user_id.as_str(), session.auth_token.as_str()), ("app2", "u3", "t3"));
    assert_eq!(client.base_url(), "https://d");
}

#[test]
fn strings_are_escaped_as_serde_json_does() {
    assert_eq!(
        sign_in_body_text("\u{8}\u{c}\t\r", "\u{1f}\u{7f}é/"),
        "{\"appId\":\"\\b\\f\\t\\r\",\"authToken\":\"\\u001f\u{7f}é/\"}"
    );
    assert_eq!(sign_in_body_text("", "\u{0}"), r#"{"appId":"","authToken":"\u0000"}"#);
}

#[test]
fn http_errors_render_any_status() {
    assert_eq!(
        DropworksError::Http { status: 65535, body: "b".to_string() }.to_string(),
        "dropworks request failed with HTTP 65535: b"
    );
    assert_eq!(
        DropworksError::Http { status: 10, body: String::new() }.to_string(),
        "dropworks request failed with HTTP 10: "
    );
}
