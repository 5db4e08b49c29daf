use tamandua_ctl::cli::Severity;
use tamandua_ctl::json::{string_field, string_field_nested, value_to_string, JsonNumber, JsonValue};
use tamandua_ctl::remote::{
    agent_row, agents_query, alerts_query, api_reply, api_url, classify_token_poll,
    close_session_body, created_session_id, dashboard_socket_url, device_auth_url,
    device_start_body, extract_upload_sha256, judge_upload, listing_total, login_server,
    poll_interval_secs, remote_alert_row, remote_session, shell_target, truncate,
    upload_execute_body, upload_failure, upload_sha256_field, upload_http_timeout_secs, upload_session_body,
    ApiFailure, Integrity, PollVerdict, RemoteConfig, UploadStatus,
};

fn s(text: &str) -> JsonValue {
    JsonValue::Str(text.to_owned())
}

fn obj(members: Vec<(&str, JsonValue)>) -> JsonValue {
    JsonValue::Object(members.into_iter().map(|(k, v)| (k.to_owned(), v)).collect())
}

fn num(n: u64) -> JsonValue {
    JsonValue::Number(JsonNumber::PosInt(n))
}

fn upload_result(output: JsonValue) -> JsonValue {
    obj(vec![(
        "data",
        obj(vec![("status", s("success")), ("exit_code", num(0)), ("output", output)]),
    )])
}

#[test]
fn socket_urls_follow_scheme() {
    assert_eq!(
        dashboard_socket_url("https://srv.example/", "tok"),
        "wss://srv.example/socket/dashboard/websocket?token=tok&vsn=2.0.0"
    );
    assert_eq!(
        dashboard_socket_url("http://localhost:4000", "t"),
        "ws://localhost:4000/socket/dashboard/websocket?token=t&vsn=2.0.0"
    );
    assert_eq!(
        dashboard_socket_url("srv.example", "t"),
        "wss://srv.example/socket/dashboard/websocket?token=t&vsn=2.0.0"
    );
}

#[test]
fn sessions_take_arguments_before_saved_login() {
    let saved = RemoteConfig {
        server: Some("https://saved.example//".to_owned()),
        token: Some("saved-token".to_owned()),
        expires_at: None,
    };
    let session = remote_session(None, Some("arg-token".to_owned()), saved).unwrap();
    assert_eq!(session.server, "https://saved.example");
    assert_eq!(session.token, "arg-token");
    let empty = RemoteConfig::default();
    let err = remote_session(Some("https://a".to_owned()), None, empty).unwrap_err();
    assert_eq!(err, "missing token; pass --token or run tamandua-ctl remote login");
    let (server, token) = shell_target(None, Some("t".to_owned()), RemoteConfig::default()).unwrap();
    assert_eq!(server, "https://tamandua.treantlab.org");
    assert_eq!(token, "t");
    assert_eq!(login_server(Some("https://x.org/".to_owned())), "https://x.org");
    assert_eq!(login_server(None), "https://tamandua.treantlab.org");
}

#[test]
fn device_login_requests() {
    assert_eq!(device_auth_url("https://x.org//", "device"), "https://x.org/api/v1/cli-auth/device");
    assert_eq!(api_url("https://x.org", "agents"), "https://x.org/api/v1/agents");
    assert_eq!(poll_interval_secs(0), 1);
    assert_eq!(poll_interval_secs(5), 5);
    match device_start_body() {
        JsonValue::Object(m) => {
            assert_eq!(m[0].0, "client_name");
            assert_eq!(m[1].0, "scopes");
        }
        other => panic!("{other:?}"),
    }
}

#[test]
fn token_polls_are_classified() {
    assert_eq!(classify_token_poll(Some("authorization_pending".to_owned()), "x"), PollVerdict::Pending);
    assert_eq!(classify_token_poll(None, "expired_token"), PollVerdict::Expired);
    assert_eq!(classify_token_poll(Some("already_consumed".to_owned()), ""), PollVerdict::AlreadyConsumed);
    assert_eq!(classify_token_poll(Some("invalid_device_code".to_owned()), ""), PollVerdict::InvalidCode);
    assert_eq!(classify_token_poll(None, "boom"), PollVerdict::Failed);
}

#[test]
fn agent_and_alert_rows() {
    let agent = obj(vec![
        ("id", s("a1")),
        ("hostname", s("a-very-long-hostname-that-exceeds-the-column")),
        ("os_type", s("linux")),
        ("os_version", s("6.1")),
        ("status", s("online")),
        ("health_status", obj(vec![("status", s("healthy"))])),
    ]);
    let row = agent_row(&agent);
    assert_eq!(row.id, "a1");
    assert_eq!(row.hostname, "a-very-long-hostname-that-exc...");
    assert_eq!(row.hostname.chars().count(), 32);
    assert_eq!(row.os, "linux 6.1");
    assert_eq!(row.health, "healthy");
    assert_eq!(row.last_seen, "-");
    let alert = obj(vec![("id", s("x")), ("severity", s("high")), ("created_at", num(5))]);
    let row = remote_alert_row(&alert);
    assert_eq!(row.time, "5");
    assert_eq!(row.title, "untitled");
    assert_eq!(row.status, "-");
}

#[test]
fn listing_queries_and_totals() {
    let q = alerts_query(500, &Some("a1".to_owned()), Some(Severity::Critical), &Some(String::new()));
    let q: Vec<(&str, &str)> = q.iter().map(|(k, v)| (k.as_str(), v.as_str())).collect();
    assert_eq!(q, vec![("per_page", "200"), ("agent_id", "a1"), ("severity", "critical")]);
    assert!(agents_query(&None).is_empty());
    assert_eq!(agents_query(&Some("online".to_owned()))[0].1, "online");
    let body = obj(vec![("meta", obj(vec![("total", num(77))]))]);
    assert_eq!(listing_total(&body, 3), Some(77));
    assert_eq!(listing_total(&obj(vec![("meta", obj(vec![]))]), 3), Some(3));
    assert_eq!(listing_total(&obj(vec![]), 3), None);
}

#[test]
fn api_replies() {
    assert_eq!(api_reply(false, "{}").unwrap_err(), ApiFailure::Status);
    assert_eq!(api_reply(true, "{nope").unwrap_err(), ApiFailure::InvalidJson);
    let v = api_reply(true, r#"{"data":{"session_id":"S9"}}"#).unwrap();
    assert_eq!(created_session_id(&v).as_deref(), Some("S9"));
    let v = api_reply(true, r#"{"data":{"id":"S8"}}"#).unwrap();
    assert_eq!(created_session_id(&v).as_deref(), Some("S8"));
}

#[test]
fn upload_requests() {
    match upload_session_body("agent-7") {
        JsonValue::Object(m) => {
            assert!(matches!(&m[0].1, JsonValue::Str(a) if a == "agent-7"));
            assert!(matches!(&m[1].1, JsonValue::Str(n) if n == "tamandua-ctl remote upload"));
        }
        other => panic!("{other:?}"),
    }
    match upload_execute_body("C:\\t.txt", b"hello", 30) {
        JsonValue::Object(m) => {
            assert!(matches!(&m[0].1, JsonValue::Str(c) if c == "upload_file"));
            match &m[1].1 {
                JsonValue::Object(a) => {
                    assert!(matches!(&a[0].1, JsonValue::Str(p) if p == "C:\\t.txt"));
                    assert!(matches!(&a[1].1, JsonValue::Str(b) if b == "aGVsbG8="));
                }
                other => panic!("{other:?}"),
            }
            assert!(matches!(&m[2].1, JsonValue::Number(JsonNumber::PosInt(30000))));
        }
        other => panic!("{other:?}"),
    }
    match upload_execute_body("p", b"", u64::MAX) {
        JsonValue::Object(m) => assert!(matches!(&m[2].1, JsonValue::Number(JsonNumber::PosInt(u64::MAX)))),
        other => panic!("{other:?}"),
    }
    assert!(matches!(close_session_body(), JsonValue::Object(m) if m[0].0 == "reason"));
    assert_eq!(upload_http_timeout_secs(10), 60);
    assert_eq!(upload_http_timeout_secs(100), 130);
}

#[test]
fn upload_verdicts() {
    let good = upload_result(obj(vec![("sha256", s("ABC123")), ("size", num(3))]));
    let v = judge_upload("abc123", &good);
    assert_eq!(v.integrity, Integrity::Matched);
    assert_eq!(v.status, UploadStatus::Uploaded);
    assert!(upload_failure(&v).is_none());
    let v = judge_upload("ffff", &good);
    assert_eq!(v.integrity, Integrity::Mismatch);
    assert_eq!(v.status, UploadStatus::IntegrityMismatch);
    assert_eq!(upload_failure(&v).as_deref(), Some("remote upload SHA256 mismatch"));
    let quiet = upload_result(obj(vec![("size", num(3))]));
    let v = judge_upload("abc", &quiet);
    assert_eq!(v.integrity, Integrity::NotReported);
    assert_eq!(Integrity::NotReported.name(), "not_reported");
    let failed = upload_result(obj(vec![("success", JsonValue::Bool(false)), ("error_message", s("disk full"))]));
    let v = judge_upload("abc", &failed);
    assert_eq!(v.status, UploadStatus::Failed);
    assert!(upload_failure(&v).unwrap().starts_with("remote upload failed: "));
    assert_eq!(extract_upload_sha256(&good).as_deref(), Some("ABC123"));
}

#[test]
fn upload_sha256_from_output_fields() {
    assert_eq!(upload_sha256_field(&obj(vec![("sha256", s("aa"))])).as_deref(), Some("aa"));
    assert_eq!(upload_sha256_field(&obj(vec![("sha256_hash", s("bb"))])).as_deref(), Some("bb"));
    assert_eq!(upload_sha256_field(&obj(vec![("size", num(1))])), None);
    let nested = obj(vec![("data", obj(vec![("output", s(r#"{"sha256_hash":"cc"}"#))]))]);
    assert_eq!(extract_upload_sha256(&nested).as_deref(), Some("cc"));
    let broken = obj(vec![("data", obj(vec![("output", s("not json"))]))]);
    assert_eq!(extract_upload_sha256(&broken), None);
}

#[test]
fn json_fields_as_text() {
    let v = obj(vec![("a", s("")), ("b", num(4)), ("c", JsonValue::Bool(true)), ("d", obj(vec![("e", s("deep"))]))]);
    assert_eq!(string_field(&v, "a", "dflt"), "dflt");
    assert_eq!(string_field(&v, "b", "dflt"), "4");
    assert_eq!(string_field(&v, "c", "dflt"), "true");
    assert_eq!(string_field(&v, "zz", "dflt"), "dflt");
    assert_eq!(string_field_nested(&v, &["d", "e"], "x"), "deep");
    assert_eq!(string_field_nested(&v, &["d", "q"], "x"), "x");
    assert_eq!(value_to_string(&JsonValue::Number(JsonNumber::NegInt(-3))).as_deref(), Some("-3"));
    assert_eq!(value_to_string(&JsonValue::Null), None);
}

#[test]
fn cell_truncation_counts_characters() {
    assert_eq!(truncate("héllo", 5), "héllo");
    assert_eq!(truncate("héllo wörld", 8), "héllo...");
    assert_eq!(truncate("abcdef", 2), "...");
}
