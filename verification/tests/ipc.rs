use std::time::Duration;
use tamandua_ctl::ipc::{
    answer_challenge, challenge_reply, decode_frame, default_socket_path, default_token_path,
    encode_frame, frame_body_len, profile_change_reply, retry_delay_ms, status_reply,
    success_reply, token_hash, token_read_message, AgentState, AgentStatus, AlertSeverity,
    AuthChallenge, AuthError, ChallengeResponse, F32Bits, FrameError, HealthState, IpcClient,
    IpcError, IpcMessage, PerformanceProfile, Platform, PressureLevel, TokenReadFailure,
    MAX_MESSAGE_SIZE,
};

fn challenge() -> AuthChallenge {
    AuthChallenge { nonce: "abc123".to_owned(), timestamp: 1700000000 }
}

fn status() -> AgentStatus {
    AgentStatus {
        agent_id: "agent-1".to_owned(),
        version: "1.2.3".to_owned(),
        state: AgentState::Running,
        backend_connected: true,
        last_heartbeat: None,
        collectors_running: vec!["process".to_owned(), "network".to_owned()],
        protection_enabled: true,
        scan_in_progress: false,
        cpu_usage: F32Bits(0),
        memory_usage: 3 * 1024 * 1024,
        uptime_seconds: 90,
    }
}

#[test]
fn challenge_response_signs_nonce_and_timestamp() {
    let r = ChallengeResponse::create(&challenge(), "secret");
    assert_eq!(r.nonce, "abc123");
    assert_eq!(r.timestamp, 1700000000);
    assert_eq!(
        r.signature,
        "8522484df2a6f153ab8aa995452571b83038441b67067214e4a931cb4a4f10c4"
    );
}

#[test]
fn challenge_response_depends_on_secret() {
    let a = ChallengeResponse::create(&challenge(), "secret");
    let b = ChallengeResponse::create(&challenge(), "other");
    assert_ne!(a.signature, b.signature);
    assert_eq!(a.signature.len(), 64);
    assert_eq!(b.signature.len(), 64);
}

#[test]
fn token_hash_is_hex_sha256() {
    assert_eq!(
        token_hash("secret"),
        "2bb80d537b1da3e38bd30361aa855686bde0eacd7162fef6a25fe97bf527a25b"
    );
}

#[test]
fn new_client_is_disconnected() {
    let c = IpcClient::new(Duration::from_secs(5));
    assert!(!c.is_connected());
    assert!(!c.is_authenticated());
    assert_eq!(c.timeout(), Duration::from_secs(5));
    assert!(matches!(c.check_connected(), Err(IpcError::NotConnected)));
}

#[test]
fn authentication_follows_authenticated_reply() {
    let mut c = IpcClient::new(Duration::from_secs(5));
    c.mark_connected();
    assert!(c.check_connected().is_ok());
    assert!(matches!(
        c.profile_request(PerformanceProfile::Balanced),
        Err(IpcError::AuthenticationRequired)
    ));
    let refused = c.finish_authentication(IpcMessage::Error {
        message: "bad token".to_owned(),
        code: Some("AUTH_FAILED".to_owned()),
    });
    assert!(matches!(refused, Err(AuthError::Rejected { ref message, .. }) if message == "bad token"));
    assert!(!c.is_authenticated());
    assert!(c.finish_authentication(IpcMessage::Authenticated).is_ok());
    assert!(c.is_authenticated());
    assert!(matches!(
        c.profile_request(PerformanceProfile::Lightweight),
        Ok(IpcMessage::SetPerformanceProfile { profile: PerformanceProfile::Lightweight })
    ));
    c.disconnect();
    assert!(!c.is_connected());
    assert!(!c.is_authenticated());
}

#[test]
fn unexpected_authentication_reply_is_reported() {
    let mut c = IpcClient::new(Duration::from_secs(1));
    c.mark_connected();
    assert!(matches!(
        c.finish_authentication(IpcMessage::Success),
        Err(AuthError::Unexpected(IpcMessage::Success))
    ));
    assert!(!c.is_authenticated());
}

#[test]
fn challenge_reply_cases() {
    let ok = challenge_reply(IpcMessage::Challenge(challenge())).unwrap();
    assert_eq!(ok.nonce, "abc123");
    assert!(matches!(
        challenge_reply(IpcMessage::Error { message: "no".to_owned(), code: None }),
        Err(AuthError::ChallengeRefused { .. })
    ));
    assert!(matches!(
        challenge_reply(IpcMessage::Success),
        Err(AuthError::ChallengeUnexpected(IpcMessage::Success))
    ));
}

#[test]
fn answer_challenge_carries_signed_response() {
    match answer_challenge(&challenge(), "secret") {
        IpcMessage::AuthenticateChallenge { response } => {
            assert_eq!(response.nonce, "abc123");
            assert_eq!(
                response.signature,
                "8522484df2a6f153ab8aa995452571b83038441b67067214e4a931cb4a4f10c4"
            );
        }
        other => panic!("unexpected message {other:?}"),
    }
}

#[test]
fn status_reply_cases() {
    let s = status_reply(IpcMessage::StatusUpdate(status())).unwrap();
    assert_eq!(s.agent_id, "agent-1");
    assert!(matches!(
        status_reply(IpcMessage::Error { message: "down".to_owned(), code: None }),
        Err(IpcError::Server(ref m)) if m == "down"
    ));
    assert!(matches!(
        status_reply(IpcMessage::Success),
        Err(IpcError::Unexpected(IpcMessage::Success))
    ));
}

#[test]
fn success_reply_cases() {
    assert!(success_reply(IpcMessage::Success).is_ok());
    assert!(matches!(
        success_reply(IpcMessage::Authenticated),
        Err(IpcError::Unexpected(_))
    ));
}

#[test]
fn profile_change_reply_cases() {
    assert!(profile_change_reply(IpcMessage::Success).is_ok());
    assert!(profile_change_reply(IpcMessage::ProfileChanged {
        old: PerformanceProfile::Balanced,
        new: PerformanceProfile::Aggressive,
        collectors_affected: vec![],
    })
    .is_ok());
    assert!(matches!(
        profile_change_reply(IpcMessage::Error {
            message: "auth".to_owned(),
            code: Some("AUTH_REQUIRED".to_owned())
        }),
        Err(IpcError::AuthRequiredByServer)
    ));
    assert!(matches!(
        profile_change_reply(IpcMessage::Error { message: "busy".to_owned(), code: None }),
        Err(IpcError::Server(ref m)) if m == "busy"
    ));
}

#[test]
fn retry_delays_double_up_to_five_retries() {
    assert_eq!(retry_delay_ms(0), Some(100));
    assert_eq!(retry_delay_ms(1), Some(200));
    assert_eq!(retry_delay_ms(2), Some(400));
    assert_eq!(retry_delay_ms(3), Some(800));
    assert_eq!(retry_delay_ms(4), Some(1600));
    assert_eq!(retry_delay_ms(5), None);
    assert_eq!(retry_delay_ms(u32::MAX), None);
}

#[test]
fn frame_round_trip() {
    let body = b"hello agent".to_vec();
    let mut framed = encode_frame(&body).unwrap();
    assert_eq!(&framed[..4], &[0, 0, 0, 11]);
    framed.extend_from_slice(b"next");
    let (decoded, used) = decode_frame(&framed).unwrap();
    assert_eq!(decoded, body);
    assert_eq!(used, 15);
}

#[test]
fn frame_errors() {
    assert_eq!(decode_frame(&[0, 0]), Err(FrameError::Truncated));
    assert_eq!(decode_frame(&[0, 0, 0, 5, 1, 2]), Err(FrameError::Truncated));
    assert_eq!(
        frame_body_len(&[0x01, 0x00, 0x00, 0x01]),
        Err(FrameError::TooLarge(16777217))
    );
    assert_eq!(frame_body_len(&[0x01, 0x00, 0x00, 0x00]), Ok(MAX_MESSAGE_SIZE));
    let big = vec![0u8; MAX_MESSAGE_SIZE + 1];
    assert_eq!(
        encode_frame(&big),
        Err(FrameError::TooLarge(MAX_MESSAGE_SIZE as u64 + 1))
    );
}

#[test]
fn platform_paths() {
    assert_eq!(default_socket_path(Platform::Linux), "/var/run/tamandua/agent.sock");
    assert_eq!(
        default_socket_path(Platform::MacOs),
        "/Library/Application Support/Tamandua/agent.sock"
    );
    assert_eq!(default_socket_path(Platform::Windows), r"\\.\pipe\tamandua-agent");
    assert_eq!(default_token_path(Platform::Linux), "/var/lib/tamandua/ipc_token.json");
    assert_eq!(
        default_token_path(Platform::Windows),
        r"C:\ProgramData\Tamandua\ipc_token.json"
    );
}

#[test]
fn token_read_messages() {
    assert_eq!(
        token_read_message(TokenReadFailure::NotFound, "/t.json", "", Platform::Linux),
        "Token file not found at /t.json. Is the Tamandua Agent service installed and running?"
    );
    assert_eq!(
        token_read_message(TokenReadFailure::PermissionDenied, "/t.json", "", Platform::Linux),
        "Permission denied reading token file: /t.json. The CLI must run with elevated privileges (sudo) to authenticate with the Agent service."
    );
    assert_eq!(
        token_read_message(TokenReadFailure::PermissionDenied, "C:\\t.json", "", Platform::Windows),
        "Permission denied reading token file: C:\\t.json. The CLI must 'Run as Administrator' to authenticate with the Agent service."
    );
    assert_eq!(
        token_read_message(TokenReadFailure::Other, "/t.json", "disk error", Platform::Linux),
        "Failed to read token file /t.json: disk error"
    );
}

#[test]
fn enum_names() {
    assert_eq!(PressureLevel::Unloaded.to_string(), "none");
    assert_eq!(PressureLevel::Critical.to_string(), "critical");
    assert_eq!(HealthState::Degraded.to_string(), "degraded");
    assert_eq!(PerformanceProfile::Lightweight.to_string(), "lightweight");
    assert_eq!(AlertSeverity::High.to_string(), "high");
    assert!(AlertSeverity::Critical.at_least(&AlertSeverity::Info));
    assert!(!AlertSeverity::Low.at_least(&AlertSeverity::Medium));
}
