use tamandua_ctl::commands::alerts;
use tamandua_ctl::commands::config::ConfigSetError;
use tamandua_ctl::commands::events;
use tamandua_ctl::ipc::{IpcError, IpcMessage};
use tamandua_ctl::remote::{device_login_expired, poll_failure_message, PollVerdict};

#[test]
fn config_set_refusals_name_the_value_or_key() {
    assert_eq!(
        ConfigSetError::InvalidBool.message("protection", "maybe"),
        "Invalid boolean value: 'maybe'. Use true/false, yes/no, or on/off."
    );
    assert_eq!(ConfigSetError::InvalidNumber.message("scan_interval", "ten"), "Invalid number: ten");
    assert_eq!(
        ConfigSetError::InvalidProfile.message("profile", "turbo"),
        "Invalid profile: turbo. Use aggressive, balanced, or lightweight."
    );
    assert_eq!(
        ConfigSetError::UnknownKey.message("agent_id", "x"),
        "Unknown or read-only configuration key: agent_id. Modifiable keys: protection, cloud_lookup, scan_interval, heartbeat_interval, profile"
    );
}

#[test]
fn ipc_refusals_have_messages() {
    assert_eq!(IpcError::NotConnected.message(""), "Not connected to IPC server");
    assert_eq!(IpcError::Server("boom".to_owned()).message(""), "Server error: boom");
    assert_eq!(IpcError::Unexpected(IpcMessage::Success).message("Success"), "Unexpected response: Success");
    assert_eq!(
        IpcError::AuthenticationRequired.message(""),
        "Authentication required to change performance profile"
    );
    assert_eq!(IpcError::AuthRequiredByServer.message(""), "Authentication required");
}

#[test]
fn token_poll_stops_with_a_message() {
    assert_eq!(poll_failure_message(PollVerdict::Pending, "400", "x"), None);
    assert_eq!(
        poll_failure_message(PollVerdict::Expired, "", "").as_deref(),
        Some("CLI authorization expired; run tamandua-ctl remote login again")
    );
    assert_eq!(
        poll_failure_message(PollVerdict::AlreadyConsumed, "", "").as_deref(),
        Some("CLI authorization code was already consumed")
    );
    assert_eq!(
        poll_failure_message(PollVerdict::InvalidCode, "", "").as_deref(),
        Some("CLI authorization code is invalid")
    );
    assert_eq!(
        poll_failure_message(PollVerdict::Failed, "500 Internal Server Error", "oops").as_deref(),
        Some("CLI authorization failed: HTTP 500 Internal Server Error oops")
    );
}

#[test]
fn device_code_lifetime_runs_out() {
    assert!(!device_login_expired(599_999, 600));
    assert!(device_login_expired(600_000, 600));
    assert!(device_login_expired(0, 0));
    assert!(!device_login_expired(u64::MAX, u64::MAX));
}

#[test]
fn unreadable_since_values_are_named() {
    assert_eq!(
        events::invalid_since_message("soon"),
        "Invalid time format: 'soon'. Use duration (e.g., '1h', '30m') or date (e.g., '2024-01-01')"
    );
    assert_eq!(alerts::invalid_since_message("soon"), "Invalid time format: 'soon'");
}
