use std::collections::HashMap;
use std::path::PathBuf;
use tamandua_ctl::cli::{
    AlertsListArgs, Cli, Commands, PerformanceProfileArg, Severity, StatusArgs,
};
use tamandua_ctl::commands::alerts::{
    alert_stats, colorize_severity, default_list_args, filter_alerts, find_alert, severity_of,
};
use tamandua_ctl::commands::config::{
    action_reply, config_get_key, config_setting, config_update, config_value,
    get_profile_description, parse_bool, profile_of_arg, reload_reply, ActionError, ConfigGetKey,
    ConfigSetError, ConfigSetting, ConfigValue, ReloadOutcome,
};
use tamandua_ctl::commands::events::{
    level_style, matches_query, search_fetch_limit, search_logs, severity_level,
};
use tamandua_ctl::commands::quarantine::{
    find_entry, removal_step, size_unit, take_entries, RemovalStep, SizeUnit,
};
use tamandua_ctl::commands::response::{block_duration_json, block_duration_phrase};
use tamandua_ctl::commands::scan::cancel_scan_id;
use tamandua_ctl::commands::status::{
    agent_state_label, format_duration, health_label, refresh_notice, status_view,
    whole_kibibytes, whole_mebibytes, yes_no_label, StatusView,
};
use tamandua_ctl::commands::{
    command_route, create_output, log_level, truncate, CommandRoute, LogLevel, TextStyle,
};
use tamandua_ctl::ipc::{
    AgentState, AgentStatus, AlertNotification, AlertSeverity, F32Bits, HealthState, IpcMessage,
    LogEntry, PerformanceProfile, QuarantineEntry,
};
use tamandua_ctl::output::Output;
use tamandua_ctl::time::Timestamp;

fn at(secs: i64) -> Timestamp {
    Timestamp { secs, nanos: 0 }
}

fn alert(id: &str, severity: AlertSeverity, acknowledged: bool) -> AlertNotification {
    AlertNotification {
        id: id.to_owned(),
        timestamp: at(1_700_000_000),
        severity,
        title: format!("alert {id}"),
        description: String::new(),
        threat_name: None,
        process_name: None,
        process_id: None,
        file_path: None,
        mitre_tactics: vec![],
        remediation: None,
        acknowledged,
    }
}

fn sample_alerts() -> Vec<AlertNotification> {
    vec![
        alert("a1", AlertSeverity::Info, false),
        alert("b2", AlertSeverity::High, true),
        alert("c3", AlertSeverity::Critical, false),
        alert("d4", AlertSeverity::Medium, false),
        alert("e5", AlertSeverity::High, false),
    ]
}

fn list_args(severity: Option<Severity>, unacked: bool, all: bool) -> AlertsListArgs {
    AlertsListArgs { limit: 50, since: None, severity, unacked, all }
}

fn log(message: &str, module: Option<&str>) -> LogEntry {
    LogEntry {
        timestamp: at(0),
        level: "info".to_owned(),
        message: message.to_owned(),
        module: module.map(|m| m.to_owned()),
        fields: HashMap::new(),
    }
}

fn entry(id: &str) -> QuarantineEntry {
    QuarantineEntry {
        id: id.to_owned(),
        original_path: PathBuf::from("/tmp/x"),
        quarantined_at: at(0),
        threat_name: "Eicar".to_owned(),
        file_size: 68,
        file_hash: "00".to_owned(),
    }
}

fn status() -> AgentStatus {
    AgentStatus {
        agent_id: "agent-1".to_owned(),
        version: "1.2.3".to_owned(),
        state: AgentState::Running,
        backend_connected: false,
        last_heartbeat: None,
        collectors_running: vec!["process".to_owned(), "network".to_owned()],
        protection_enabled: true,
        scan_in_progress: false,
        cpu_usage: F32Bits(0x3f80_0000),
        memory_usage: 5 * 1024 * 1024 + 17,
        uptime_seconds: 3725,
    }
}

fn ids(v: &[AlertNotification]) -> Vec<&str> {
    v.iter().map(|a| a.id.as_str()).collect()
}

#[test]
fn default_alert_listing_shows_unacknowledged() {
    let args = default_list_args();
    assert_eq!(args.limit, 50);
    assert!(args.unacked && !args.all);
    let listed = filter_alerts(sample_alerts(), &args);
    assert_eq!(ids(&listed), vec!["a1", "c3", "d4", "e5"]);
}

#[test]
fn severity_filter_keeps_at_least_the_level() {
    let listed = filter_alerts(sample_alerts(), &list_args(Some(Severity::High), false, false));
    assert_eq!(ids(&listed), vec!["b2", "c3", "e5"]);
    let listed = filter_alerts(sample_alerts(), &list_args(Some(Severity::High), true, true));
    assert_eq!(ids(&listed), vec!["b2", "c3", "e5"]);
    let listed = filter_alerts(sample_alerts(), &list_args(Some(Severity::High), true, false));
    assert_eq!(ids(&listed), vec!["c3", "e5"]);
    assert_eq!(severity_of(Severity::Low), AlertSeverity::Low);
}

#[test]
fn alert_found_by_prefix() {
    let alerts = vec![alert("abc-1", AlertSeverity::Low, false), alert("abd-2", AlertSeverity::Low, false)];
    assert_eq!(find_alert(&alerts, "abd"), Some(1));
    assert_eq!(find_alert(&alerts, "ab"), Some(0));
    assert_eq!(find_alert(&alerts, "abc-1"), Some(0));
    assert_eq!(find_alert(&alerts, "zz"), None);
}

#[test]
fn alert_statistics_partition_by_severity() {
    let st = alert_stats(&sample_alerts());
    assert_eq!(st.total, 5);
    assert_eq!(st.unacknowledged, 4);
    assert_eq!((st.critical, st.high, st.medium, st.low, st.info), (1, 2, 1, 0, 1));
    assert_eq!(st.critical + st.high + st.medium + st.low + st.info, st.total);
}

#[test]
fn severity_colors() {
    let c = colorize_severity(&AlertSeverity::Critical);
    assert_eq!(c.text, "critical");
    assert_eq!(c.style, TextStyle::RedBold);
    assert_eq!(colorize_severity(&AlertSeverity::Info).style, TextStyle::Plain);
    assert_eq!(colorize_severity(&AlertSeverity::Low).style, TextStyle::Blue);
}

#[test]
fn config_get_keys_and_values() {
    assert_eq!(config_get_key("protection"), Some(ConfigGetKey::Protection));
    assert_eq!(config_get_key("collectors_running"), Some(ConfigGetKey::Collectors));
    assert_eq!(config_get_key("Protection"), None);
    assert_eq!(config_get_key("nope"), None);
    let s = status();
    let text = |k| match config_value(k, &s, PerformanceProfile::Balanced) {
        ConfigValue::Text(t) => t,
        ConfigValue::CpuPercent(_) => panic!("cpu"),
    };
    assert_eq!(text(ConfigGetKey::Collectors), "process, network");
    assert_eq!(text(ConfigGetKey::Memory), "5 MB");
    assert_eq!(text(ConfigGetKey::Uptime), "3725 seconds");
    assert_eq!(text(ConfigGetKey::Backend), "false");
    assert_eq!(text(ConfigGetKey::Protection), "true");
    assert_eq!(text(ConfigGetKey::Profile), "balanced");
    assert!(matches!(
        config_value(ConfigGetKey::Cpu, &s, PerformanceProfile::Balanced),
        ConfigValue::CpuPercent(F32Bits(0x3f80_0000))
    ));
}

#[test]
fn config_set_parses_values() {
    let r = config_setting("SCAN_INTERVAL", "60");
    assert_eq!(r.key, "scan_interval");
    assert_eq!(r.setting, Ok(ConfigSetting::ScanInterval(60)));
    assert_eq!(config_setting("protection", "Off").setting, Ok(ConfigSetting::RealTimeProtection(false)));
    assert_eq!(config_setting("cloud_lookup", "YES").setting, Ok(ConfigSetting::CloudLookup(true)));
    assert_eq!(config_setting("profile", "Light").setting, Ok(ConfigSetting::Profile(PerformanceProfile::Lightweight)));
    assert_eq!(config_setting("heartbeat_interval", "+5").setting, Ok(ConfigSetting::HeartbeatInterval(5)));
}

#[test]
fn config_set_errors() {
    assert_eq!(config_setting("protection", "maybe").setting, Err(ConfigSetError::InvalidBool));
    assert_eq!(config_setting("scan_interval", "-1").setting, Err(ConfigSetError::InvalidNumber));
    assert_eq!(config_setting("scan_interval", "ten").setting, Err(ConfigSetError::InvalidNumber));
    assert_eq!(config_setting("profile", "fast").setting, Err(ConfigSetError::InvalidProfile));
    let r = config_setting("Agent_ID", "x");
    assert_eq!(r.key, "agent_id");
    assert_eq!(r.setting, Err(ConfigSetError::UnknownKey));
}

#[test]
fn parse_bool_words() {
    for w in ["true", "YES", "1", "On", "enabled"] {
        assert_eq!(parse_bool(w), Ok(true), "{w}");
    }
    for w in ["false", "No", "0", "OFF", "Disabled"] {
        assert_eq!(parse_bool(w), Ok(false), "{w}");
    }
    assert_eq!(parse_bool("2"), Err(ConfigSetError::InvalidBool));
}

#[test]
fn config_update_sets_one_field() {
    let u = config_update(ConfigSetting::ScanInterval(30)).unwrap();
    assert_eq!(u.scan_interval_seconds, Some(30));
    assert_eq!(u.heartbeat_interval_seconds, None);
    assert_eq!(u.enable_real_time_protection, None);
    let u = config_update(ConfigSetting::RealTimeProtection(true)).unwrap();
    assert_eq!(u.enable_real_time_protection, Some(true));
    assert!(config_update(ConfigSetting::Profile(PerformanceProfile::Balanced)).is_none());
}

#[test]
fn profile_descriptions() {
    assert_eq!(profile_of_arg(PerformanceProfileArg::Aggressive), PerformanceProfile::Aggressive);
    assert_eq!(
        get_profile_description(&PerformanceProfile::Balanced),
        "Good detection with reasonable resource usage (~5-10% CPU).\nSuitable for most workstations."
    );
    assert!(get_profile_description(&PerformanceProfile::Lightweight).starts_with("Minimal footprint"));
}

#[test]
fn agent_answers_to_changes() {
    assert!(action_reply(IpcMessage::Success).is_ok());
    assert!(matches!(
        action_reply(IpcMessage::Error { message: "denied".to_owned(), code: None }),
        Err(ActionError::Failed(ref m)) if m == "denied"
    ));
    assert!(matches!(action_reply(IpcMessage::Authenticated), Err(ActionError::Unexpected)));
    assert_eq!(
        reload_reply(IpcMessage::BackendTestResult { connected: true, latency_ms: Some(5), error: None }),
        Ok(ReloadOutcome::Validated { backend_connected: true })
    );
    assert_eq!(reload_reply(IpcMessage::Success), Ok(ReloadOutcome::Triggered));
    assert_eq!(
        reload_reply(IpcMessage::Error { message: "x".to_owned(), code: None }),
        Err("x".to_owned())
    );
}

#[test]
fn event_search_ignores_case_and_limits() {
    let logs = vec![
        log("Started PowerShell.exe", None),
        log("idle", Some("net")),
        log("other", Some("POWERSHELL-watch")),
        log("powershell again", None),
    ];
    let found = search_logs(logs, "powershell", 2);
    let msgs: Vec<&str> = found.iter().map(|l| l.message.as_str()).collect();
    assert_eq!(msgs, vec!["Started PowerShell.exe", "other"]);
    let none = search_logs(vec![log("a", None)], "zzz", 5);
    assert!(none.is_empty());
    assert!(matches_query("abc", None, "b"));
    assert!(matches_query("abc", Some("mod"), "od"));
    assert!(!matches_query("abc", None, "z"));
    assert_eq!(search_fetch_limit(7), 70);
}

#[test]
fn event_levels() {
    assert_eq!(severity_level(Some(Severity::Medium)).as_deref(), Some("medium"));
    assert_eq!(severity_level(None), None);
    assert_eq!(level_style("ERROR"), TextStyle::Red);
    assert_eq!(level_style("warn"), TextStyle::Yellow);
    assert_eq!(level_style("info"), TextStyle::Green);
    assert_eq!(level_style("DEBUG"), TextStyle::Blue);
    assert_eq!(level_style("Info"), TextStyle::Plain);
}

#[test]
fn quarantine_listing_and_lookup() {
    let files = vec![entry("q1"), entry("q2"), entry("r3")];
    assert_eq!(find_entry(&files, "r"), Some(2));
    assert_eq!(find_entry(&files, "q"), Some(0));
    assert_eq!(find_entry(&files, "x"), None);
    assert_eq!(take_entries(files, 2).len(), 2);
    assert_eq!(take_entries(vec![entry("a")], 5).len(), 1);
    assert_eq!(removal_step(false, false), RemovalStep::WarnOnly);
    assert_eq!(removal_step(true, false), RemovalStep::Proceed);
    assert_eq!(removal_step(false, true), RemovalStep::RefuseAsJson);
    assert_eq!(removal_step(true, true), RemovalStep::Proceed);
}

#[test]
fn size_units() {
    assert_eq!(size_unit(1023), SizeUnit::Bytes);
    assert_eq!(size_unit(1024), SizeUnit::KiloBytes);
    assert_eq!(size_unit(1024 * 1024), SizeUnit::MegaBytes);
    assert_eq!(size_unit(1024 * 1024 * 1024), SizeUnit::GigaBytes);
}

#[test]
fn block_durations() {
    assert_eq!(block_duration_phrase(0), "permanently");
    assert_eq!(block_duration_phrase(3600), "for 3600 seconds");
    assert_eq!(block_duration_json(0), "permanent");
    assert_eq!(block_duration_json(60), "60 seconds");
}

#[test]
fn scan_cancel_defaults_to_current() {
    assert_eq!(cancel_scan_id(&None), "current");
    assert_eq!(cancel_scan_id(&Some("s-9".to_owned())), "s-9");
}

#[test]
fn uptime_formatting() {
    assert_eq!(format_duration(0), "0s");
    assert_eq!(format_duration(59), "59s");
    assert_eq!(format_duration(60), "1m 0s");
    assert_eq!(format_duration(3599), "59m 59s");
    assert_eq!(format_duration(3600), "1h 0m");
    assert_eq!(format_duration(3725), "1h 2m");
    assert_eq!(format_duration(86400), "1d 0h");
    assert_eq!(format_duration(90061), "1d 1h");
    assert_eq!(whole_mebibytes(5 * 1024 * 1024 + 17), 5);
    assert_eq!(whole_kibibytes(2047), 1);
    assert_eq!(whole_kibibytes(1024 * 9), 9);
    assert_eq!(refresh_notice(2), "Refreshing every 2 seconds. Press Ctrl+C to exit.");
}

#[test]
fn status_labels_and_views() {
    let l = agent_state_label(AgentState::Degraded);
    assert_eq!((l.text.as_str(), l.style), ("Degraded", TextStyle::Yellow));
    let l = health_label(HealthState::Unhealthy);
    assert_eq!((l.text.as_str(), l.style), ("Unhealthy", TextStyle::Red));
    let l = yes_no_label(false, "Connected", "Disconnected");
    assert_eq!((l.text.as_str(), l.style), ("Disconnected", TextStyle::Red));
    let args = StatusArgs { detailed: true, metrics: true, watch: false, interval: 2 };
    assert_eq!(status_view(&args), StatusView::Detailed);
    let args = StatusArgs { detailed: false, metrics: true, watch: true, interval: 2 };
    assert_eq!(status_view(&args), StatusView::Metrics);
}

#[test]
fn byte_truncation() {
    assert_eq!(truncate("short", 8), "short");
    assert_eq!(truncate("0123456789abcdef", 8), "01234...");
    assert_eq!(truncate("héllo world", 6), "hé...");
    assert!(truncate("0123456789abcdef", 8).len() <= 8);
}

#[test]
fn output_settings_follow_options() {
    let cli = Cli {
        json: true,
        verbose: 0,
        quiet: true,
        ipc_path: None,
        timeout: 5,
        command: Commands::Version,
    };
    let out = create_output(&cli);
    assert!(out.is_json());
    assert!(out.is_quiet());
    assert!(out.shows_lines());
    let table_quiet = Output::new(tamandua_ctl::output::OutputFormat::Table, true);
    assert!(!table_quiet.shows_lines());
    let d = Output::default();
    assert!(!d.is_json() && !d.is_quiet() && d.shows_lines());
}

#[test]
fn log_levels_and_routes() {
    assert_eq!(log_level(0, false), LogLevel::Warn);
    assert_eq!(log_level(1, false), LogLevel::Info);
    assert_eq!(log_level(2, false), LogLevel::Debug);
    assert_eq!(log_level(9, false), LogLevel::Trace);
    assert_eq!(log_level(3, true), LogLevel::Error);
    assert_eq!(command_route(&Commands::Version), CommandRoute::VersionProbe);
    let status = Commands::Status(StatusArgs { detailed: false, metrics: false, watch: false, interval: 2 });
    assert_eq!(command_route(&status), CommandRoute::Agent);
}
