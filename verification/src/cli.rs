//! Command-line arguments of `tamandua-ctl`: the global options, the
//! subcommands and their arguments, as plain data.
//!
//! The binary parses the command line into these types.

use std::path::PathBuf;
use vstd::prelude::*;

verus! {

/// `std::path::PathBuf`, carried through the library unchanged.
#[verifier::external_type_specification]
#[verifier::external_body]
pub struct ExPathBuf(PathBuf);

/// Global options and the chosen command.
#[derive(Debug)]
pub struct Cli {
    /// Output format (json for machine-readable output)
    pub json: bool,
    /// Increase verbosity (-v, -vv, -vvv)
    pub verbose: u8,
    /// Suppress all output except errors
    pub quiet: bool,
    /// IPC socket/pipe path (defaults to system path)
    pub ipc_path: Option<String>,
    /// Connection timeout in seconds (default 5)
    pub timeout: u64,
    pub command: Commands,
}

/// The subcommands.
#[derive(Debug)]
pub enum Commands {
    /// Show agent status and health information
    Status(StatusArgs),
    /// List and search telemetry events
    Events(EventsArgs),
    /// List, acknowledge, and manage alerts
    Alerts(AlertsArgs),
    /// Show and modify agent configuration
    Config(ConfigArgs),
    /// Start an on-demand scan
    Scan(ScanArgs),
    /// Manage quarantined files
    Quarantine(QuarantineArgs),
    /// Execute response actions
    Response(ResponseArgs),
    /// Remote server operations
    Remote(RemoteArgs),
    /// Show version information
    Version,
}

// ==================== Status Command ====================

#[derive(Debug)]
pub struct StatusArgs {
    /// Show detailed component status
    pub detailed: bool,
    /// Show performance metrics
    pub metrics: bool,
    /// Watch mode - continuously update status
    pub watch: bool,
    /// Update interval for watch mode (seconds, default 2)
    pub interval: u64,
}

// ==================== Events Command ====================

#[derive(Debug)]
pub struct EventsArgs {
    pub command: Option<EventsSubcommand>,
}

#[derive(Debug)]
pub enum EventsSubcommand {
    /// List recent events
    List(EventsListArgs),
    /// Search events by criteria
    Search(EventsSearchArgs),
    /// Show event statistics
    Stats,
}

#[derive(Debug)]
pub struct EventsListArgs {
    /// Maximum number of events to show (default 50)
    pub limit: usize,
    /// Show events since this time (e.g., "1h", "30m", "2024-01-01")
    pub since: Option<String>,
    /// Filter by event type
    pub event_type: Option<String>,
    /// Filter by severity level
    pub severity: Option<Severity>,
}

#[derive(Debug)]
pub struct EventsSearchArgs {
    /// Search query
    pub query: String,
    /// Maximum results (default 100)
    pub limit: usize,
}

// ==================== Alerts Command ====================

#[derive(Debug)]
pub struct AlertsArgs {
    pub command: Option<AlertsSubcommand>,
}

#[derive(Debug)]
pub enum AlertsSubcommand {
    /// List alerts
    List(AlertsListArgs),
    /// Acknowledge an alert
    Ack(AlertAckArgs),
    /// Show alert details
    Show(AlertShowArgs),
    /// Show alert statistics
    Stats,
}

#[derive(Debug)]
pub struct AlertsListArgs {
    /// Maximum number of alerts to show (default 50)
    pub limit: usize,
    /// Show events since this time
    pub since: Option<String>,
    /// Filter by severity
    pub severity: Option<Severity>,
    /// Show only unacknowledged alerts
    pub unacked: bool,
    /// Show all alerts (including acknowledged)
    pub all: bool,
}

#[derive(Debug)]
pub struct AlertAckArgs {
    /// Alert ID to acknowledge
    pub alert_id: String,
    /// Acknowledgement note
    pub note: Option<String>,
}

#[derive(Debug)]
pub struct AlertShowArgs {
    /// Alert ID to show
    pub alert_id: String,
}

// ==================== Config Command ====================

#[derive(Debug)]
pub struct ConfigArgs {
    pub command: Option<ConfigSubcommand>,
}

#[derive(Debug)]
pub enum ConfigSubcommand {
    /// Show current configuration
    Show,
    /// Get a specific configuration value
    Get(ConfigGetArgs),
    /// Set a configuration value (requires authentication)
    SetValue(ConfigSetArgs),
    /// Get/set performance profile
    Profile(ProfileArgs),
    /// Reload configuration from disk
    Reload,
}

#[derive(Debug)]
pub struct ConfigGetArgs {
    /// Configuration key to get
    pub key: String,
}

#[derive(Debug)]
pub struct ConfigSetArgs {
    /// Configuration key to set
    pub key: String,
    /// Value to set
    pub value: String,
}

#[derive(Debug)]
pub struct ProfileArgs {
    /// Profile to set (aggressive, balanced, lightweight)
    pub profile: Option<PerformanceProfileArg>,
}

#[derive(Clone, Copy, Debug, PartialEq, Eq, Structural)]
pub enum PerformanceProfileArg {
    Aggressive,
    Balanced,
    Lightweight,
}

// ==================== Scan Command ====================

#[derive(Debug)]
pub struct ScanArgs {
    pub command: ScanSubcommand,
}

#[derive(Debug)]
pub enum ScanSubcommand {
    /// Start a new scan
    Start(ScanStartArgs),
    /// Show scan status
    Status,
    /// Cancel running scan
    Cancel(ScanCancelArgs),
    /// List recent scan results
    History(ScanHistoryArgs),
}

#[derive(Debug)]
pub struct ScanStartArgs {
    /// Path to scan
    pub path: PathBuf,
    /// Scan recursively (default true)
    pub recursive: bool,
    /// Scan inside archive files
    pub archives: bool,
    /// Wait for scan to complete
    pub wait: bool,
}

#[derive(Debug)]
pub struct ScanCancelArgs {
    /// Scan ID to cancel (or "all")
    pub scan_id: Option<String>,
}

#[derive(Debug)]
pub struct ScanHistoryArgs {
    /// Number of recent scans to show (default 10)
    pub limit: usize,
}

// ==================== Quarantine Command ====================

#[derive(Debug)]
pub struct QuarantineArgs {
    pub command: Option<QuarantineSubcommand>,
}

#[derive(Debug)]
pub enum QuarantineSubcommand {
    /// List quarantined files
    List(QuarantineListArgs),
    /// Show quarantine entry details
    Show(QuarantineShowArgs),
    /// Restore a file from quarantine
    Restore(QuarantineRestoreArgs),
    /// Permanently delete a quarantined file
    Delete(QuarantineDeleteArgs),
}

#[derive(Debug)]
pub struct QuarantineListArgs {
    /// Maximum entries to show (default 50)
    pub limit: usize,
}

#[derive(Debug)]
pub struct QuarantineShowArgs {
    /// Quarantine entry ID
    pub id: String,
}

#[derive(Debug)]
pub struct QuarantineRestoreArgs {
    /// Quarantine entry ID
    pub id: String,
    /// Force restore without confirmation
    pub force: bool,
}

#[derive(Debug)]
pub struct QuarantineDeleteArgs {
    /// Quarantine entry ID
    pub id: String,
    /// Force delete without confirmation
    pub force: bool,
}

// ==================== Response Command ====================

#[derive(Debug)]
pub struct ResponseArgs {
    pub command: ResponseSubcommand,
}

#[derive(Debug)]
pub enum ResponseSubcommand {
    /// Kill a process
    Kill(KillArgs),
    /// Quarantine a file
    QuarantineFile(QuarantineFileArgs),
    /// Isolate the host from network
    Isolate,
    /// Restore host network connectivity
    Restore,
    /// Block an IP address
    BlockIp(BlockIpArgs),
    /// Unblock an IP address
    UnblockIp(UnblockIpArgs),
}

#[derive(Debug)]
pub struct KillArgs {
    /// Process ID to kill
    pub pid: u32,
    /// Force kill (SIGKILL on Unix)
    pub force: bool,
}

#[derive(Debug)]
pub struct QuarantineFileArgs {
    /// File path to quarantine
    pub path: PathBuf,
}

#[derive(Debug)]
pub struct BlockIpArgs {
    /// IP address to block
    pub ip: String,
    /// Duration in seconds (0 = permanent)
    pub duration: u64,
}

#[derive(Debug)]
pub struct UnblockIpArgs {
    /// IP address to unblock
    pub ip: String,
}

// ==================== Remote Command ====================

#[derive(Debug)]
pub struct RemoteArgs {
    pub command: RemoteSubcommand,
}

#[derive(Debug)]
pub enum RemoteSubcommand {
    /// Store a server/operator token for later remote commands
    Login(RemoteLoginArgs),
    /// List agents from the Tamandua server
    Agents(RemoteAgentsArgs),
    /// List alerts from the Tamandua server
    Alerts(RemoteAlertsArgs),
    /// Open an authenticated live response shell through the Tamandua server
    Shell(RemoteShellArgs),
    /// Execute one non-interactive live response command through the Tamandua server
    Command(RemoteCommandArgs),
    /// Upload a local file to an agent through audited live response
    Upload(RemoteUploadArgs),
}

#[derive(Debug)]
pub struct RemoteAgentsArgs {
    pub command: RemoteAgentsSubcommand,
}

#[derive(Debug)]
pub enum RemoteAgentsSubcommand {
    /// List enrolled agents visible to the operator
    List(RemoteAgentsListArgs),
}

#[derive(Debug)]
pub struct RemoteAgentsListArgs {
    /// Tamandua server base URL
    pub server: Option<String>,
    /// Operator dashboard/API JWT. If omitted, saved remote login is used.
    pub token: Option<String>,
    /// Filter by server-side status such as online, offline, degraded, isolated
    pub status: Option<String>,
}

#[derive(Debug)]
pub struct RemoteAlertsArgs {
    pub command: RemoteAlertsSubcommand,
}

#[derive(Debug)]
pub enum RemoteAlertsSubcommand {
    /// List alerts visible to the operator
    List(RemoteAlertsListArgs),
}

#[derive(Debug)]
pub struct RemoteAlertsListArgs {
    /// Tamandua server base URL
    pub server: Option<String>,
    /// Operator dashboard/API JWT. If omitted, saved remote login is used.
    pub token: Option<String>,
    /// Filter by agent UUID
    pub agent_id: Option<String>,
    /// Filter by minimum or exact server severity, depending on backend semantics
    pub severity: Option<Severity>,
    /// Filter by status such as new, investigating, resolved, false_positive, active
    pub status: Option<String>,
    /// Maximum number of alerts to show (default 50)
    pub limit: u32,
}

#[derive(Debug)]
pub struct RemoteLoginArgs {
    /// Tamandua server base URL
    pub server: Option<String>,
    /// Operator dashboard socket JWT generated by the web UI. If omitted, browser login is used.
    pub token: Option<String>,
    /// Print the login URL instead of opening the browser
    pub no_browser: bool,
}

#[derive(Debug)]
pub struct RemoteShellArgs {
    /// Tamandua server base URL
    pub server: Option<String>,
    /// Operator dashboard socket JWT. This is not an enrollment token.
    pub token: Option<String>,
    /// Target agent UUID
    pub agent_id: String,
    /// Connect as view-only
    pub view_only: bool,
    /// Enable supervisor mode when allowed by the server
    pub supervisor_mode: bool,
}

#[derive(Debug)]
pub struct RemoteCommandArgs {
    /// Tamandua server base URL
    pub server: Option<String>,
    /// Operator dashboard socket JWT. This is not an enrollment token.
    pub token: Option<String>,
    /// Target agent UUID
    pub agent_id: String,
    /// Enable supervisor mode when allowed by the server
    pub supervisor_mode: bool,
    /// Stop after this many seconds without new output once the command is sent (default 2)
    pub idle_timeout: u64,
    /// Maximum seconds to wait for the agent to confirm shell startup (default 45)
    pub shell_start_timeout: u64,
    /// Maximum seconds to wait for join, command dispatch, and output (default 30)
    pub overall_timeout: u64,
    /// Command and arguments to execute
    pub command: Vec<String>,
}

#[derive(Debug)]
pub struct RemoteUploadArgs {
    /// Tamandua server base URL
    pub server: Option<String>,
    /// Operator dashboard socket JWT. If omitted, saved remote login is used.
    pub token: Option<String>,
    /// Target agent UUID
    pub agent_id: String,
    /// Local file to upload
    pub local_path: PathBuf,
    /// Destination path on the agent
    pub remote_path: String,
    /// Command timeout in seconds (default 120)
    pub timeout: u64,
    /// End the live response session after upload (default true)
    pub close_session: bool,
}

// ==================== Shared Types ====================

/// Severity named on the command line.
#[derive(Clone, Copy, Debug, PartialEq, Eq, Structural)]
pub enum Severity {
    Info,
    Low,
    Medium,
    High,
    Critical,
}

/// The lower-case name of a severity.
pub open spec fn severity_name(s: Severity) -> Seq<char> {
    match s {
        Severity::Info => "info"@,
        Severity::Low => "low"@,
        Severity::Medium => "medium"@,
        Severity::High => "high"@,
        Severity::Critical => "critical"@,
    }
}

impl Severity {
    /// The lower-case name, as shown and as sent to the server.
    pub fn to_string(&self) -> (r: String)
        ensures
            r@ == severity_name(*self),
    {
        let s: &str = match self {
            Severity::Info => "info",
            Severity::Low => "low",
            Severity::Medium => "medium",
            Severity::High => "high",
            Severity::Critical => "critical",
        };
        s.to_owned()
    }
}

} // verus!
