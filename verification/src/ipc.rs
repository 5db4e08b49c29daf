//! The agent IPC protocol: message and data types, the client's connection
//! and authentication state, the reading of replies, the challenge-response
//! signature, and length-prefixed framing.
//!
//! Floating-point measurements travel as their IEEE-754 bit patterns
//! (`F32Bits`, `F64Bits`), times as `Timestamp`.

use crate::crypto::{hex_encode, hex_lower, hmac_sha256, le_bytes, spec_hmac_sha256, u64_le_bytes};
use crate::text::{chars_eq_str, chars_of, push_str, string_of};
use crate::time::Timestamp;
use std::collections::HashMap;
use std::path::PathBuf;
use std::time::Duration;
use vstd::prelude::*;

verus! {

/// Largest message body accepted on the IPC channel (16 MiB).
pub const MAX_MESSAGE_SIZE: usize = 16777216;

/// An `f32` measurement, kept as its bit pattern (`f32::to_bits`).
#[derive(Clone, Copy, Debug, PartialEq, Eq, Structural)]
pub struct F32Bits(pub u32);

/// An `f64` measurement, kept as its bit pattern (`f64::to_bits`).
#[derive(Clone, Copy, Debug, PartialEq, Eq, Structural)]
pub struct F64Bits(pub u64);

// ==================== Authentication Types ====================

/// Challenge sent from server to client for authentication.
#[derive(Debug)]
pub struct AuthChallenge {
    /// Random nonce (32 bytes, hex-encoded)
    pub nonce: String,
    /// Unix timestamp when challenge was created
    pub timestamp: u64,
}

/// Response from client to server challenge.
#[derive(Debug)]
pub struct ChallengeResponse {
    /// The nonce from the challenge (echoed back)
    pub nonce: String,
    /// The timestamp from the challenge (echoed back)
    pub timestamp: u64,
    /// HMAC-SHA256(nonce || timestamp, token_secret), hex-encoded
    pub signature: String,
}

/// The message signed in a challenge response: the nonce's UTF-8 bytes
/// followed by the timestamp's eight little-endian bytes.
pub open spec fn challenge_message(nonce: Seq<char>, timestamp: u64) -> Seq<u8> {
    vstd::utf8::encode_utf8(nonce) + le_bytes(timestamp as nat, 8)
}

/// The signature of a challenge under a secret: lower-case hex of the
/// HMAC-SHA256 tag keyed by the secret's UTF-8 bytes.
pub open spec fn challenge_signature(nonce: Seq<char>, timestamp: u64, secret: Seq<char>) -> Seq<
    char,
> {
    hex_lower(spec_hmac_sha256(vstd::utf8::encode_utf8(secret), challenge_message(nonce, timestamp)))
}

impl ChallengeResponse {
    /// Create a response to a challenge using the token secret.
    pub fn create(challenge: &AuthChallenge, secret: &str) -> (r: ChallengeResponse)
        ensures
            r.nonce@ == challenge.nonce@,
            r.timestamp == challenge.timestamp,
            r.signature@ == challenge_signature(challenge.nonce@, challenge.timestamp, secret@),
            r.signature@.len() == 64,
    {
        let mut message: Vec<u8> = Vec::new();
        let nb = challenge.nonce.as_str().as_bytes();
        let mut i: usize = 0;
        while i < nb.len()
            invariant
                0 <= i <= nb@.len(),
                message@ == nb@.subrange(0, i as int),
            decreases nb@.len() - i,
        {
            message.push(nb[i]);
            i = i + 1;
            assert(message@ =~= nb@.subrange(0, i as int));
        }
        let ts = u64_le_bytes(challenge.timestamp);
        let mut j: usize = 0;
        let ghost head = message@;
        while j < ts.len()
            invariant
                0 <= j <= ts@.len(),
                message@ == head + ts@.subrange(0, j as int),
            decreases ts@.len() - j,
        {
            message.push(ts[j]);
            j = j + 1;
            assert(message@ =~= head + ts@.subrange(0, j as int));
        }
        assert(nb@.subrange(0, nb@.len() as int) =~= nb@);
        assert(ts@.subrange(0, ts@.len() as int) =~= ts@);
        let tag = hmac_sha256(secret.as_bytes(), message.as_slice());
        let signature = hex_encode(tag.as_slice());
        ChallengeResponse {
            nonce: challenge.nonce.clone(),
            timestamp: challenge.timestamp,
            signature,
        }
    }
}

/// Lower-case hex SHA-256 of a token secret, as the legacy `Authenticate`
/// message carries it.
pub fn token_hash(secret: &str) -> (r: String)
    ensures
        r@ == hex_lower(crate::crypto::spec_sha256(vstd::utf8::encode_utf8(secret@))),
{
    crate::crypto::sha256_hex(secret.as_bytes())
}

// ==================== Data Types ====================

#[derive(Debug)]
pub struct AgentStatus {
    pub agent_id: String,
    pub version: String,
    pub state: AgentState,
    pub backend_connected: bool,
    pub last_heartbeat: Option<Timestamp>,
    pub collectors_running: Vec<String>,
    pub protection_enabled: bool,
    pub scan_in_progress: bool,
    pub cpu_usage: F32Bits,
    pub memory_usage: u64,
    pub uptime_seconds: u64,
}

#[derive(Clone, Copy, Debug, PartialEq, Eq, Structural)]
pub enum AgentState {
    Starting,
    Running,
    Degraded,
    Stopped,
    Error,
}

#[derive(Debug)]
pub struct AgentMetrics {
    pub timestamp: Timestamp,
    pub events_processed: u64,
    pub events_per_second: F64Bits,
    pub alerts_generated: u32,
    pub actions_executed: u32,
    pub cpu_usage: F32Bits,
    pub memory_usage: u64,
    pub network_bytes_sent: u64,
    pub network_bytes_received: u64,
    pub collector_metrics: Vec<CollectorMetrics>,
}

#[derive(Debug)]
pub struct CollectorMetrics {
    pub name: String,
    pub events_collected: u64,
    pub events_per_second: F64Bits,
    pub errors: u32,
    pub cpu_percent: F32Bits,
}

#[derive(Debug)]
pub struct ComponentStatus {
    pub driver: DriverStatus,
    pub collectors: Vec<CollectorStatus>,
    pub backend: BackendStatus,
    pub pressure_level: PressureLevel,
    pub health: HealthStatus,
}

#[derive(Debug)]
pub struct DriverStatus {
    pub loaded: bool,
    pub version: Option<String>,
    pub events_captured: u64,
    pub last_event_at: Option<Timestamp>,
    pub error: Option<String>,
}

#[derive(Debug)]
pub struct CollectorStatus {
    pub name: String,
    pub running: bool,
    pub events_per_second: F64Bits,
    pub total_events: u64,
    pub errors: u32,
    pub last_error: Option<String>,
    pub cpu_percent: F32Bits,
    pub memory_bytes: u64,
}

#[derive(Debug)]
pub struct BackendStatus {
    pub connected: bool,
    pub url: String,
    pub latency_ms: Option<u64>,
    pub events_queued: u64,
    pub events_sent: u64,
    pub last_sync_at: Option<Timestamp>,
    pub error: Option<String>,
}

#[derive(Clone, Copy, Debug, PartialEq, Eq, Structural)]
/// Memory/CPU pressure on the agent; `Unloaded` is the level without any
/// pressure.
pub enum PressureLevel {
    Unloaded,
    Light,
    Moderate,
    Heavy,
    Critical,
}

impl PressureLevel {
    /// The lower-case name.
    pub fn to_string(&self) -> (r: String)
        ensures
            r@ == match *self {
                PressureLevel::Unloaded => "none"@,
                PressureLevel::Light => "light"@,
                PressureLevel::Moderate => "moderate"@,
                PressureLevel::Heavy => "heavy"@,
                PressureLevel::Critical => "critical"@,
            },
    {
        let s: &str = match self {
            PressureLevel::Unloaded => "none",
            PressureLevel::Light => "light",
            PressureLevel::Moderate => "moderate",
            PressureLevel::Heavy => "heavy",
            PressureLevel::Critical => "critical",
        };
        s.to_owned()
    }
}

#[derive(Debug)]
pub struct HealthStatus {
    pub status: HealthState,
    pub checks: Vec<HealthCheck>,
    pub last_check_at: Option<Timestamp>,
}

#[derive(Clone, Copy, Debug, PartialEq, Eq, Structural)]
pub enum HealthState {
    Healthy,
    Degraded,
    Unhealthy,
}

impl HealthState {
    /// The lower-case name.
    pub fn to_string(&self) -> (r: String)
        ensures
            r@ == match *self {
                HealthState::Healthy => "healthy"@,
                HealthState::Degraded => "degraded"@,
                HealthState::Unhealthy => "unhealthy"@,
            },
    {
        let s: &str = match self {
            HealthState::Healthy => "healthy",
            HealthState::Degraded => "degraded",
            HealthState::Unhealthy => "unhealthy",
        };
        s.to_owned()
    }
}

#[derive(Debug)]
pub struct HealthCheck {
    pub name: String,
    pub passed: bool,
    pub message: Option<String>,
}

#[derive(Clone, Copy, Debug, PartialEq, Eq, Structural)]
pub enum PerformanceProfile {
    Aggressive,
    Balanced,
    Lightweight,
}

/// The lower-case name of a profile.
pub open spec fn profile_name(p: PerformanceProfile) -> Seq<char> {
    match p {
        PerformanceProfile::Aggressive => "aggressive"@,
        PerformanceProfile::Balanced => "balanced"@,
        PerformanceProfile::Lightweight => "lightweight"@,
    }
}

impl PerformanceProfile {
    /// The lower-case name.
    pub fn to_string(&self) -> (r: String)
        ensures
            r@ == profile_name(*self),
    {
        let s: &str = match self {
            PerformanceProfile::Aggressive => "aggressive",
            PerformanceProfile::Balanced => "balanced",
            PerformanceProfile::Lightweight => "lightweight",
        };
        s.to_owned()
    }
}

#[derive(Debug)]
pub struct AlertNotification {
    pub id: String,
    pub timestamp: Timestamp,
    pub severity: AlertSeverity,
    pub title: String,
    pub description: String,
    pub threat_name: Option<String>,
    pub process_name: Option<String>,
    pub process_id: Option<u32>,
    pub file_path: Option<PathBuf>,
    pub mitre_tactics: Vec<String>,
    pub remediation: Option<String>,
    pub acknowledged: bool,
}

/// Alert severity, ordered from `Info` (lowest) to `Critical`.
#[derive(Clone, Copy, Debug, PartialEq, Eq, Structural)]
pub enum AlertSeverity {
    Info,
    Low,
    Medium,
    High,
    Critical,
}

/// The place of a severity in the order `Info < Low < Medium < High <
/// Critical`.
pub open spec fn severity_rank(s: AlertSeverity) -> int {
    match s {
        AlertSeverity::Info => 0,
        AlertSeverity::Low => 1,
        AlertSeverity::Medium => 2,
        AlertSeverity::High => 3,
        AlertSeverity::Critical => 4,
    }
}

/// The lower-case name of a severity.
pub open spec fn alert_severity_name(s: AlertSeverity) -> Seq<char> {
    match s {
        AlertSeverity::Info => "info"@,
        AlertSeverity::Low => "low"@,
        AlertSeverity::Medium => "medium"@,
        AlertSeverity::High => "high"@,
        AlertSeverity::Critical => "critical"@,
    }
}

impl AlertSeverity {
    /// The place in the severity order.
    pub fn rank(&self) -> (r: u8)
        ensures
            r as int == severity_rank(*self),
    {
        match self {
            AlertSeverity::Info => 0,
            AlertSeverity::Low => 1,
            AlertSeverity::Medium => 2,
            AlertSeverity::High => 3,
            AlertSeverity::Critical => 4,
        }
    }

    /// Whether `self` is at least as severe as `other`.
    pub fn at_least(&self, other: &AlertSeverity) -> (r: bool)
        ensures
            r == (severity_rank(*self) >= severity_rank(*other)),
    {
        self.rank() >= other.rank()
    }

    /// The lower-case name.
    pub fn to_string(&self) -> (r: String)
        ensures
            r@ == alert_severity_name(*self),
    {
        let s: &str = match self {
            AlertSeverity::Info => "info",
            AlertSeverity::Low => "low",
            AlertSeverity::Medium => "medium",
            AlertSeverity::High => "high",
            AlertSeverity::Critical => "critical",
        };
        s.to_owned()
    }
}

#[derive(Debug)]
pub struct LogEntry {
    pub timestamp: Timestamp,
    pub level: String,
    pub message: String,
    pub module: Option<String>,
    pub fields: HashMap<String, String>,
}

#[derive(Debug)]
pub struct ScanResults {
    pub scan_id: String,
    pub started_at: Timestamp,
    pub completed_at: Timestamp,
    pub files_scanned: u64,
    pub threats_found: u32,
    pub threats: Vec<ThreatDetection>,
    pub errors: Vec<String>,
}

#[derive(Debug)]
pub struct ThreatDetection {
    pub file_path: PathBuf,
    pub threat_name: String,
    pub severity: AlertSeverity,
    pub detection_method: String,
    pub action_taken: String,
}

#[derive(Debug)]
pub struct QuarantineEntry {
    pub id: String,
    pub original_path: PathBuf,
    pub quarantined_at: Timestamp,
    pub threat_name: String,
    pub file_size: u64,
    pub file_hash: String,
}

#[derive(Debug)]
pub struct NetworkConnection {
    pub protocol: String,
    pub local_addr: String,
    pub local_port: u16,
    pub remote_addr: String,
    pub remote_port: u16,
    pub state: String,
    pub pid: u32,
    pub process_name: String,
}

#[derive(Debug)]
pub struct ProcessInfo {
    pub pid: u32,
    pub ppid: u32,
    pub name: String,
    pub path: PathBuf,
    pub command_line: String,
    pub user: String,
    pub cpu_usage: F32Bits,
    pub memory_usage: u64,
    pub started_at: Timestamp,
    pub children: Vec<ProcessInfo>,
}

#[derive(Debug)]
pub struct VersionInfo {
    pub version: String,
    pub build_date: String,
    pub commit_hash: String,
    pub rust_version: String,
}

#[derive(Debug)]
pub struct AgentConfigUpdate {
    pub scan_interval_seconds: Option<u64>,
    pub heartbeat_interval_seconds: Option<u64>,
    pub enable_real_time_protection: Option<bool>,
    pub enable_cloud_lookup: Option<bool>,
    pub excluded_paths: Option<Vec<PathBuf>>,
    pub excluded_processes: Option<Vec<String>>,
}

#[derive(Debug)]
pub enum ResponseAction {
    KillProcess { pid: u32 },
    QuarantineFile { path: PathBuf },
    IsolateHost,
    RestoreHost,
    BlockIp { ip: String },
    UnblockIp { ip: String },
}

// ==================== IPC Message Types ====================

/// Messages exchanged between CLI and Agent service.
#[derive(Debug)]
pub enum IpcMessage {
    // Read Operations
    GetStatus,
    GetMetrics,
    GetAlerts { since: Option<Timestamp>, limit: Option<usize> },
    GetLogs { since: Option<Timestamp>, level: Option<String>, limit: Option<usize> },
    GetQuarantinedFiles,
    GetActiveConnections,
    GetProcessTree,
    GetVersion,
    GetComponentStatus,
    GetPerformanceProfile,
    // Write Operations (require auth)
    /// Authenticate with token hash (legacy)
    Authenticate { token_hash: String },
    /// Request authentication challenge
    RequestChallenge,
    /// Respond to authentication challenge
    AuthenticateChallenge { response: ChallengeResponse },
    StartScan { path: PathBuf, recursive: bool, scan_archives: bool },
    CancelScan { scan_id: String },
    UpdateConfig { config: AgentConfigUpdate },
    ExecuteAction { action: ResponseAction },
    RestoreFile { quarantine_id: String },
    DeleteQuarantinedFile { quarantine_id: String },
    KillProcess { pid: u32 },
    TestBackendConnection,
    CheckForUpdates,
    ApplyUpdate,
    AcknowledgeAlert { alert_id: String },
    SetPerformanceProfile { profile: PerformanceProfile },
    // Responses
    /// Authentication challenge from server
    Challenge(AuthChallenge),
    StatusUpdate(AgentStatus),
    MetricsUpdate(AgentMetrics),
    ScanProgress {
        scan_id: String,
        path: PathBuf,
        progress: F32Bits,
        files_scanned: u64,
        threats_found: u32,
    },
    ScanComplete { scan_id: String, results: ScanResults },
    Alert(AlertNotification),
    LogEntries(Vec<LogEntry>),
    Alerts(Vec<AlertNotification>),
    QuarantinedFiles(Vec<QuarantineEntry>),
    ActiveConnections(Vec<NetworkConnection>),
    ProcessTree(Vec<ProcessInfo>),
    VersionInfo(VersionInfo),
    BackendTestResult { connected: bool, latency_ms: Option<u64>, error: Option<String> },
    UpdateCheckResult {
        update_available: bool,
        current_version: String,
        latest_version: Option<String>,
        release_notes: Option<String>,
        download_size: Option<u64>,
    },
    UpdateProgress { version: String, downloaded_bytes: u64, total_bytes: u64, percent: F32Bits },
    UpdateInstalling { version: String },
    UpdateReady { version: String, requires_restart: bool },
    UpdateError { message: String, recoverable: bool },
    ComponentStatusUpdate(ComponentStatus),
    PerformanceProfileResponse(PerformanceProfile),
    ProfileChanged {
        old: PerformanceProfile,
        new: PerformanceProfile,
        collectors_affected: Vec<String>,
    },
    Authenticated,
    Success,
    Error { message: String, code: Option<String> },
}

// ==================== Client state and replies ====================

/// Why a request to the agent did not give what was asked for.
#[derive(Debug)]
pub enum IpcError {
    /// No connection is open ("Not connected to IPC server").
    NotConnected,
    /// The agent answered with an `Error` message.
    Server(String),
    /// The agent answered with a message of another kind.
    Unexpected(IpcMessage),
    /// A profile change was asked for before authenticating.
    AuthenticationRequired,
    /// The agent refused a profile change with the code `AUTH_REQUIRED`.
    AuthRequiredByServer,
}

/// The message shown for a refused request; `reply_text` is how the caller
/// shows an unexpected reply.
pub open spec fn ipc_error_text(e: IpcError, reply_text: Seq<char>) -> Seq<char> {
    match e {
        IpcError::NotConnected => "Not connected to IPC server"@,
        IpcError::Server(message) => "Server error: "@ + message@,
        IpcError::Unexpected(_) => "Unexpected response: "@ + reply_text,
        IpcError::AuthenticationRequired => "Authentication required to change performance profile"@,
        IpcError::AuthRequiredByServer => "Authentication required"@,
    }
}

impl IpcError {
    /// The message shown for this refusal; `reply_text` is how the caller
    /// shows an unexpected reply (used for `Unexpected` only).
    pub fn message(&self, reply_text: &str) -> (r: String)
        ensures
            r@ == ipc_error_text(*self, reply_text@),
    {
        match self {
            IpcError::NotConnected => "Not connected to IPC server".to_owned(),
            IpcError::Server(message) => crate::text::concat2("Server error: ", message.as_str()),
            IpcError::Unexpected(_) => crate::text::concat2("Unexpected response: ", reply_text),
            IpcError::AuthenticationRequired => "Authentication required to change performance profile".to_owned(),
            IpcError::AuthRequiredByServer => "Authentication required".to_owned(),
        }
    }
}

/// Why authentication failed.
#[derive(Debug)]
pub enum AuthError {
    /// The agent answered the challenge request with an `Error`.
    ChallengeRefused { message: String, code: Option<String> },
    /// The agent answered the challenge request with another message.
    ChallengeUnexpected(IpcMessage),
    /// The agent rejected the signed response.
    Rejected { message: String, code: Option<String> },
    /// The agent answered the signed response with another message.
    Unexpected(IpcMessage),
}

/// The state of a client of the agent: whether a connection is open,
/// whether it has authenticated, and the connection timeout. The transport
/// itself is held by the caller.
pub struct IpcClient {
    connected: bool,
    authenticated: bool,
    timeout: Duration,
}

impl IpcClient {
    /// Whether a connection is open.
    pub closed spec fn connected_spec(&self) -> bool {
        self.connected
    }

    /// Whether the client has authenticated on the open connection.
    pub closed spec fn authenticated_spec(&self) -> bool {
        self.authenticated
    }

    /// The connection timeout.
    pub closed spec fn timeout_spec(&self) -> Duration {
        self.timeout
    }

    /// The invariant of every client: it is authenticated only while
    /// connected.
    pub open spec fn wf(&self) -> bool {
        self.authenticated_spec() ==> self.connected_spec()
    }

    /// A client that is not connected yet.
    pub fn new(timeout: Duration) -> (r: IpcClient)
        ensures
            !r.connected_spec(),
            !r.authenticated_spec(),
            r.timeout_spec() == timeout,
            r.wf(),
    {
        IpcClient { connected: false, authenticated: false, timeout }
    }

    /// The connection timeout.
    pub fn timeout(&self) -> (r: Duration)
        ensures
            r == self.timeout_spec(),
    {
        self.timeout
    }

    /// Whether a connection is open.
    pub fn is_connected(&self) -> (r: bool)
        ensures
            r == self.connected_spec(),
    {
        self.connected
    }

    /// Whether the client has authenticated.
    pub fn is_authenticated(&self) -> (r: bool)
        ensures
            r == self.authenticated_spec(),
    {
        self.authenticated
    }

    /// Records that a connection was opened; a new connection starts
    /// unauthenticated.
    pub fn mark_connected(&mut self)
        ensures
            final(self).connected_spec(),
            !final(self).authenticated_spec(),
            final(self).timeout_spec() == old(self).timeout_spec(),
            final(self).wf(),
    {
        self.connected = true;
        self.authenticated = false;
    }

    /// Closes the connection: the client is then neither connected nor
    /// authenticated.
    pub fn disconnect(&mut self)
        ensures
            !final(self).connected_spec(),
            !final(self).authenticated_spec(),
            final(self).timeout_spec() == old(self).timeout_spec(),
            final(self).wf(),
    {
        self.connected = false;
        self.authenticated = false;
    }

    /// Whether a request can be sent: `Err(NotConnected)` exactly when no
    /// connection is open.
    pub fn check_connected(&self) -> (r: Result<(), IpcError>)
        ensures
            r is Ok <==> self.connected_spec(),
            r matches Err(e) ==> e is NotConnected,
    {
        if self.connected {
            Ok(())
        } else {
            Err(IpcError::NotConnected)
        }
    }

    /// The message that changes the performance profile; refused with
    /// `AuthenticationRequired` before authentication.
    pub fn profile_request(&self, profile: PerformanceProfile) -> (r: Result<IpcMessage, IpcError>)
        ensures
            self.authenticated_spec() ==> r == Ok::<IpcMessage, IpcError>(
                IpcMessage::SetPerformanceProfile { profile },
            ),
            !self.authenticated_spec() ==> r matches Err(IpcError::AuthenticationRequired),
    {
        if self.authenticated {
            Ok(IpcMessage::SetPerformanceProfile { profile })
        } else {
            Err(IpcError::AuthenticationRequired)
        }
    }

    /// Reads the agent's answer to a signed challenge response. The client
    /// is authenticated afterwards exactly when the answer is
    /// `Authenticated` on an open connection; otherwise its state is
    /// unchanged.
    pub fn finish_authentication(&mut self, reply: IpcMessage) -> (r: Result<(), AuthError>)
        requires
            old(self).wf(),
        ensures
            final(self).wf(),
            final(self).connected_spec() == old(self).connected_spec(),
            final(self).timeout_spec() == old(self).timeout_spec(),
            final(self).authenticated_spec() == (old(self).authenticated_spec() || (
            reply is Authenticated && old(self).connected_spec())),
            match reply {
                IpcMessage::Authenticated => r is Ok,
                IpcMessage::Error { message, code } => r == Err::<(), AuthError>(
                    AuthError::Rejected { message, code },
                ),
                _ => r == Err::<(), AuthError>(AuthError::Unexpected(reply)),
            },
    {
        match reply {
            IpcMessage::Authenticated => {
                if self.connected {
                    self.authenticated = true;
                }
                Ok(())
            },
            IpcMessage::Error { message, code } => Err(AuthError::Rejected { message, code }),
            other => Err(AuthError::Unexpected(other)),
        }
    }
}

/// Reads the agent's answer to `RequestChallenge`.
pub fn challenge_reply(reply: IpcMessage) -> (r: Result<AuthChallenge, AuthError>)
    ensures
        match reply {
            IpcMessage::Challenge(c) => r == Ok::<AuthChallenge, AuthError>(c),
            IpcMessage::Error { message, code } => r == Err::<AuthChallenge, AuthError>(
                AuthError::ChallengeRefused { message, code },
            ),
            _ => r == Err::<AuthChallenge, AuthError>(AuthError::ChallengeUnexpected(reply)),
        },
{
    match reply {
        IpcMessage::Challenge(c) => Ok(c),
        IpcMessage::Error { message, code } => Err(AuthError::ChallengeRefused { message, code }),
        other => Err(AuthError::ChallengeUnexpected(other)),
    }
}

/// The message that answers a challenge: the challenge's nonce and
/// timestamp, signed with the token secret.
pub fn answer_challenge(challenge: &AuthChallenge, secret: &str) -> (r: IpcMessage)
    ensures
        (r matches IpcMessage::AuthenticateChallenge { response } && response.nonce@
            == challenge.nonce@ && response.timestamp == challenge.timestamp
            && response.signature@ == challenge_signature(
            challenge.nonce@,
            challenge.timestamp,
            secret@,
        )),
{
    IpcMessage::AuthenticateChallenge { response: ChallengeResponse::create(challenge, secret) }
}

/// What a reply that should carry `T` gives when it carries `expected`:
/// `Ok` with that value, the agent's message for an `Error`, the reply
/// itself otherwise.
pub open spec fn reply_outcome<T>(reply: IpcMessage, expected: Option<T>) -> Result<T, IpcError> {
    match expected {
        Some(v) => Ok(v),
        None => match reply {
            IpcMessage::Error { message, .. } => Err(IpcError::Server(message)),
            _ => Err(IpcError::Unexpected(reply)),
        },
    }
}

/// Reads the answer to `GetStatus`.
pub fn status_reply(reply: IpcMessage) -> (r: Result<AgentStatus, IpcError>)
    ensures
        r == reply_outcome(
            reply,
            match reply {
                IpcMessage::StatusUpdate(s) => Some(s),
                _ => None,
            },
        ),
{
    match reply {
        IpcMessage::StatusUpdate(s) => Ok(s),
        IpcMessage::Error { message, .. } => Err(IpcError::Server(message)),
        other => Err(IpcError::Unexpected(other)),
    }
}

/// Reads the answer to `GetMetrics`.
pub fn metrics_reply(reply: IpcMessage) -> (r: Result<AgentMetrics, IpcError>)
    ensures
        r == reply_outcome(
            reply,
            match reply {
                IpcMessage::MetricsUpdate(m) => Some(m),
                _ => None,
            },
        ),
{
    match reply {
        IpcMessage::MetricsUpdate(m) => Ok(m),
        IpcMessage::Error { message, .. } => Err(IpcError::Server(message)),
        other => Err(IpcError::Unexpected(other)),
    }
}

/// Reads the answer to `GetComponentStatus`.
pub fn component_status_reply(reply: IpcMessage) -> (r: Result<ComponentStatus, IpcError>)
    ensures
        r == reply_outcome(
            reply,
            match reply {
                IpcMessage::ComponentStatusUpdate(c) => Some(c),
                _ => None,
            },
        ),
{
    match reply {
        IpcMessage::ComponentStatusUpdate(c) => Ok(c),
        IpcMessage::Error { message, .. } => Err(IpcError::Server(message)),
        other => Err(IpcError::Unexpected(other)),
    }
}

/// Reads the answer to `GetPerformanceProfile`.
pub fn performance_profile_reply(reply: IpcMessage) -> (r: Result<PerformanceProfile, IpcError>)
    ensures
        r == reply_outcome(
            reply,
            match reply {
                IpcMessage::PerformanceProfileResponse(p) => Some(p),
                _ => None,
            },
        ),
{
    match reply {
        IpcMessage::PerformanceProfileResponse(p) => Ok(p),
        IpcMessage::Error { message, .. } => Err(IpcError::Server(message)),
        other => Err(IpcError::Unexpected(other)),
    }
}

/// Reads the answer to `GetAlerts`.
pub fn alerts_reply(reply: IpcMessage) -> (r: Result<Vec<AlertNotification>, IpcError>)
    ensures
        r == reply_outcome(
            reply,
            match reply {
                IpcMessage::Alerts(a) => Some(a),
                _ => None,
            },
        ),
{
    match reply {
        IpcMessage::Alerts(a) => Ok(a),
        IpcMessage::Error { message, .. } => Err(IpcError::Server(message)),
        other => Err(IpcError::Unexpected(other)),
    }
}

/// Reads the answer to `GetLogs`.
pub fn logs_reply(reply: IpcMessage) -> (r: Result<Vec<LogEntry>, IpcError>)
    ensures
        r == reply_outcome(
            reply,
            match reply {
                IpcMessage::LogEntries(l) => Some(l),
                _ => None,
            },
        ),
{
    match reply {
        IpcMessage::LogEntries(l) => Ok(l),
        IpcMessage::Error { message, .. } => Err(IpcError::Server(message)),
        other => Err(IpcError::Unexpected(other)),
    }
}

/// Reads the answer to `GetVersion`.
pub fn version_reply(reply: IpcMessage) -> (r: Result<VersionInfo, IpcError>)
    ensures
        r == reply_outcome(
            reply,
            match reply {
                IpcMessage::VersionInfo(v) => Some(v),
                _ => None,
            },
        ),
{
    match reply {
        IpcMessage::VersionInfo(v) => Ok(v),
        IpcMessage::Error { message, .. } => Err(IpcError::Server(message)),
        other => Err(IpcError::Unexpected(other)),
    }
}

/// Reads the answer to `GetQuarantinedFiles`.
pub fn quarantined_files_reply(reply: IpcMessage) -> (r: Result<Vec<QuarantineEntry>, IpcError>)
    ensures
        r == reply_outcome(
            reply,
            match reply {
                IpcMessage::QuarantinedFiles(f) => Some(f),
                _ => None,
            },
        ),
{
    match reply {
        IpcMessage::QuarantinedFiles(f) => Ok(f),
        IpcMessage::Error { message, .. } => Err(IpcError::Server(message)),
        other => Err(IpcError::Unexpected(other)),
    }
}

/// Reads the answer to `GetProcessTree`.
pub fn process_tree_reply(reply: IpcMessage) -> (r: Result<Vec<ProcessInfo>, IpcError>)
    ensures
        r == reply_outcome(
            reply,
            match reply {
                IpcMessage::ProcessTree(t) => Some(t),
                _ => None,
            },
        ),
{
    match reply {
        IpcMessage::ProcessTree(t) => Ok(t),
        IpcMessage::Error { message, .. } => Err(IpcError::Server(message)),
        other => Err(IpcError::Unexpected(other)),
    }
}

/// Reads the answer to a request that is acknowledged with `Success`
/// (starting a scan, restoring or deleting a quarantined file, killing a
/// process, executing an action, acknowledging an alert).
pub fn success_reply(reply: IpcMessage) -> (r: Result<(), IpcError>)
    ensures
        r == reply_outcome(
            reply,
            match reply {
                IpcMessage::Success => Some(()),
                _ => None,
            },
        ),
{
    match reply {
        IpcMessage::Success => Ok(()),
        IpcMessage::Error { message, .. } => Err(IpcError::Server(message)),
        other => Err(IpcError::Unexpected(other)),
    }
}

/// Whether an error code is `AUTH_REQUIRED`.
pub open spec fn is_auth_required(code: Option<String>) -> bool {
    match code {
        Some(c) => c@ == "AUTH_REQUIRED"@,
        None => false,
    }
}

/// Reads the answer to `SetPerformanceProfile`: `ProfileChanged` and
/// `Success` accept the change; an `Error` with the code `AUTH_REQUIRED` asks
/// for authentication.
pub fn profile_change_reply(reply: IpcMessage) -> (r: Result<(), IpcError>)
    ensures
        match reply {
            IpcMessage::ProfileChanged { .. } | IpcMessage::Success => r is Ok,
            IpcMessage::Error { message, code } => if is_auth_required(code) {
                r matches Err(IpcError::AuthRequiredByServer)
            } else {
                r == Err::<(), IpcError>(IpcError::Server(message))
            },
            _ => r == Err::<(), IpcError>(IpcError::Unexpected(reply)),
        },
{
    match reply {
        IpcMessage::ProfileChanged { .. } => Ok(()),
        IpcMessage::Success => Ok(()),
        IpcMessage::Error { message, code } => {
            let auth = match &code {
                Some(c) => {
                    let cc = chars_of(c.as_str());
                    chars_eq_str(cc.as_slice(), "AUTH_REQUIRED")
                },
                None => false,
            };
            if auth {
                Err(IpcError::AuthRequiredByServer)
            } else {
                Err(IpcError::Server(message))
            }
        },
        other => Err(IpcError::Unexpected(other)),
    }
}

// ==================== Connecting ====================

/// How many times a failed connection attempt is retried.
pub const MAX_CONNECT_RETRIES: u32 = 5;

/// The wait before retry number `retries + 1`, in milliseconds: 100 ms,
/// doubled for each earlier retry.
pub open spec fn retry_delay_spec(retries: nat) -> nat
    decreases retries,
{
    if retries == 0 {
        100
    } else {
        2 * retry_delay_spec((retries - 1) as nat)
    }
}

/// The wait after failed attempt number `retries + 1`: `None` once
/// `MAX_CONNECT_RETRIES` retries were made, when the caller gives up.
pub fn retry_delay_ms(retries: u32) -> (r: Option<u64>)
    ensures
        retries < MAX_CONNECT_RETRIES ==> r == Some(retry_delay_spec(retries as nat) as u64),
        retries >= MAX_CONNECT_RETRIES ==> r is None,
{
    if retries >= MAX_CONNECT_RETRIES {
        return None;
    }
    let mut delay: u64 = 100;
    let mut i: u32 = 0;
    while i < retries
        invariant
            i <= retries < MAX_CONNECT_RETRIES,
            delay == retry_delay_spec(i as nat),
            delay <= 1600,
        decreases retries - i,
    {
        assert(delay <= 800) by {
            reveal_with_fuel(retry_delay_spec, 5);
        }
        delay = delay * 2;
        i = i + 1;
    }
    Some(delay)
}

// ==================== Framing ====================

/// Bytes of the length prefix of a frame.
pub const FRAME_HEADER_LEN: usize = 4;

/// Why bytes do not hold a frame.
#[derive(Debug, PartialEq, Eq, Structural)]
pub enum FrameError {
    /// The body is longer than `MAX_MESSAGE_SIZE`; the length is given.
    TooLarge(u64),
    /// Fewer bytes than the prefix announces.
    Truncated,
}

/// The four big-endian bytes of a length below 2^32.
pub open spec fn be4(n: nat) -> Seq<u8> {
    seq![
        (n / 16777216 % 256) as u8,
        (n / 65536 % 256) as u8,
        (n / 256 % 256) as u8,
        (n % 256) as u8,
    ]
}

/// The length that four header bytes announce.
pub open spec fn header_value(h: Seq<u8>) -> nat {
    (h[0] as nat) * 16777216 + (h[1] as nat) * 65536 + (h[2] as nat) * 256 + (h[3] as nat)
}

/// A frame: the body's length as four big-endian bytes, then the body.
pub open spec fn frame_spec(body: Seq<u8>) -> Seq<u8> {
    be4(body.len()) + body
}

/// What decoding the start of `buf` gives: the body and the number of bytes
/// the frame took.
pub open spec fn decode_spec(buf: Seq<u8>) -> Result<(Seq<u8>, nat), FrameError> {
    if buf.len() < 4 {
        Err(FrameError::Truncated)
    } else if header_value(buf.take(4)) > MAX_MESSAGE_SIZE {
        Err(FrameError::TooLarge(header_value(buf.take(4)) as u64))
    } else if buf.len() < 4 + header_value(buf.take(4)) {
        Err(FrameError::Truncated)
    } else {
        Ok((buf.subrange(4, 4 + header_value(buf.take(4)) as int), 4 + header_value(buf.take(4))))
    }
}

proof fn lemma_be4_roundtrip(n: nat)
    requires
        n < 0x1_0000_0000,
    ensures
        header_value(be4(n)) == n,
        be4(n).len() == 4,
{
    assert(n / 16777216 < 256);
    assert(n / 16777216 % 256 == n / 16777216);
    assert(header_value(be4(n)) == n) by (nonlinear_arith)
        requires
            n < 0x1_0000_0000,
            n / 16777216 % 256 == n / 16777216,
    {
    }
}

/// Frames a message body; bodies longer than `MAX_MESSAGE_SIZE` are refused.
pub fn encode_frame(body: &[u8]) -> (r: Result<Vec<u8>, FrameError>)
    ensures
        body@.len() <= MAX_MESSAGE_SIZE ==> (r matches Ok(f) && f@ == frame_spec(body@)),
        body@.len() > MAX_MESSAGE_SIZE ==> r == Err::<Vec<u8>, FrameError>(
            FrameError::TooLarge(body@.len() as u64),
        ),
{
    let len = body.len();
    if len > MAX_MESSAGE_SIZE {
        return Err(FrameError::TooLarge(len as u64));
    }
    let n: u32 = len as u32;
    let mut out: Vec<u8> = Vec::new();
    out.push((n / 16777216 % 256) as u8);
    out.push((n / 65536 % 256) as u8);
    out.push((n / 256 % 256) as u8);
    out.push((n % 256) as u8);
    let ghost head = out@;
    assert(head =~= be4(len as nat));
    let mut i: usize = 0;
    while i < len
        invariant
            len == body@.len(),
            0 <= i <= len,
            head == be4(len as nat),
            out@ == head + body@.take(i as int),
        decreases len - i,
    {
        out.push(body[i]);
        i = i + 1;
        assert(out@ =~= head + body@.take(i as int));
    }
    assert(body@.take(len as int) =~= body@);
    Ok(out)
}

/// The body length that a frame header announces; `TooLarge` above
/// `MAX_MESSAGE_SIZE`.
pub fn frame_body_len(header: &[u8]) -> (r: Result<usize, FrameError>)
    requires
        header@.len() == FRAME_HEADER_LEN,
    ensures
        header_value(header@) <= MAX_MESSAGE_SIZE ==> r == Ok::<usize, FrameError>(
            header_value(header@) as usize,
        ),
        header_value(header@) > MAX_MESSAGE_SIZE ==> r == Err::<usize, FrameError>(
            FrameError::TooLarge(header_value(header@) as u64),
        ),
{
    let v: u64 = (header[0] as u64) * 16777216 + (header[1] as u64) * 65536 + (header[2] as u64)
        * 256 + (header[3] as u64);
    if v > MAX_MESSAGE_SIZE as u64 {
        Err(FrameError::TooLarge(v))
    } else {
        Ok(v as usize)
    }
}

/// Reads one frame from the start of `buf`: its body and the number of
/// bytes it took.
pub fn decode_frame(buf: &[u8]) -> (r: Result<(Vec<u8>, usize), FrameError>)
    ensures
        match r {
            Ok((body, used)) => decode_spec(buf@) == Ok::<(Seq<u8>, nat), FrameError>(
                (body@, used as nat),
            ),
            Err(e) => decode_spec(buf@) == Err::<(Seq<u8>, nat), FrameError>(e),
        },
{
    if buf.len() < FRAME_HEADER_LEN {
        return Err(FrameError::Truncated);
    }
    let header = slice_prefix(buf, FRAME_HEADER_LEN);
    assert(header@ =~= buf@.take(4));
    let n = match frame_body_len(header.as_slice()) {
        Ok(n) => n,
        Err(e) => return Err(e),
    };
    if buf.len() - FRAME_HEADER_LEN < n {
        return Err(FrameError::Truncated);
    }
    let mut body: Vec<u8> = Vec::new();
    let mut i: usize = 0;
    while i < n
        invariant
            0 <= i <= n,
            4 + n <= buf.len(),
            body@ == buf@.subrange(4, 4 + i),
        decreases n - i,
    {
        body.push(buf[FRAME_HEADER_LEN + i]);
        i = i + 1;
        assert(body@ =~= buf@.subrange(4, 4 + i));
    }
    Ok((body, FRAME_HEADER_LEN + n))
}

fn slice_prefix(buf: &[u8], n: usize) -> (r: Vec<u8>)
    requires
        n <= buf@.len(),
    ensures
        r@ == buf@.take(n as int),
{
    let mut out: Vec<u8> = Vec::new();
    let mut i: usize = 0;
    while i < n
        invariant
            0 <= i <= n <= buf@.len(),
            out@ == buf@.take(i as int),
        decreases n - i,
    {
        out.push(buf[i]);
        i = i + 1;
        assert(out@ =~= buf@.take(i as int));
    }
    out
}

/// Reading back a frame gives the body it was made from, whatever bytes
/// follow it.
pub proof fn lemma_frame_roundtrip(body: Seq<u8>, rest: Seq<u8>)
    requires
        body.len() <= MAX_MESSAGE_SIZE,
    ensures
        decode_spec(frame_spec(body) + rest) == Ok::<(Seq<u8>, nat), FrameError>(
            (body, 4 + body.len()),
        ),
{
    lemma_be4_roundtrip(body.len());
    let buf = frame_spec(body) + rest;
    assert(buf.take(4) =~= be4(body.len()));
    assert(buf.subrange(4, 4 + body.len() as int) =~= body);
}

// ==================== Platform paths ====================

/// The operating systems the agent runs on.
#[derive(Clone, Copy, Debug, PartialEq, Eq, Structural)]
pub enum Platform {
    Windows,
    MacOs,
    Linux,
}

/// Where the agent listens: a named pipe on Windows, a Unix socket elsewhere.
pub open spec fn socket_path_spec(platform: Platform) -> Seq<char> {
    match platform {
        Platform::Windows => "\\\\.\\pipe\\tamandua-agent"@,
        Platform::MacOs => "/Library/Application Support/Tamandua/agent.sock"@,
        Platform::Linux => "/var/run/tamandua/agent.sock"@,
    }
}

/// Where the agent keeps the IPC token.
pub open spec fn token_path_spec(platform: Platform) -> Seq<char> {
    match platform {
        Platform::Windows => "C:\\ProgramData\\Tamandua\\ipc_token.json"@,
        Platform::MacOs => "/Library/Application Support/Tamandua/ipc_token.json"@,
        Platform::Linux => "/var/lib/tamandua/ipc_token.json"@,
    }
}

/// The default IPC endpoint of the agent on a platform.
pub fn default_socket_path(platform: Platform) -> (r: String)
    ensures
        r@ == socket_path_spec(platform),
{
    let s: &str = match platform {
        Platform::Windows => "\\\\.\\pipe\\tamandua-agent",
        Platform::MacOs => "/Library/Application Support/Tamandua/agent.sock",
        Platform::Linux => "/var/run/tamandua/agent.sock",
    };
    s.to_owned()
}

/// The default path of the agent's IPC token file on a platform.
pub fn default_token_path(platform: Platform) -> (r: String)
    ensures
        r@ == token_path_spec(platform),
{
    let s: &str = match platform {
        Platform::Windows => "C:\\ProgramData\\Tamandua\\ipc_token.json",
        Platform::MacOs => "/Library/Application Support/Tamandua/ipc_token.json",
        Platform::Linux => "/var/lib/tamandua/ipc_token.json",
    };
    s.to_owned()
}

/// Why the token file could not be read.
#[derive(Clone, Copy, Debug, PartialEq, Eq, Structural)]
pub enum TokenReadFailure {
    NotFound,
    PermissionDenied,
    Other,
}

/// The advice given when the token file may not be read.
pub open spec fn elevation_hint(platform: Platform) -> Seq<char> {
    match platform {
        Platform::Windows => "The CLI must 'Run as Administrator' to authenticate with the Agent service."@,
        _ => "The CLI must run with elevated privileges (sudo) to authenticate with the Agent service."@,
    }
}

/// The message for a token file that could not be read, given the path as
/// shown and, for other failures, the error's own text.
pub open spec fn token_read_message_spec(
    failure: TokenReadFailure,
    path: Seq<char>,
    detail: Seq<char>,
    platform: Platform,
) -> Seq<char> {
    match failure {
        TokenReadFailure::NotFound => "Token file not found at "@ + path
            + ". Is the Tamandua Agent service installed and running?"@,
        TokenReadFailure::PermissionDenied => "Permission denied reading token file: "@ + path
            + ". "@ + elevation_hint(platform),
        TokenReadFailure::Other => "Failed to read token file "@ + path + ": "@ + detail,
    }
}

/// The message for a token file that could not be read.
pub fn token_read_message(
    failure: TokenReadFailure,
    path: &str,
    detail: &str,
    platform: Platform,
) -> (r: String)
    ensures
        r@ == token_read_message_spec(failure, path@, detail@, platform),
{
    let mut v: Vec<char> = Vec::new();
    match failure {
        TokenReadFailure::NotFound => {
            push_str(&mut v, "Token file not found at ");
            push_str(&mut v, path);
            push_str(&mut v, ". Is the Tamandua Agent service installed and running?");
        },
        TokenReadFailure::PermissionDenied => {
            push_str(&mut v, "Permission denied reading token file: ");
            push_str(&mut v, path);
            push_str(&mut v, ". ");
            match platform {
                Platform::Windows => push_str(
                    &mut v,
                    "The CLI must 'Run as Administrator' to authenticate with the Agent service.",
                ),
                _ => push_str(
                    &mut v,
                    "The CLI must run with elevated privileges (sudo) to authenticate with the Agent service.",
                ),
            }
        },
        TokenReadFailure::Other => {
            push_str(&mut v, "Failed to read token file ");
            push_str(&mut v, path);
            push_str(&mut v, ": ");
            push_str(&mut v, detail);
        },
    }
    string_of(v.as_slice())
}

} // verus!
