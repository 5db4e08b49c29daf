//! The `config` command: reading a setting of the agent by key, turning
//! `config set <key> <value>` into a change, the performance profiles, and
//! the agent's answers.

use crate::cli::PerformanceProfileArg;
use crate::ipc::{
    profile_name, AgentConfigUpdate, AgentStatus, F32Bits, IpcMessage, PerformanceProfile,
};
use crate::text::{
    chars_eq_str, chars_of, dec_nat, dec_u64, join_seq, join_strings, parse_int_spec, parse_u64,
    push_str, spec_to_lowercase, string_of, strings_view, to_lowercase,
};
use vstd::prelude::*;

verus! {

// ==================== config get ====================

/// The keys `config get` knows.
#[derive(Clone, Copy, Debug, PartialEq, Eq, Structural)]
pub enum ConfigGetKey {
    AgentId,
    Version,
    Protection,
    Collectors,
    Profile,
    Backend,
    Cpu,
    Memory,
    Uptime,
}

/// The key that `config get` reads for a name, with its aliases; the name is
/// matched exactly.
pub open spec fn get_key_spec(k: Seq<char>) -> Option<ConfigGetKey> {
    if k == "agent_id"@ {
        Some(ConfigGetKey::AgentId)
    } else if k == "version"@ {
        Some(ConfigGetKey::Version)
    } else if k == "protection_enabled"@ || k == "protection"@ {
        Some(ConfigGetKey::Protection)
    } else if k == "collectors"@ || k == "collectors_running"@ {
        Some(ConfigGetKey::Collectors)
    } else if k == "profile"@ || k == "performance_profile"@ {
        Some(ConfigGetKey::Profile)
    } else if k == "backend_connected"@ || k == "backend"@ {
        Some(ConfigGetKey::Backend)
    } else if k == "cpu_usage"@ || k == "cpu"@ {
        Some(ConfigGetKey::Cpu)
    } else if k == "memory_usage"@ || k == "memory"@ {
        Some(ConfigGetKey::Memory)
    } else if k == "uptime"@ {
        Some(ConfigGetKey::Uptime)
    } else {
        None
    }
}

/// What `config get` reads: each key name and its alias name one setting
/// (matched exactly), any other name none; and each setting is shown from
/// its own field of the agent's status: id, version, protection and backend
/// as `true`/`false`, the profile's name, uptime in seconds and memory in
/// whole mebibytes.
#[verifier::rlimit(50)]
pub proof fn lemma_config_get_law(k: Seq<char>, status: AgentStatus, profile: PerformanceProfile)
    ensures
        get_key_spec("agent_id"@) == Some(ConfigGetKey::AgentId),
        get_key_spec("version"@) == Some(ConfigGetKey::Version),
        get_key_spec("protection_enabled"@) == Some(ConfigGetKey::Protection),
        get_key_spec("protection"@) == Some(ConfigGetKey::Protection),
        get_key_spec("collectors"@) == Some(ConfigGetKey::Collectors),
        get_key_spec("collectors_running"@) == Some(ConfigGetKey::Collectors),
        get_key_spec("profile"@) == Some(ConfigGetKey::Profile),
        get_key_spec("performance_profile"@) == Some(ConfigGetKey::Profile),
        get_key_spec("backend_connected"@) == Some(ConfigGetKey::Backend),
        get_key_spec("backend"@) == Some(ConfigGetKey::Backend),
        get_key_spec("cpu_usage"@) == Some(ConfigGetKey::Cpu),
        get_key_spec("cpu"@) == Some(ConfigGetKey::Cpu),
        get_key_spec("memory_usage"@) == Some(ConfigGetKey::Memory),
        get_key_spec("memory"@) == Some(ConfigGetKey::Memory),
        get_key_spec("uptime"@) == Some(ConfigGetKey::Uptime),
        (k != "agent_id"@ && k != "version"@ && k != "protection_enabled"@ && k != "protection"@ && k != "collectors"@ && k != "collectors_running"@ && k != "profile"@ && k != "performance_profile"@ && k != "backend_connected"@ && k != "backend"@ && k != "cpu_usage"@ && k != "cpu"@ && k != "memory_usage"@ && k != "memory"@ && k != "uptime"@) ==> get_key_spec(k) is None,
        value_text_spec(ConfigGetKey::AgentId, status, profile) == status.agent_id@,
        value_text_spec(ConfigGetKey::Version, status, profile) == status.version@,
        value_text_spec(ConfigGetKey::Protection, status, profile) == (if status.protection_enabled {
            "true"@
        } else {
            "false"@
        }),
        value_text_spec(ConfigGetKey::Backend, status, profile) == (if status.backend_connected {
            "true"@
        } else {
            "false"@
        }),
        value_text_spec(ConfigGetKey::Profile, status, profile) == profile_name(profile),
        value_text_spec(ConfigGetKey::Uptime, status, profile) == dec_nat(status.uptime_seconds as nat)
            + " seconds"@,
        value_text_spec(ConfigGetKey::Memory, status, profile) == dec_nat(
            status.memory_usage as nat / 1048576,
        ) + " MB"@,
{
    reveal_strlit("agent_id");
    reveal_strlit("version");
    reveal_strlit("protection_enabled");
    reveal_strlit("protection");
    reveal_strlit("collectors");
    reveal_strlit("collectors_running");
    reveal_strlit("profile");
    reveal_strlit("performance_profile");
    reveal_strlit("backend_connected");
    reveal_strlit("backend");
    reveal_strlit("cpu_usage");
    reveal_strlit("cpu");
    reveal_strlit("memory_usage");
    reveal_strlit("memory");
    reveal_strlit("uptime");
    assert("version"@.len() != "agent_id"@.len());
    assert("protection_enabled"@.len() != "agent_id"@.len());
    assert("protection_enabled"@.len() != "version"@.len());
    assert("protection"@.len() != "agent_id"@.len());
    assert("protection"@.len() != "version"@.len());
    assert("protection"@.len() != "protection_enabled"@.len());
    assert("collectors"@.len() != "agent_id"@.len());
    assert("collectors"@.len() != "version"@.len());
    assert("collectors"@.len() != "protection_enabled"@.len());
    assert("collectors"@[0] != "protection"@[0]);
    assert("collectors_running"@.len() != "agent_id"@.len());
    assert("collectors_running"@.len() != "version"@.len());
    assert("collectors_running"@[0] != "protection_enabled"@[0]);
    assert("collectors_running"@.len() != "protection"@.len());
    assert("collectors_running"@.len() != "collectors"@.len());
    assert("profile"@.len() != "agent_id"@.len());
    assert("profile"@[0] != "version"@[0]);
    assert("profile"@.len() != "protection_enabled"@.len());
    assert("profile"@.len() != "protection"@.len());
    assert("profile"@.len() != "collectors"@.len());
    assert("profile"@.len() != "collectors_running"@.len());
    assert("performance_profile"@.len() != "agent_id"@.len());
    assert("performance_profile"@.len() != "version"@.len());
    assert("performance_profile"@.len() != "protection_enabled"@.len());
    assert("performance_profile"@.len() != "protection"@.len());
    assert("performance_profile"@.len() != "collectors"@.len());
    assert("performance_profile"@.len() != "collectors_running"@.len());
    assert("performance_profile"@.len() != "profile"@.len());
    assert("backend_connected"@.len() != "agent_id"@.len());
    assert("backend_connected"@.len() != "version"@.len());
    assert("backend_connected"@.len() != "protection_enabled"@.len());
    assert("backend_connected"@.len() != "protection"@.len());
    assert("backend_connected"@.len() != "collectors"@.len());
    assert("backend_connected"@.len() != "collectors_running"@.len());
    assert("backend_connected"@.len() != "profile"@.len());
    assert("backend_connected"@.len() != "performance_profile"@.len());
    assert("backend"@.len() != "agent_id"@.len());
    assert("backend"@[0] != "version"@[0]);
    assert("backend"@.len() != "protection_enabled"@.len());
    assert("backend"@.len() != "protection"@.len());
    assert("backend"@.len() != "collectors"@.len());
    assert("backend"@.len() != "collectors_running"@.len());
    assert("backend"@[0] != "profile"@[0]);
    assert("backend"@.len() != "performance_profile"@.len());
    assert("backend"@.len() != "backend_connected"@.len());
    assert("cpu_usage"@.len() != "agent_id"@.len());
    assert("cpu_usage"@.len() != "version"@.len());
    assert("cpu_usage"@.len() != "protection_enabled"@.len());
    assert("cpu_usage"@.len() != "protection"@.len());
    assert("cpu_usage"@.len() != "collectors"@.len());
    assert("cpu_usage"@.len() != "collectors_running"@.len());
    assert("cpu_usage"@.len() != "profile"@.len());
    assert("cpu_usage"@.len() != "performance_profile"@.len());
    assert("cpu_usage"@.len() != "backend_connected"@.len());
    assert("cpu_usage"@.len() != "backend"@.len());
    assert("cpu"@.len() != "agent_id"@.len());
    assert("cpu"@.len() != "version"@.len());
    assert("cpu"@.len() != "protection_enabled"@.len());
    assert("cpu"@.len() != "protection"@.len());
    assert("cpu"@.len() != "collectors"@.len());
    assert("cpu"@.len() != "collectors_running"@.len());
    assert("cpu"@.len() != "profile"@.len());
    assert("cpu"@.len() != "performance_profile"@.len());
    assert("cpu"@.len() != "backend_connected"@.len());
    assert("cpu"@.len() != "backend"@.len());
    assert("cpu"@.len() != "cpu_usage"@.len());
    assert("memory_usage"@.len() != "agent_id"@.len());
    assert("memory_usage"@.len() != "version"@.len());
    assert("memory_usage"@.len() != "protection_enabled"@.len());
    assert("memory_usage"@.len() != "protection"@.len());
    assert("memory_usage"@.len() != "collectors"@.len());
    assert("memory_usage"@.len() != "collectors_running"@.len());
    assert("memory_usage"@.len() != "profile"@.len());
    assert("memory_usage"@.len() != "performance_profile"@.len());
    assert("memory_usage"@.len() != "backend_connected"@.len());
    assert("memory_usage"@.len() != "backend"@.len());
    assert("memory_usage"@.len() != "cpu_usage"@.len());
    assert("memory_usage"@.len() != "cpu"@.len());
    assert("memory"@.len() != "agent_id"@.len());
    assert("memory"@.len() != "version"@.len());
    assert("memory"@.len() != "protection_enabled"@.len());
    assert("memory"@.len() != "protection"@.len());
    assert("memory"@.len() != "collectors"@.len());
    assert("memory"@.len() != "collectors_running"@.len());
    assert("memory"@.len() != "profile"@.len());
    assert("memory"@.len() != "performance_profile"@.len());
    assert("memory"@.len() != "backend_connected"@.len());
    assert("memory"@.len() != "backend"@.len());
    assert("memory"@.len() != "cpu_usage"@.len());
    assert("memory"@.len() != "cpu"@.len());
    assert("memory"@.len() != "memory_usage"@.len());
    assert("uptime"@.len() != "agent_id"@.len());
    assert("uptime"@.len() != "version"@.len());
    assert("uptime"@.len() != "protection_enabled"@.len());
    assert("uptime"@.len() != "protection"@.len());
    assert("uptime"@.len() != "collectors"@.len());
    assert("uptime"@.len() != "collectors_running"@.len());
    assert("uptime"@.len() != "profile"@.len());
    assert("uptime"@.len() != "performance_profile"@.len());
    assert("uptime"@.len() != "backend_connected"@.len());
    assert("uptime"@.len() != "backend"@.len());
    assert("uptime"@.len() != "cpu_usage"@.len());
    assert("uptime"@.len() != "cpu"@.len());
    assert("uptime"@.len() != "memory_usage"@.len());
    assert("uptime"@[0] != "memory"@[0]);
}

/// The key that `config get` reads for a name; `None` for an unknown key.
pub fn config_get_key(key: &str) -> (r: Option<ConfigGetKey>)
    ensures
        r == get_key_spec(key@),
{
    let k = chars_of(key);
    let k = k.as_slice();
    if chars_eq_str(k, "agent_id") {
        Some(ConfigGetKey::AgentId)
    } else if chars_eq_str(k, "version") {
        Some(ConfigGetKey::Version)
    } else if chars_eq_str(k, "protection_enabled") || chars_eq_str(k, "protection") {
        Some(ConfigGetKey::Protection)
    } else if chars_eq_str(k, "collectors") || chars_eq_str(k, "collectors_running") {
        Some(ConfigGetKey::Collectors)
    } else if chars_eq_str(k, "profile") || chars_eq_str(k, "performance_profile") {
        Some(ConfigGetKey::Profile)
    } else if chars_eq_str(k, "backend_connected") || chars_eq_str(k, "backend") {
        Some(ConfigGetKey::Backend)
    } else if chars_eq_str(k, "cpu_usage") || chars_eq_str(k, "cpu") {
        Some(ConfigGetKey::Cpu)
    } else if chars_eq_str(k, "memory_usage") || chars_eq_str(k, "memory") {
        Some(ConfigGetKey::Memory)
    } else if chars_eq_str(k, "uptime") {
        Some(ConfigGetKey::Uptime)
    } else {
        None
    }
}

/// Whether reading the key needs the performance profile, which is asked
/// for separately.
pub fn needs_profile(key: ConfigGetKey) -> (r: bool)
    ensures
        r == (key == ConfigGetKey::Profile),
{
    match key {
        ConfigGetKey::Profile => true,
        _ => false,
    }
}

/// A setting's value as `config get` shows it; the CPU load is a
/// measurement, shown with one decimal and a `%`.
#[derive(Debug)]
pub enum ConfigValue {
    Text(String),
    CpuPercent(F32Bits),
}

/// `true` or `false`.
pub open spec fn bool_text(b: bool) -> Seq<char> {
    if b {
        "true"@
    } else {
        "false"@
    }
}

/// The text of a value read by `config get` for every key but the CPU load.
pub open spec fn value_text_spec(
    key: ConfigGetKey,
    status: AgentStatus,
    profile: PerformanceProfile,
) -> Seq<char> {
    match key {
        ConfigGetKey::AgentId => status.agent_id@,
        ConfigGetKey::Version => status.version@,
        ConfigGetKey::Protection => bool_text(status.protection_enabled),
        ConfigGetKey::Collectors => join_seq(strings_view(status.collectors_running@), ", "@),
        ConfigGetKey::Profile => profile_name(profile),
        ConfigGetKey::Backend => bool_text(status.backend_connected),
        ConfigGetKey::Memory => dec_nat(status.memory_usage as nat / 1024 / 1024) + " MB"@,
        ConfigGetKey::Uptime => dec_nat(status.uptime_seconds as nat) + " seconds"@,
        ConfigGetKey::Cpu => Seq::empty(),
    }
}

fn bool_string(b: bool) -> (r: Vec<char>)
    ensures
        r@ == bool_text(b),
{
    if b {
        chars_of("true")
    } else {
        chars_of("false")
    }
}

/// The value `config get` shows for a key; `profile` is the agent's
/// performance profile, read only for `ConfigGetKey::Profile`.
pub fn config_value(key: ConfigGetKey, status: &AgentStatus, profile: PerformanceProfile) -> (r:
    ConfigValue)
    ensures
        key == ConfigGetKey::Cpu ==> r == ConfigValue::CpuPercent(status.cpu_usage),
        key != ConfigGetKey::Cpu ==> (r matches ConfigValue::Text(t) && t@ == value_text_spec(
            key,
            *status,
            profile,
        )),
{
    let text: Vec<char> = match key {
        ConfigGetKey::Cpu => return ConfigValue::CpuPercent(status.cpu_usage),
        ConfigGetKey::AgentId => chars_of(status.agent_id.as_str()),
        ConfigGetKey::Version => chars_of(status.version.as_str()),
        ConfigGetKey::Protection => bool_string(status.protection_enabled),
        ConfigGetKey::Collectors => join_strings(status.collectors_running.as_slice(), ", "),
        ConfigGetKey::Profile => chars_of(profile.to_string().as_str()),
        ConfigGetKey::Backend => bool_string(status.backend_connected),
        ConfigGetKey::Memory => {
            let mut v = dec_u64(status.memory_usage / 1024 / 1024);
            push_str(&mut v, " MB");
            v
        },
        ConfigGetKey::Uptime => {
            let mut v = dec_u64(status.uptime_seconds);
            push_str(&mut v, " seconds");
            v
        },
    };
    ConfigValue::Text(string_of(text.as_slice()))
}

// ==================== config set ====================

/// The keys `config set` can change.
#[derive(Clone, Copy, Debug, PartialEq, Eq, Structural)]
pub enum SettableKey {
    Protection,
    CloudLookup,
    ScanInterval,
    HeartbeatInterval,
    Profile,
}

/// The key that a lower-cased name changes, with its aliases.
pub open spec fn settable_key_spec(k: Seq<char>) -> Option<SettableKey> {
    if k == "protection"@ || k == "protection_enabled"@ || k == "real_time_protection"@ {
        Some(SettableKey::Protection)
    } else if k == "cloud_lookup"@ || k == "enable_cloud_lookup"@ {
        Some(SettableKey::CloudLookup)
    } else if k == "scan_interval"@ || k == "scan_interval_seconds"@ {
        Some(SettableKey::ScanInterval)
    } else if k == "heartbeat_interval"@ || k == "heartbeat_interval_seconds"@ {
        Some(SettableKey::HeartbeatInterval)
    } else if k == "profile"@ || k == "performance_profile"@ {
        Some(SettableKey::Profile)
    } else {
        None
    }
}

/// The boolean a lower-cased word names: `true`, `yes`, `1`, `on`,
/// `enabled`, or `false`, `no`, `0`, `off`, `disabled`.
pub open spec fn bool_word(w: Seq<char>) -> Option<bool> {
    if w == "true"@ || w == "yes"@ || w == "1"@ || w == "on"@ || w == "enabled"@ {
        Some(true)
    } else if w == "false"@ || w == "no"@ || w == "0"@ || w == "off"@ || w == "disabled"@ {
        Some(false)
    } else {
        None
    }
}

/// The profile a lower-cased word names (`light` is short for
/// `lightweight`).
pub open spec fn profile_word(w: Seq<char>) -> Option<PerformanceProfile> {
    if w == "aggressive"@ {
        Some(PerformanceProfile::Aggressive)
    } else if w == "balanced"@ {
        Some(PerformanceProfile::Balanced)
    } else if w == "lightweight"@ || w == "light"@ {
        Some(PerformanceProfile::Lightweight)
    } else {
        None
    }
}

/// A change that `config set` asks for.
#[derive(Clone, Copy, Debug, PartialEq, Eq, Structural)]
pub enum ConfigSetting {
    RealTimeProtection(bool),
    CloudLookup(bool),
    ScanInterval(u64),
    HeartbeatInterval(u64),
    Profile(PerformanceProfile),
}

/// Why `config set` refuses its arguments.
#[derive(Clone, Copy, Debug, PartialEq, Eq, Structural)]
pub enum ConfigSetError {
    /// The value is not a boolean word.
    InvalidBool,
    /// The value is not a `u64`.
    InvalidNumber,
    /// The value names no profile.
    InvalidProfile,
    /// The key is unknown or cannot be changed.
    UnknownKey,
}

/// What `config set` makes of a lower-cased key `k`, the value `v` as given
/// and the value lower-cased `vl`: the protection keys and the cloud-lookup
/// keys take a boolean word (`true`, `yes`, `1`, `on`, `enabled` or their
/// opposites), the scan- and heartbeat-interval keys a whole number of
/// seconds, the profile keys a profile name, each setting its own field;
/// any other key is refused as unknown.
#[verifier::rlimit(50)]
pub proof fn lemma_setting_law(k: Seq<char>, v: Seq<char>, vl: Seq<char>)
    ensures
        setting_spec("protection"@, v, vl) == (if vl == "true"@ || vl == "yes"@ || vl == "1"@ || vl == "on"@ || vl == "enabled"@ {
            Ok::<ConfigSetting, ConfigSetError>(ConfigSetting::RealTimeProtection(true))
        } else if vl == "false"@ || vl == "no"@ || vl == "0"@ || vl == "off"@ || vl == "disabled"@ {
            Ok(ConfigSetting::RealTimeProtection(false))
        } else {
            Err(ConfigSetError::InvalidBool)
        }),
        setting_spec("protection_enabled"@, v, vl) == (if vl == "true"@ || vl == "yes"@ || vl == "1"@ || vl == "on"@ || vl == "enabled"@ {
            Ok::<ConfigSetting, ConfigSetError>(ConfigSetting::RealTimeProtection(true))
        } else if vl == "false"@ || vl == "no"@ || vl == "0"@ || vl == "off"@ || vl == "disabled"@ {
            Ok(ConfigSetting::RealTimeProtection(false))
        } else {
            Err(ConfigSetError::InvalidBool)
        }),
        setting_spec("real_time_protection"@, v, vl) == (if vl == "true"@ || vl == "yes"@ || vl == "1"@ || vl == "on"@ || vl == "enabled"@ {
            Ok::<ConfigSetting, ConfigSetError>(ConfigSetting::RealTimeProtection(true))
        } else if vl == "false"@ || vl == "no"@ || vl == "0"@ || vl == "off"@ || vl == "disabled"@ {
            Ok(ConfigSetting::RealTimeProtection(false))
        } else {
            Err(ConfigSetError::InvalidBool)
        }),
        setting_spec("cloud_lookup"@, v, vl) == (if vl == "true"@ || vl == "yes"@ || vl == "1"@ || vl == "on"@ || vl == "enabled"@ {
            Ok::<ConfigSetting, ConfigSetError>(ConfigSetting::CloudLookup(true))
        } else if vl == "false"@ || vl == "no"@ || vl == "0"@ || vl == "off"@ || vl == "disabled"@ {
            Ok(ConfigSetting::CloudLookup(false))
        } else {
            Err(ConfigSetError::InvalidBool)
        }),
        setting_spec("enable_cloud_lookup"@, v, vl) == (if vl == "true"@ || vl == "yes"@ || vl == "1"@ || vl == "on"@ || vl == "enabled"@ {
            Ok::<ConfigSetting, ConfigSetError>(ConfigSetting::CloudLookup(true))
        } else if vl == "false"@ || vl == "no"@ || vl == "0"@ || vl == "off"@ || vl == "disabled"@ {
            Ok(ConfigSetting::CloudLookup(false))
        } else {
            Err(ConfigSetError::InvalidBool)
        }),
        setting_spec("scan_interval"@, v, vl) == (match parse_int_spec(v, false, 0, u64::MAX as int) {
            Some(n) => Ok::<ConfigSetting, ConfigSetError>(ConfigSetting::ScanInterval(n as u64)),
            None => Err(ConfigSetError::InvalidNumber),
        }),
        setting_spec("scan_interval_seconds"@, v, vl) == (match parse_int_spec(v, false, 0, u64::MAX as int) {
            Some(n) => Ok::<ConfigSetting, ConfigSetError>(ConfigSetting::ScanInterval(n as u64)),
            None => Err(ConfigSetError::InvalidNumber),
        }),
        setting_spec("heartbeat_interval"@, v, vl) == (match parse_int_spec(v, false, 0, u64::MAX as int) {
            Some(n) => Ok::<ConfigSetting, ConfigSetError>(ConfigSetting::HeartbeatInterval(n as u64)),
            None => Err(ConfigSetError::InvalidNumber),
        }),
        setting_spec("heartbeat_interval_seconds"@, v, vl) == (match parse_int_spec(v, false, 0, u64::MAX as int) {
            Some(n) => Ok::<ConfigSetting, ConfigSetError>(ConfigSetting::HeartbeatInterval(n as u64)),
            None => Err(ConfigSetError::InvalidNumber),
        }),
        setting_spec("profile"@, v, vl) == (if vl == "aggressive"@ {
            Ok::<ConfigSetting, ConfigSetError>(ConfigSetting::Profile(PerformanceProfile::Aggressive))
        } else if vl == "balanced"@ {
            Ok(ConfigSetting::Profile(PerformanceProfile::Balanced))
        } else if vl == "lightweight"@ || vl == "light"@ {
            Ok(ConfigSetting::Profile(PerformanceProfile::Lightweight))
        } else {
            Err(ConfigSetError::InvalidProfile)
        }),
        setting_spec("performance_profile"@, v, vl) == (if vl == "aggressive"@ {
            Ok::<ConfigSetting, ConfigSetError>(ConfigSetting::Profile(PerformanceProfile::Aggressive))
        } else if vl == "balanced"@ {
            Ok(ConfigSetting::Profile(PerformanceProfile::Balanced))
        } else if vl == "lightweight"@ || vl == "light"@ {
            Ok(ConfigSetting::Profile(PerformanceProfile::Lightweight))
        } else {
            Err(ConfigSetError::InvalidProfile)
        }),
        (k != "protection"@ && k != "protection_enabled"@ && k != "real_time_protection"@ && k != "cloud_lookup"@ && k != "enable_cloud_lookup"@ && k != "scan_interval"@ && k != "scan_interval_seconds"@ && k != "heartbeat_interval"@ && k != "heartbeat_interval_seconds"@ && k != "profile"@ && k != "performance_profile"@) ==> setting_spec(k, v, vl) == Err::<ConfigSetting, ConfigSetError>(ConfigSetError::UnknownKey),
{
    reveal_strlit("protection");
    reveal_strlit("protection_enabled");
    reveal_strlit("real_time_protection");
    reveal_strlit("cloud_lookup");
    reveal_strlit("enable_cloud_lookup");
    reveal_strlit("scan_interval");
    reveal_strlit("scan_interval_seconds");
    reveal_strlit("heartbeat_interval");
    reveal_strlit("heartbeat_interval_seconds");
    reveal_strlit("profile");
    reveal_strlit("performance_profile");
    reveal_strlit("true");
    reveal_strlit("yes");
    reveal_strlit("1");
    reveal_strlit("on");
    reveal_strlit("enabled");
    reveal_strlit("false");
    reveal_strlit("no");
    reveal_strlit("0");
    reveal_strlit("off");
    reveal_strlit("disabled");
    reveal_strlit("aggressive");
    reveal_strlit("balanced");
    reveal_strlit("lightweight");
    reveal_strlit("light");
    assert("protection_enabled"@.len() != "protection"@.len());
    assert("real_time_protection"@.len() != "protection"@.len());
    assert("real_time_protection"@.len() != "protection_enabled"@.len());
    assert("cloud_lookup"@.len() != "protection"@.len());
    assert("cloud_lookup"@.len() != "protection_enabled"@.len());
    assert("cloud_lookup"@.len() != "real_time_protection"@.len());
    assert("enable_cloud_lookup"@.len() != "protection"@.len());
    assert("enable_cloud_lookup"@.len() != "protection_enabled"@.len());
    assert("enable_cloud_lookup"@.len() != "real_time_protection"@.len());
    assert("enable_cloud_lookup"@.len() != "cloud_lookup"@.len());
    assert("scan_interval"@.len() != "protection"@.len());
    assert("scan_interval"@.len() != "protection_enabled"@.len());
    assert("scan_interval"@.len() != "real_time_protection"@.len());
    assert("scan_interval"@.len() != "cloud_lookup"@.len());
    assert("scan_interval"@.len() != "enable_cloud_lookup"@.len());
    assert("scan_interval_seconds"@.len() != "protection"@.len());
    assert("scan_interval_seconds"@.len() != "protection_enabled"@.len());
    assert("scan_interval_seconds"@.len() != "real_time_protection"@.len());
    assert("scan_interval_seconds"@.len() != "cloud_lookup"@.len());
    assert("scan_interval_seconds"@.len() != "enable_cloud_lookup"@.len());
    assert("scan_interval_seconds"@.len() != "scan_interval"@.len());
    assert("heartbeat_interval"@.len() != "protection"@.len());
    assert("heartbeat_interval"@[0] != "protection_enabled"@[0]);
    assert("heartbeat_interval"@.len() != "real_time_protection"@.len());
    assert("heartbeat_interval"@.len() != "cloud_lookup"@.len());
    assert("heartbeat_interval"@.len() != "enable_cloud_lookup"@.len());
    assert("heartbeat_interval"@.len() != "scan_interval"@.len());
    assert("heartbeat_interval"@.len() != "scan_interval_seconds"@.len());
    assert("heartbeat_interval_seconds"@.len() != "protection"@.len());
    assert("heartbeat_interval_seconds"@.len() != "protection_enabled"@.len());
    assert("heartbeat_interval_seconds"@.len() != "real_time_protection"@.len());
    assert("heartbeat_interval_seconds"@.len() != "cloud_lookup"@.len());
    assert("heartbeat_interval_seconds"@.len() != "enable_cloud_lookup"@.len());
    assert("heartbeat_interval_seconds"@.len() != "scan_interval"@.len());
    assert("heartbeat_interval_seconds"@.len() != "scan_interval_seconds"@.len());
    assert("heartbeat_interval_seconds"@.len() != "heartbeat_interval"@.len());
    assert("profile"@.len() != "protection"@.len());
    assert("profile"@.len() != "protection_enabled"@.len());
    assert("profile"@.len() != "real_time_protection"@.len());
    assert("profile"@.len() != "cloud_lookup"@.len());
    assert("profile"@.len() != "enable_cloud_lookup"@.len());
    assert("profile"@.len() != "scan_interval"@.len());
    assert("profile"@.len() != "scan_interval_seconds"@.len());
    assert("profile"@.len() != "heartbeat_interval"@.len());
    assert("profile"@.len() != "heartbeat_interval_seconds"@.len());
    assert("performance_profile"@.len() != "protection"@.len());
    assert("performance_profile"@.len() != "protection_enabled"@.len());
    assert("performance_profile"@.len() != "real_time_protection"@.len());
    assert("performance_profile"@.len() != "cloud_lookup"@.len());
    assert("performance_profile"@[0] != "enable_cloud_lookup"@[0]);
    assert("performance_profile"@.len() != "scan_interval"@.len());
    assert("performance_profile"@.len() != "scan_interval_seconds"@.len());
    assert("performance_profile"@.len() != "heartbeat_interval"@.len());
    assert("performance_profile"@.len() != "heartbeat_interval_seconds"@.len());
    assert("performance_profile"@.len() != "profile"@.len());
    assert("yes"@.len() != "true"@.len());
    assert("1"@.len() != "true"@.len());
    assert("1"@.len() != "yes"@.len());
    assert("on"@.len() != "true"@.len());
    assert("on"@.len() != "yes"@.len());
    assert("on"@.len() != "1"@.len());
    assert("enabled"@.len() != "true"@.len());
    assert("enabled"@.len() != "yes"@.len());
    assert("enabled"@.len() != "1"@.len());
    assert("enabled"@.len() != "on"@.len());
    assert("false"@.len() != "true"@.len());
    assert("false"@.len() != "yes"@.len());
    assert("false"@.len() != "1"@.len());
    assert("false"@.len() != "on"@.len());
    assert("false"@.len() != "enabled"@.len());
    assert("no"@.len() != "true"@.len());
    assert("no"@.len() != "yes"@.len());
    assert("no"@.len() != "1"@.len());
    assert("no"@[0] != "on"@[0]);
    assert("no"@.len() != "enabled"@.len());
    assert("no"@.len() != "false"@.len());
    assert("0"@.len() != "true"@.len());
    assert("0"@.len() != "yes"@.len());
    assert("0"@[0] != "1"@[0]);
    assert("0"@.len() != "on"@.len());
    assert("0"@.len() != "enabled"@.len());
    assert("0"@.len() != "false"@.len());
    assert("0"@.len() != "no"@.len());
    assert("off"@.len() != "true"@.len());
    assert("off"@[0] != "yes"@[0]);
    assert("off"@.len() != "1"@.len());
    assert("off"@.len() != "on"@.len());
    assert("off"@.len() != "enabled"@.len());
    assert("off"@.len() != "false"@.len());
    assert("off"@.len() != "no"@.len());
    assert("off"@.len() != "0"@.len());
    assert("disabled"@.len() != "true"@.len());
    assert("disabled"@.len() != "yes"@.len());
    assert("disabled"@.len() != "1"@.len());
    assert("disabled"@.len() != "on"@.len());
    assert("disabled"@.len() != "enabled"@.len());
    assert("disabled"@.len() != "false"@.len());
    assert("disabled"@.len() != "no"@.len());
    assert("disabled"@.len() != "0"@.len());
    assert("disabled"@.len() != "off"@.len());
    assert("aggressive"@.len() != "true"@.len());
    assert("aggressive"@.len() != "yes"@.len());
    assert("aggressive"@.len() != "1"@.len());
    assert("aggressive"@.len() != "on"@.len());
    assert("aggressive"@.len() != "enabled"@.len());
    assert("aggressive"@.len() != "false"@.len());
    assert("aggressive"@.len() != "no"@.len());
    assert("aggressive"@.len() != "0"@.len());
    assert("aggressive"@.len() != "off"@.len());
    assert("aggressive"@.len() != "disabled"@.len());
    assert("balanced"@.len() != "true"@.len());
    assert("balanced"@.len() != "yes"@.len());
    assert("balanced"@.len() != "1"@.len());
    assert("balanced"@.len() != "on"@.len());
    assert("balanced"@.len() != "enabled"@.len());
    assert("balanced"@.len() != "false"@.len());
    assert("balanced"@.len() != "no"@.len());
    assert("balanced"@.len() != "0"@.len());
    assert("balanced"@.len() != "off"@.len());
    assert("balanced"@[0] != "disabled"@[0]);
    assert("balanced"@.len() != "aggressive"@.len());
    assert("lightweight"@.len() != "true"@.len());
    assert("lightweight"@.len() != "yes"@.len());
    assert("lightweight"@.len() != "1"@.len());
    assert("lightweight"@.len() != "on"@.len());
    assert("lightweight"@.len() != "enabled"@.len());
    assert("lightweight"@.len() != "false"@.len());
    assert("lightweight"@.len() != "no"@.len());
    assert("lightweight"@.len() != "0"@.len());
    assert("lightweight"@.len() != "off"@.len());
    assert("lightweight"@.len() != "disabled"@.len());
    assert("lightweight"@.len() != "aggressive"@.len());
    assert("lightweight"@.len() != "balanced"@.len());
    assert("light"@.len() != "true"@.len());
    assert("light"@.len() != "yes"@.len());
    assert("light"@.len() != "1"@.len());
    assert("light"@.len() != "on"@.len());
    assert("light"@.len() != "enabled"@.len());
    assert("light"@[0] != "false"@[0]);
    assert("light"@.len() != "no"@.len());
    assert("light"@.len() != "0"@.len());
    assert("light"@.len() != "off"@.len());
    assert("light"@.len() != "disabled"@.len());
    assert("light"@.len() != "aggressive"@.len());
    assert("light"@.len() != "balanced"@.len());
    assert("light"@.len() != "lightweight"@.len());
}

/// The message `config set` stops with when it refuses `key` or `value`.
pub open spec fn set_error_text(e: ConfigSetError, key: Seq<char>, value: Seq<char>) -> Seq<char> {
    match e {
        ConfigSetError::InvalidBool => "Invalid boolean value: '"@ + value
            + "'. Use true/false, yes/no, or on/off."@,
        ConfigSetError::InvalidNumber => "Invalid number: "@ + value,
        ConfigSetError::InvalidProfile => "Invalid profile: "@ + value
            + ". Use aggressive, balanced, or lightweight."@,
        ConfigSetError::UnknownKey => "Unknown or read-only configuration key: "@ + key
            + ". Modifiable keys: protection, cloud_lookup, scan_interval, heartbeat_interval, profile"@,
    }
}

impl ConfigSetError {
    /// The message shown for this refusal of `key` set to `value`.
    pub fn message(&self, key: &str, value: &str) -> (r: String)
        ensures
            r@ == set_error_text(*self, key@, value@),
    {
        match self {
            ConfigSetError::InvalidBool => crate::text::concat3(
                "Invalid boolean value: '",
                value,
                "'. Use true/false, yes/no, or on/off.",
            ),
            ConfigSetError::InvalidNumber => crate::text::concat2("Invalid number: ", value),
            ConfigSetError::InvalidProfile => crate::text::concat3(
                "Invalid profile: ",
                value,
                ". Use aggressive, balanced, or lightweight.",
            ),
            ConfigSetError::UnknownKey => crate::text::concat3(
                "Unknown or read-only configuration key: ",
                key,
                ". Modifiable keys: protection, cloud_lookup, scan_interval, heartbeat_interval, profile",
            ),
        }
    }
}

/// What `config set` does with a lower-cased key, the value as given, and
/// the value lower-cased.
pub open spec fn setting_spec(key_lower: Seq<char>, value: Seq<char>, value_lower: Seq<char>) -> Result<
    ConfigSetting,
    ConfigSetError,
> {
    match settable_key_spec(key_lower) {
        None => Err(ConfigSetError::UnknownKey),
        Some(SettableKey::Protection) => match bool_word(value_lower) {
            Some(b) => Ok(ConfigSetting::RealTimeProtection(b)),
            None => Err(ConfigSetError::InvalidBool),
        },
        Some(SettableKey::CloudLookup) => match bool_word(value_lower) {
            Some(b) => Ok(ConfigSetting::CloudLookup(b)),
            None => Err(ConfigSetError::InvalidBool),
        },
        Some(SettableKey::ScanInterval) => match parse_int_spec(value, false, 0, u64::MAX as int) {
            Some(n) => Ok(ConfigSetting::ScanInterval(n as u64)),
            None => Err(ConfigSetError::InvalidNumber),
        },
        Some(SettableKey::HeartbeatInterval) => match parse_int_spec(
            value,
            false,
            0,
            u64::MAX as int,
        ) {
            Some(n) => Ok(ConfigSetting::HeartbeatInterval(n as u64)),
            None => Err(ConfigSetError::InvalidNumber),
        },
        Some(SettableKey::Profile) => match profile_word(value_lower) {
            Some(p) => Ok(ConfigSetting::Profile(p)),
            None => Err(ConfigSetError::InvalidProfile),
        },
    }
}

/// The key that a lower-cased name changes.
pub fn settable_key(key_lower: &str) -> (r: Option<SettableKey>)
    ensures
        r == settable_key_spec(key_lower@),
{
    let k = chars_of(key_lower);
    let k = k.as_slice();
    if chars_eq_str(k, "protection") || chars_eq_str(k, "protection_enabled") || chars_eq_str(
        k,
        "real_time_protection",
    ) {
        Some(SettableKey::Protection)
    } else if chars_eq_str(k, "cloud_lookup") || chars_eq_str(k, "enable_cloud_lookup") {
        Some(SettableKey::CloudLookup)
    } else if chars_eq_str(k, "scan_interval") || chars_eq_str(k, "scan_interval_seconds") {
        Some(SettableKey::ScanInterval)
    } else if chars_eq_str(k, "heartbeat_interval") || chars_eq_str(
        k,
        "heartbeat_interval_seconds",
    ) {
        Some(SettableKey::HeartbeatInterval)
    } else if chars_eq_str(k, "profile") || chars_eq_str(k, "performance_profile") {
        Some(SettableKey::Profile)
    } else {
        None
    }
}

/// The boolean a lower-cased word names.
pub fn parse_bool_word(lower: &str) -> (r: Option<bool>)
    ensures
        r == bool_word(lower@),
{
    let w = chars_of(lower);
    let w = w.as_slice();
    if chars_eq_str(w, "true") || chars_eq_str(w, "yes") || chars_eq_str(w, "1") || chars_eq_str(
        w,
        "on",
    ) || chars_eq_str(w, "enabled") {
        Some(true)
    } else if chars_eq_str(w, "false") || chars_eq_str(w, "no") || chars_eq_str(w, "0")
        || chars_eq_str(w, "off") || chars_eq_str(w, "disabled") {
        Some(false)
    } else {
        None
    }
}

/// Reads a boolean value of `config set`, whatever its case: `true`, `yes`,
/// `1`, `on`, `enabled` and their opposites.
pub fn parse_bool(s: &str) -> (r: Result<bool, ConfigSetError>)
    ensures
        r == (match bool_word(spec_to_lowercase(s@)) {
            Some(b) => Ok::<bool, ConfigSetError>(b),
            None => Err(ConfigSetError::InvalidBool),
        }),
{
    let lower = to_lowercase(s);
    match parse_bool_word(lower.as_str()) {
        Some(b) => Ok(b),
        None => Err(ConfigSetError::InvalidBool),
    }
}

/// The profile a lower-cased word names.
pub fn parse_profile_word(lower: &str) -> (r: Option<PerformanceProfile>)
    ensures
        r == profile_word(lower@),
{
    let w = chars_of(lower);
    let w = w.as_slice();
    if chars_eq_str(w, "aggressive") {
        Some(PerformanceProfile::Aggressive)
    } else if chars_eq_str(w, "balanced") {
        Some(PerformanceProfile::Balanced)
    } else if chars_eq_str(w, "lightweight") || chars_eq_str(w, "light") {
        Some(PerformanceProfile::Lightweight)
    } else {
        None
    }
}

/// What `config set` does, given the key lower-cased, the value as given,
/// and the value lower-cased.
pub fn setting_for(key_lower: &str, value: &str, value_lower: &str) -> (r: Result<
    ConfigSetting,
    ConfigSetError,
>)
    ensures
        r == setting_spec(key_lower@, value@, value_lower@),
{
    match settable_key(key_lower) {
        None => Err(ConfigSetError::UnknownKey),
        Some(SettableKey::Protection) => match parse_bool_word(value_lower) {
            Some(b) => Ok(ConfigSetting::RealTimeProtection(b)),
            None => Err(ConfigSetError::InvalidBool),
        },
        Some(SettableKey::CloudLookup) => match parse_bool_word(value_lower) {
            Some(b) => Ok(ConfigSetting::CloudLookup(b)),
            None => Err(ConfigSetError::InvalidBool),
        },
        Some(SettableKey::ScanInterval) => {
            let v = chars_of(value);
            match parse_u64(v.as_slice()) {
                Some(n) => Ok(ConfigSetting::ScanInterval(n)),
                None => Err(ConfigSetError::InvalidNumber),
            }
        },
        Some(SettableKey::HeartbeatInterval) => {
            let v = chars_of(value);
            match parse_u64(v.as_slice()) {
                Some(n) => Ok(ConfigSetting::HeartbeatInterval(n)),
                None => Err(ConfigSetError::InvalidNumber),
            }
        },
        Some(SettableKey::Profile) => match parse_profile_word(value_lower) {
            Some(p) => Ok(ConfigSetting::Profile(p)),
            None => Err(ConfigSetError::InvalidProfile),
        },
    }
}

/// A `config set` request read: the key lower-cased, as it is shown and
/// reported, and the change asked for or why it is refused.
#[derive(Debug)]
pub struct ConfigSetRequest {
    pub key: String,
    pub setting: Result<ConfigSetting, ConfigSetError>,
}

/// Reads `config set <key> <value>`; key and value are compared whatever
/// their case, a number is read from the value as given.
pub fn config_setting(key: &str, value: &str) -> (r: ConfigSetRequest)
    ensures
        r.key@ == spec_to_lowercase(key@),
        r.setting == setting_spec(spec_to_lowercase(key@), value@, spec_to_lowercase(value@)),
{
    let key_lower = to_lowercase(key);
    let value_lower = to_lowercase(value);
    let setting = setting_for(key_lower.as_str(), value, value_lower.as_str());
    ConfigSetRequest { key: key_lower, setting }
}

/// The configuration update that carries a change; `None` for a profile,
/// which is changed with its own message.
pub open spec fn update_spec(s: ConfigSetting) -> Option<
    (Option<u64>, Option<u64>, Option<bool>, Option<bool>),
> {
    match s {
        ConfigSetting::RealTimeProtection(b) => Some((None, None, Some(b), None)),
        ConfigSetting::CloudLookup(b) => Some((None, None, None, Some(b))),
        ConfigSetting::ScanInterval(n) => Some((Some(n), None, None, None)),
        ConfigSetting::HeartbeatInterval(n) => Some((None, Some(n), None, None)),
        ConfigSetting::Profile(_) => None,
    }
}

/// Each setting writes only its own field of the update: the scan interval,
/// the heartbeat interval, real-time protection or cloud lookup, with the
/// value given; every other field stays unset. A profile is no update.
pub proof fn lemma_update_writes_own_field(s: ConfigSetting)
    ensures
        (update_spec(s) is None) == (s is Profile),
        update_spec(s) matches Some((scan, heartbeat, protection, cloud)) ==> {
            &&& scan == (match s {
                ConfigSetting::ScanInterval(n) => Some(n),
                _ => None,
            })
            &&& heartbeat == (match s {
                ConfigSetting::HeartbeatInterval(n) => Some(n),
                _ => None,
            })
            &&& protection == (match s {
                ConfigSetting::RealTimeProtection(b) => Some(b),
                _ => None,
            })
            &&& cloud == (match s {
                ConfigSetting::CloudLookup(b) => Some(b),
                _ => None,
            })
        },
{
}

/// The configuration update that carries a change: every other field is
/// left unset. `None` for a profile change.
pub fn config_update(setting: ConfigSetting) -> (r: Option<AgentConfigUpdate>)
    ensures
        match update_spec(setting) {
            None => r is None,
            Some((scan, heartbeat, protection, cloud)) => r matches Some(u) && u.scan_interval_seconds
                == scan && u.heartbeat_interval_seconds == heartbeat
                && u.enable_real_time_protection == protection && u.enable_cloud_lookup == cloud
                && u.excluded_paths is None && u.excluded_processes is None,
        },
{
    let mut u = AgentConfigUpdate {
        scan_interval_seconds: None,
        heartbeat_interval_seconds: None,
        enable_real_time_protection: None,
        enable_cloud_lookup: None,
        excluded_paths: None,
        excluded_processes: None,
    };
    match setting {
        ConfigSetting::RealTimeProtection(b) => u.enable_real_time_protection = Some(b),
        ConfigSetting::CloudLookup(b) => u.enable_cloud_lookup = Some(b),
        ConfigSetting::ScanInterval(n) => u.scan_interval_seconds = Some(n),
        ConfigSetting::HeartbeatInterval(n) => u.heartbeat_interval_seconds = Some(n),
        ConfigSetting::Profile(_) => return None,
    }
    Some(u)
}

// ==================== profiles ====================

/// The agent profile a command-line profile names.
pub open spec fn profile_of_arg_spec(p: PerformanceProfileArg) -> PerformanceProfile {
    match p {
        PerformanceProfileArg::Aggressive => PerformanceProfile::Aggressive,
        PerformanceProfileArg::Balanced => PerformanceProfile::Balanced,
        PerformanceProfileArg::Lightweight => PerformanceProfile::Lightweight,
    }
}

/// The agent profile a command-line profile names.
pub fn profile_of_arg(p: PerformanceProfileArg) -> (r: PerformanceProfile)
    ensures
        r == profile_of_arg_spec(p),
{
    match p {
        PerformanceProfileArg::Aggressive => PerformanceProfile::Aggressive,
        PerformanceProfileArg::Balanced => PerformanceProfile::Balanced,
        PerformanceProfileArg::Lightweight => PerformanceProfile::Lightweight,
    }
}

/// What a profile does, as `config profile` explains it.
pub open spec fn profile_description_spec(p: PerformanceProfile) -> Seq<char> {
    match p {
        PerformanceProfile::Aggressive => "Maximum detection coverage. All collectors enabled with tight intervals.\nHigher CPU/memory usage (~15-25%)."@,
        PerformanceProfile::Balanced => "Good detection with reasonable resource usage (~5-10% CPU).\nSuitable for most workstations."@,
        PerformanceProfile::Lightweight => "Minimal footprint (~1-3% CPU). Only core collectors active.\nBest for performance-sensitive systems."@,
    }
}

/// What a profile does, in two lines.
pub fn get_profile_description(profile: &PerformanceProfile) -> (r: String)
    ensures
        r@ == profile_description_spec(*profile),
{
    let s: &str = match profile {
        PerformanceProfile::Aggressive => "Maximum detection coverage. All collectors enabled with tight intervals.\nHigher CPU/memory usage (~15-25%).",
        PerformanceProfile::Balanced => "Good detection with reasonable resource usage (~5-10% CPU).\nSuitable for most workstations.",
        PerformanceProfile::Lightweight => "Minimal footprint (~1-3% CPU). Only core collectors active.\nBest for performance-sensitive systems.",
    };
    s.to_owned()
}

// ==================== replies ====================

/// Why the agent did not carry out a change or a cancellation.
#[derive(Debug)]
pub enum ActionError {
    /// The agent answered with an `Error` carrying this message.
    Failed(String),
    /// The agent answered with a message of another kind.
    Unexpected,
}

/// Reads the answer to a configuration update or a scan cancellation:
/// `Success` is done, an `Error` is reported with its message.
pub fn action_reply(reply: IpcMessage) -> (r: Result<(), ActionError>)
    ensures
        match reply {
            IpcMessage::Success => r is Ok,
            IpcMessage::Error { message, .. } => r == Err::<(), ActionError>(
                ActionError::Failed(message),
            ),
            _ => r matches Err(ActionError::Unexpected),
        },
{
    match reply {
        IpcMessage::Success => Ok(()),
        IpcMessage::Error { message, .. } => Err(ActionError::Failed(message)),
        _ => Err(ActionError::Unexpected),
    }
}

/// What `config reload` learned: the agent checked its backend and
/// reports whether it is connected, or it answered otherwise and the
/// reload is only reported as triggered.
#[derive(Clone, Copy, Debug, PartialEq, Eq, Structural)]
pub enum ReloadOutcome {
    Validated { backend_connected: bool },
    Triggered,
}

/// Reads the answer to the backend test that `config reload` sends.
pub fn reload_reply(reply: IpcMessage) -> (r: Result<ReloadOutcome, String>)
    ensures
        match reply {
            IpcMessage::BackendTestResult { connected, .. } => r == Ok::<ReloadOutcome, String>(
                ReloadOutcome::Validated { backend_connected: connected },
            ),
            IpcMessage::Error { message, .. } => r == Err::<ReloadOutcome, String>(message),
            _ => r == Ok::<ReloadOutcome, String>(ReloadOutcome::Triggered),
        },
{
    match reply {
        IpcMessage::BackendTestResult { connected, .. } => Ok(
            ReloadOutcome::Validated { backend_connected: connected },
        ),
        IpcMessage::Error { message, .. } => Err(message),
        _ => Ok(ReloadOutcome::Triggered),
    }
}

} // verus!
