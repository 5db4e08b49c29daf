//! Logic of the remote (server) commands: where credentials come from, how
//! the dashboard socket address is formed, how server replies are read and
//! judged, and the rows shown for agents and alerts.

use crate::cli::Severity;
use crate::json::{
    json_bool, json_get, json_i64, json_str, json_text, parse_json, scalar_text, spec_json_text,
    spec_parse_json, string_field, string_field_nested, string_field_nested_spec, string_field_spec,
    value_to_string, JsonNumber, JsonValue,
};
use crate::phoenix::{object1, object2, string_value};
use crate::text::{
    chars_eq_str, chars_of, chars_of_string, dec_i64, dec_int, dec_nat, dec_u64,
    eq_ignore_ascii_case, eq_ignore_ascii_case_spec, has_prefix, push_all, push_str, starts_with,
    string_of, trim, trim_end_char, trim_end_matches, trimmed,
};
use vstd::prelude::*;

verus! {

/// Server used when neither an argument nor the saved login names one.
pub const DEFAULT_SERVER: &'static str = "https://tamandua.treantlab.org";

/// Phoenix channel protocol version sent with the socket address.
pub const PHOENIX_VSN: &'static str = "2.0.0";

/// Saved remote login (`remote.json`).
#[derive(Debug, Default)]
pub struct RemoteConfig {
    pub server: Option<String>,
    pub token: Option<String>,
    pub expires_at: Option<String>,
}

/// Server address and operator token for API calls.
#[derive(Debug)]
pub struct RemoteSession {
    pub server: String,
    pub token: String,
}

/// Message given when no token is available.
pub open spec fn missing_token_message() -> Seq<char> {
    "missing token; pass --token or run tamandua-ctl remote login"@
}

/// The first of the two options that is present.
pub open spec fn first_some(a: Option<String>, b: Option<String>) -> Option<String> {
    match a {
        Some(x) => Some(x),
        None => b,
    }
}

fn pick(a: Option<String>, b: Option<String>) -> (r: Option<String>)
    ensures
        r == first_some(a, b),
{
    match a {
        Some(x) => Some(x),
        None => b,
    }
}

/// The server named by the argument, else by the saved login, else the default.
pub open spec fn chosen_server(arg: Option<String>, saved: Option<String>) -> Seq<char> {
    match first_some(arg, saved) {
        Some(s) => s@,
        None => DEFAULT_SERVER@,
    }
}

/// Resolves the server and token for an API call: the server as chosen with
/// every trailing `/` removed; the token from the argument or the saved login.
pub fn remote_session(server: Option<String>, token: Option<String>, config: RemoteConfig) -> (r:
    Result<RemoteSession, String>)
    ensures
        first_some(token, config.token) is None ==> (r matches Err(m) && m@
            == missing_token_message()),
        first_some(token, config.token) matches Some(t) ==> (r matches Ok(s) && s.token == t
            && s.server@ == trim_end_char(chosen_server(server, config.server), '/')),
{
    let chosen = pick(server, config.server);
    let base = match chosen {
        Some(s) => chars_of_string(&s),
        None => chars_of(DEFAULT_SERVER),
    };
    let trimmed_server = trim_end_matches(base.as_slice(), '/');
    match pick(token, config.token) {
        Some(t) => Ok(RemoteSession { server: string_of(trimmed_server.as_slice()), token: t }),
        None => Err(missing_token_literal()),
    }
}

fn missing_token_literal() -> (r: String)
    ensures
        r@ == missing_token_message(),
{
    "missing token; pass --token or run tamandua-ctl remote login".to_owned()
}


/// Server and token for a live-response socket: the server as chosen (not
/// trimmed), the token from the argument or the saved login.
pub fn shell_target(server: Option<String>, token: Option<String>, config: RemoteConfig) -> (r:
    Result<(String, String), String>)
    ensures
        first_some(token, config.token) is None ==> (r matches Err(m) && m@
            == missing_token_message()),
        first_some(token, config.token) matches Some(t) ==> (r matches Ok(p) && p.1 == t && p.0@
            == chosen_server(server, config.server)),
{
    let chosen = pick(server, config.server);
    let srv = match chosen {
        Some(s) => s,
        None => DEFAULT_SERVER.to_owned(),
    };
    match pick(token, config.token) {
        Some(t) => Ok((srv, t)),
        None => Err(missing_token_literal()),
    }
}

/// Server for `remote login`: the argument or the default, every trailing
/// `/` removed.
pub fn login_server(server: Option<String>) -> (r: String)
    ensures
        r@ == trim_end_char(
            match server {
                Some(s) => s@,
                None => DEFAULT_SERVER@,
            },
            '/',
        ),
{
    let base = match server {
        Some(s) => chars_of_string(&s),
        None => chars_of(DEFAULT_SERVER),
    };
    let t = trim_end_matches(base.as_slice(), '/');
    string_of(t.as_slice())
}

/// The WebSocket base for a server base: `https://` becomes `wss://`,
/// `http://` becomes `ws://`, and a base with neither gets `wss://`.
pub open spec fn ws_base(base: Seq<char>) -> Seq<char> {
    if has_prefix(base, "https://"@) {
        "wss://"@ + base.subrange("https://"@.len() as int, base.len() as int)
    } else if has_prefix(base, "http://"@) {
        "ws://"@ + base.subrange("http://"@.len() as int, base.len() as int)
    } else {
        "wss://"@ + base
    }
}

/// The dashboard socket address for a server and token.
pub open spec fn socket_url_spec(server: Seq<char>, token: Seq<char>) -> Seq<char> {
    ws_base(trim_end_char(server, '/')) + "/socket/dashboard/websocket?token="@ + token + "&vsn="@
        + PHOENIX_VSN@
}

fn suffix_from(s: &[char], start: usize) -> (r: Vec<char>)
    requires
        start <= s@.len(),
    ensures
        r@ == s@.subrange(start as int, s@.len() as int),
{
    let mut out: Vec<char> = Vec::new();
    let mut i: usize = start;
    while i < s.len()
        invariant
            start <= i <= s@.len(),
            out@ == s@.subrange(start as int, i as int),
        decreases s@.len() - i,
    {
        out.push(s[i]);
        i = i + 1;
        assert(out@ =~= s@.subrange(start as int, i as int));
    }
    out
}

/// Address of the dashboard socket on `server`, authenticated by `token`.
pub fn dashboard_socket_url(server: &str, token: &str) -> (r: String)
    ensures
        r@ == socket_url_spec(server@, token@),
{
    let sc = chars_of(server);
    let base = trim_end_matches(sc.as_slice(), '/');
    let https = chars_of("https://");
    let http = chars_of("http://");
    let mut out: Vec<char> = Vec::new();
    if starts_with(base.as_slice(), https.as_slice()) {
        push_str(&mut out, "wss://");
        let rest = suffix_from(base.as_slice(), https.len());
        push_all(&mut out, rest.as_slice());
    } else if starts_with(base.as_slice(), http.as_slice()) {
        push_str(&mut out, "ws://");
        let rest = suffix_from(base.as_slice(), http.len());
        push_all(&mut out, rest.as_slice());
    } else {
        push_str(&mut out, "wss://");
        push_all(&mut out, base.as_slice());
    }
    assert(out@ == ws_base(trim_end_char(server@, '/')));
    push_str(&mut out, "/socket/dashboard/websocket?token=");
    push_str(&mut out, token);
    push_str(&mut out, "&vsn=");
    push_str(&mut out, PHOENIX_VSN);
    string_of(out.as_slice())
}

/// `value` cut to `max_chars` characters, the last three of them `...`, when
/// it is longer; unchanged otherwise.
pub open spec fn truncate_chars_spec(value: Seq<char>, max_chars: nat) -> Seq<char> {
    if value.len() <= max_chars {
        value
    } else {
        let keep: int = if max_chars >= 3 {
            max_chars - 3
        } else {
            0
        };
        value.subrange(0, keep) + "..."@
    }
}

/// A shortened cell holds at most `max_chars` characters when there is
/// room for the `...` mark, and text that fits is left as it is.
pub proof fn lemma_truncate_chars_bound(value: Seq<char>, max_chars: nat)
    requires
        max_chars >= 3,
    ensures
        truncate_chars_spec(value, max_chars).len() <= max_chars,
        value.len() <= max_chars ==> truncate_chars_spec(value, max_chars) == value,
{
    reveal_strlit("...");
}

/// Shortens text for a table cell, counting characters.
pub fn truncate(value: &str, max_chars: usize) -> (r: String)
    ensures
        r@ == truncate_chars_spec(value@, max_chars as nat),
{
    let v = chars_of(value);
    if v.len() <= max_chars {
        return value.to_owned();
    }
    let keep: usize = if max_chars >= 3 {
        max_chars - 3
    } else {
        0
    };
    let mut out: Vec<char> = Vec::new();
    let mut i: usize = 0;
    while i < keep
        invariant
            keep <= v@.len(),
            0 <= i <= keep,
            out@ == v@.subrange(0, i as int),
        decreases keep - i,
    {
        out.push(v[i]);
        i = i + 1;
        assert(out@ =~= v@.subrange(0, i as int));
    }
    push_str(&mut out, "...");
    string_of(out.as_slice())
}

// ---------------------------------------------------------------------------
// Live-response command results
// ---------------------------------------------------------------------------

/// `Some(s)` as text, or the default.
pub open spec fn text_or(t: Option<Seq<char>>, default: Seq<char>) -> Seq<char> {
    match t {
        Some(s) => s,
        None => default,
    }
}

/// The `status=... exit_code=...: ` head of a command error.
pub open spec fn error_head(status: Seq<char>, exit_code: i64) -> Seq<char> {
    "status="@ + status + " exit_code="@ + dec_int(exit_code as int) + ": "@
}

/// The error a live-response command reply reports, if any: a nested
/// `output.success == false` gives its `error_message`; otherwise a reply
/// other than status `success` with exit code 0 gives the output text.
pub open spec fn command_error_spec(value: JsonValue) -> Option<Seq<char>> {
    match json_get(value, "data"@) {
        None => None,
        Some(data) => {
            let status = text_or(json_str(json_get(data, "status"@)), "unknown"@);
            let exit_code: i64 = match json_i64(json_get(data, "exit_code"@)) {
                Some(c) => c,
                None => 0,
            };
            let nested_failure = match json_get(data, "output"@) {
                Some(o) => json_bool(json_get(o, "success"@)) == Some(false),
                None => false,
            };
            if nested_failure {
                let o = json_get(data, "output"@).unwrap();
                Some(
                    error_head(status, exit_code) + text_or(
                        json_str(json_get(o, "error_message"@)),
                        "remote command reported success=false"@,
                    ),
                )
            } else if status == "success"@ && exit_code == 0 {
                None
            } else {
                let shown = match json_get(data, "output"@) {
                    None => "remote command did not report output"@,
                    Some(o) => match json_str(Some(o)) {
                        Some(s) => s,
                        None => spec_json_text(o),
                    },
                };
                Some(error_head(status, exit_code) + shown)
            }
        },
    }
}

/// What a live-response reply reports as the command's error. With no
/// `data` there is none. Otherwise, with `status` (default `unknown`) and
/// `exit_code` (default 0) taken from `data`:
/// - there is no error exactly when the status is `success`, the exit code
///   is 0 and `data.output.success` is not `false`;
/// - every error starts with `status=<status> exit_code=<code>: `;
/// - a failed command (other status, or non-zero exit code) whose output is
///   text reports that text after the head, and one without output says so.
pub proof fn lemma_command_error_law(value: JsonValue)
    ensures
        match json_get(value, "data"@) {
            None => command_error_spec(value) is None,
            Some(data) => {
                let status = text_or(json_str(json_get(data, "status"@)), "unknown"@);
                let code: i64 = match json_i64(json_get(data, "exit_code"@)) {
                    Some(c) => c,
                    None => 0,
                };
                let nested_failure = match json_get(data, "output"@) {
                    Some(o) => json_bool(json_get(o, "success"@)) == Some(false),
                    None => false,
                };
                let head = "status="@ + status + " exit_code="@ + dec_int(code as int) + ": "@;
                let failed = !(status == "success"@ && code == 0);
                &&& (command_error_spec(value) is None <==> (!failed && !nested_failure))
                &&& (command_error_spec(value) matches Some(e) ==> head.len() <= e.len()
                    && e.subrange(0, head.len() as int) == head)
                &&& (failed && !nested_failure ==> match json_get(data, "output"@) {
                    None => command_error_spec(value) == Some(
                        head + "remote command did not report output"@,
                    ),
                    Some(o) => match json_str(Some(o)) {
                        Some(text) => command_error_spec(value) == Some(head + text),
                        None => true,
                    },
                })
            },
        },
{
    match json_get(value, "data"@) {
        None => {},
        Some(data) => {
            let status = text_or(json_str(json_get(data, "status"@)), "unknown"@);
            let code: i64 = match json_i64(json_get(data, "exit_code"@)) {
                Some(c) => c,
                None => 0,
            };
            let head = "status="@ + status + " exit_code="@ + dec_int(code as int) + ": "@;
            assert(head == error_head(status, code));
            if let Some(e) = command_error_spec(value) {
                let tail = e.subrange(head.len() as int, e.len() as int);
                assert(e =~= head + tail) by {
                    let o = json_get(data, "output"@);
                    let nested_failure = match o {
                        Some(o) => json_bool(json_get(o, "success"@)) == Some(false),
                        None => false,
                    };
                    if nested_failure {
                        let x = text_or(
                            json_str(json_get(o.unwrap(), "error_message"@)),
                            "remote command reported success=false"@,
                        );
                        assert(e == head + x);
                        assert((head + x).subrange(head.len() as int, (head + x).len() as int) =~= x);
                    } else {
                        let x = match o {
                            None => "remote command did not report output"@,
                            Some(o) => match json_str(Some(o)) {
                                Some(s) => s,
                                None => spec_json_text(o),
                            },
                        };
                        assert(e == head + x);
                        assert((head + x).subrange(head.len() as int, (head + x).len() as int) =~= x);
                    }
                }
                assert(e.subrange(0, head.len() as int) =~= head);
            }
        },
    }
}

fn str_or(v: Option<&JsonValue>, default: &str) -> (r: Vec<char>)
    ensures
        r@ == text_or(
            json_str(
                match v {
                    Some(x) => Some(*x),
                    None => None,
                },
            ),
            default@,
        ),
{
    match v {
        Some(x) => match x.as_str() {
            Some(s) => chars_of(s),
            None => chars_of(default),
        },
        None => chars_of(default),
    }
}

/// The error reported by a live-response command reply, if any.
pub fn live_response_command_error(value: &JsonValue) -> (r: Option<String>)
    ensures
        r matches Some(s) ==> command_error_spec(*value) == Some(s@),
        r is None ==> command_error_spec(*value) is None,
{
    let data = match value.get("data") {
        Some(d) => d,
        None => return None,
    };
    let status = str_or(data.get("status"), "unknown");
    let exit_code: i64 = match data.get("exit_code") {
        Some(c) => match c.as_i64() {
            Some(x) => x,
            None => 0,
        },
        None => 0,
    };
    let mut head: Vec<char> = Vec::new();
    push_str(&mut head, "status=");
    push_all(&mut head, status.as_slice());
    push_str(&mut head, " exit_code=");
    let code = dec_i64(exit_code);
    push_all(&mut head, code.as_slice());
    push_str(&mut head, ": ");
    assert(head@ == error_head(status@, exit_code));
    if let Some(output) = data.get("output") {
        let failed = match output.get("success") {
            Some(b) => match b.as_bool() {
                Some(x) => !x,
                None => false,
            },
            None => false,
        };
        if failed {
            let message = str_or(output.get("error_message"), "remote command reported success=false");
            push_all(&mut head, message.as_slice());
            return Some(string_of(head.as_slice()));
        }
    }
    if chars_eq_str(status.as_slice(), "success") && exit_code == 0 {
        return None;
    }
    match data.get("output") {
        None => {
            push_str(&mut head, "remote command did not report output");
        },
        Some(o) => match o.as_str() {
            Some(s) => {
                push_str(&mut head, s);
            },
            None => {
                let t = json_text(o);
                push_str(&mut head, t.as_str());
            },
        },
    }
    Some(string_of(head.as_slice()))
}

// ---------------------------------------------------------------------------
// Upload replies
// ---------------------------------------------------------------------------

/// `sha256`, or else `sha256_hash`, of an object, as text.
pub open spec fn sha_field(o: JsonValue) -> Option<Seq<char>> {
    let picked = match json_get(o, "sha256"@) {
        Some(v) => Some(v),
        None => json_get(o, "sha256_hash"@),
    };
    match picked {
        Some(v) => scalar_text(v),
        None => None,
    }
}

/// The SHA-256 that an upload reply reports: from `data.output` when it is an
/// object holding it, or from the JSON text that `data.output` holds.
pub open spec fn upload_sha256_spec(value: JsonValue) -> Option<Seq<char>> {
    match json_get(value, "data"@) {
        None => None,
        Some(d) => match json_get(d, "output"@) {
            None => None,
            Some(o) => match sha_field(o) {
                Some(t) => Some(t),
                None => match o {
                    JsonValue::Str(text) => match spec_parse_json(text@) {
                        Ok(p) => sha_field(p),
                        Err(_) => None,
                    },
                    _ => None,
                },
            },
        },
    }
}

/// Where an upload reply reports the digest: nowhere without `data.output`;
/// from an output object's `sha256` text, or, when it has no `sha256`, its
/// `sha256_hash` text; and from output text only through the JSON it holds.
pub proof fn lemma_upload_sha256_law(value: JsonValue)
    ensures
        match json_get(value, "data"@) {
            None => upload_sha256_spec(value) is None,
            Some(d) => match json_get(d, "output"@) {
                None => upload_sha256_spec(value) is None,
                Some(o) => {
                    &&& (json_get(o, "sha256"@) matches Some(JsonValue::Str(h))
                        ==> upload_sha256_spec(value) == Some(h@))
                    &&& (json_get(o, "sha256"@) is None ==> match json_get(o, "sha256_hash"@) {
                        Some(JsonValue::Str(h)) => upload_sha256_spec(value) == Some(h@),
                        _ => true,
                    })
                    &&& (o matches JsonValue::Str(t) ==> upload_sha256_spec(value) == match spec_parse_json(t@) {
                        Ok(p) => sha_field(p),
                        Err(_) => None,
                    })
                },
            },
        },
{
    match json_get(value, "data"@) {
        None => {},
        Some(d) => match json_get(d, "output"@) {
            None => {},
            Some(o) => {
                if o is Str {
                    assert(json_get(o, "sha256"@) is None);
                    assert(json_get(o, "sha256_hash"@) is None);
                }
            },
        },
    }
}

/// Reads `sha256`, or else `sha256_hash`, of an upload output object
/// (or of the JSON that its text held), as text.
pub fn upload_sha256_field(o: &JsonValue) -> (r: Option<String>)
    ensures
        r matches Some(s) ==> sha_field(*o) == Some(s@),
        r is None ==> sha_field(*o) is None,
{
    let picked = match o.get("sha256") {
        Some(v) => Some(v),
        None => o.get("sha256_hash"),
    };
    match picked {
        Some(v) => value_to_string(v),
        None => None,
    }
}

/// The SHA-256 that an upload reply reports, if any.
pub fn extract_upload_sha256(value: &JsonValue) -> (r: Option<String>)
    ensures
        r matches Some(s) ==> upload_sha256_spec(*value) == Some(s@),
        r is None ==> upload_sha256_spec(*value) is None,
{
    let data = match value.get("data") {
        Some(d) => d,
        None => return None,
    };
    let output = match data.get("output") {
        Some(o) => o,
        None => return None,
    };
    if let Some(sha) = upload_sha256_field(output) {
        return Some(sha);
    }
    let text = match output.as_str() {
        Some(t) => t,
        None => return None,
    };
    match parse_json(text) {
        Ok(parsed) => upload_sha256_field(&parsed),
        Err(_) => None,
    }
}

/// The live-response session id in a session-creation reply:
/// `data.session_id`, or else `data.id`, when it is a string.
pub open spec fn created_session_id_spec(created: JsonValue) -> Option<Seq<char>> {
    match json_get(created, "data"@) {
        None => None,
        Some(d) => {
            let picked = match json_get(d, "session_id"@) {
                Some(v) => Some(v),
                None => json_get(d, "id"@),
            };
            json_str(picked)
        },
    }
}

/// Reads the session id from a session-creation reply.
pub fn created_session_id(created: &JsonValue) -> (r: Option<String>)
    ensures
        r matches Some(s) ==> created_session_id_spec(*created) == Some(s@),
        r is None ==> created_session_id_spec(*created) is None,
{
    let data = match created.get("data") {
        Some(d) => d,
        None => return None,
    };
    let picked = match data.get("session_id") {
        Some(v) => Some(v),
        None => data.get("id"),
    };
    match picked {
        Some(v) => match v.as_str() {
            Some(s) => Some(s.to_owned()),
            None => None,
        },
        None => None,
    }
}

/// Whether the SHA-256 that the agent reports matches the local file's.
#[derive(Clone, Copy, Debug, PartialEq, Eq, Structural)]
pub enum Integrity {
    Matched,
    Mismatch,
    NotReported,
}

/// Outcome of an upload.
#[derive(Clone, Copy, Debug, PartialEq, Eq, Structural)]
pub enum UploadStatus {
    Failed,
    IntegrityMismatch,
    Uploaded,
}

impl Integrity {
    /// The name reported in the upload result.
    pub fn name(&self) -> (r: &'static str)
        ensures
            r@ == match *self {
                Integrity::Matched => "matched"@,
                Integrity::Mismatch => "mismatch"@,
                Integrity::NotReported => "not_reported"@,
            },
    {
        match self {
            Integrity::Matched => "matched",
            Integrity::Mismatch => "mismatch",
            Integrity::NotReported => "not_reported",
        }
    }
}

impl UploadStatus {
    /// The name reported in the upload result.
    pub fn name(&self) -> (r: &'static str)
        ensures
            r@ == match *self {
                UploadStatus::Failed => "failed"@,
                UploadStatus::IntegrityMismatch => "integrity_mismatch"@,
                UploadStatus::Uploaded => "uploaded"@,
            },
    {
        match self {
            UploadStatus::Failed => "failed",
            UploadStatus::IntegrityMismatch => "integrity_mismatch",
            UploadStatus::Uploaded => "uploaded",
        }
    }
}

/// How an upload reply is judged against the local file's SHA-256.
#[derive(Debug)]
pub struct UploadVerdict {
    pub error: Option<String>,
    pub remote_sha256: Option<String>,
    pub integrity: Integrity,
    pub status: UploadStatus,
}

/// Integrity for a reported digest: a match ignoring ASCII case, a mismatch,
/// or nothing reported.
pub open spec fn integrity_spec(remote: Option<Seq<char>>, local: Seq<char>) -> Integrity {
    match remote {
        Some(r) => if eq_ignore_ascii_case_spec(r, local) {
            Integrity::Matched
        } else {
            Integrity::Mismatch
        },
        None => Integrity::NotReported,
    }
}

/// Status of an upload: failed when the reply reports an error, else an
/// integrity mismatch, else uploaded.
pub open spec fn upload_status_spec(error: Option<Seq<char>>, integrity: Integrity) -> UploadStatus {
    if error is Some {
        UploadStatus::Failed
    } else if integrity == Integrity::Mismatch {
        UploadStatus::IntegrityMismatch
    } else {
        UploadStatus::Uploaded
    }
}

/// Judges an upload reply.
pub fn judge_upload(local_sha256: &str, upload_result: &JsonValue) -> (r: UploadVerdict)
    ensures
        r.error matches Some(e) ==> command_error_spec(*upload_result) == Some(e@),
        r.error is None ==> command_error_spec(*upload_result) is None,
        r.remote_sha256 matches Some(h) ==> upload_sha256_spec(*upload_result) == Some(h@),
        r.remote_sha256 is None ==> upload_sha256_spec(*upload_result) is None,
        r.integrity == integrity_spec(upload_sha256_spec(*upload_result), local_sha256@),
        r.status == upload_status_spec(command_error_spec(*upload_result), r.integrity),
{
    let error = live_response_command_error(upload_result);
    let remote = extract_upload_sha256(upload_result);
    let local = chars_of(local_sha256);
    let integrity = match &remote {
        Some(h) => {
            let hc = chars_of_string(h);
            if eq_ignore_ascii_case(hc.as_slice(), local.as_slice()) {
                Integrity::Matched
            } else {
                Integrity::Mismatch
            }
        },
        None => Integrity::NotReported,
    };
    let status = if error.is_some() {
        UploadStatus::Failed
    } else if integrity == Integrity::Mismatch {
        UploadStatus::IntegrityMismatch
    } else {
        UploadStatus::Uploaded
    };
    UploadVerdict { error, remote_sha256: remote, integrity, status }
}

/// The error an upload ends with: a digest mismatch first, then a reported
/// error; none when the upload went through.
pub open spec fn upload_failure_spec(integrity: Integrity, error: Option<Seq<char>>) -> Option<
    Seq<char>,
> {
    if integrity == Integrity::Mismatch {
        Some("remote upload SHA256 mismatch"@)
    } else {
        match error {
            Some(e) => Some("remote upload failed: "@ + e),
            None => None,
        }
    }
}

/// How an upload is judged, for the digest the agent reported (if any), the
/// local file's digest, and the error the reply reports (if any):
/// - the upload failed exactly when the reply reports an error;
/// - it went through exactly when no error is reported and the reported
///   digest, if any, equals the local one ignoring ASCII case;
/// - a digest that differs in length from the local one is a mismatch, and
///   the local digest always matches itself;
/// - the command ends with `remote upload SHA256 mismatch` on a mismatch,
///   else with `remote upload failed: <error>` on an error, else without
///   error.
pub proof fn lemma_upload_judgement(remote: Option<Seq<char>>, local: Seq<char>, error: Option<Seq<char>>)
    ensures
        ({
            let integrity = integrity_spec(remote, local);
            let status = upload_status_spec(error, integrity);
            &&& (status == UploadStatus::Failed) == (error is Some)
            &&& (status == UploadStatus::Uploaded) == (error is None && match remote {
                None => true,
                Some(h) => h.len() == local.len() && forall|i: int|
                    0 <= i < h.len() ==> crate::text::ascii_lower(h[i]) == crate::text::ascii_lower(local[i]),
            })
            &&& (remote matches Some(h) && h.len() != local.len() ==> integrity == Integrity::Mismatch)
            &&& (remote == Some(local) ==> integrity == Integrity::Matched)
            &&& (remote is None ==> integrity == Integrity::NotReported)
            &&& (integrity == Integrity::Mismatch ==> upload_failure_spec(integrity, error) == Some(
                "remote upload SHA256 mismatch"@,
            ))
            &&& (integrity != Integrity::Mismatch ==> upload_failure_spec(integrity, error) == match error {
                Some(e) => Some("remote upload failed: "@ + e),
                None => None::<Seq<char>>,
            })
        }),
{
}

/// The error that ends an upload command, if any.
pub fn upload_failure(verdict: &UploadVerdict) -> (r: Option<String>)
    ensures
        r matches Some(m) ==> upload_failure_spec(
            verdict.integrity,
            match verdict.error {
                Some(e) => Some(e@),
                None => None,
            },
        ) == Some(m@),
        r is None ==> upload_failure_spec(
            verdict.integrity,
            match verdict.error {
                Some(e) => Some(e@),
                None => None,
            },
        ) is None,
{
    if verdict.integrity == Integrity::Mismatch {
        return Some("remote upload SHA256 mismatch".to_owned());
    }
    match &verdict.error {
        Some(e) => {
            let mut out: Vec<char> = Vec::new();
            push_str(&mut out, "remote upload failed: ");
            push_str(&mut out, e.as_str());
            Some(string_of(out.as_slice()))
        },
        None => None,
    }
}

// ---------------------------------------------------------------------------
// Browser (device) login
// ---------------------------------------------------------------------------

/// What a failed token poll means.
#[derive(Clone, Copy, Debug, PartialEq, Eq, Structural)]
pub enum PollVerdict {
    /// The operator has not authorized yet: poll again.
    Pending,
    /// The device code expired.
    Expired,
    /// The device code was used already.
    AlreadyConsumed,
    /// The server does not know the device code.
    InvalidCode,
    /// Any other failure.
    Failed,
}

/// Classification of a poll error text.
pub open spec fn poll_verdict_spec(error: Seq<char>) -> PollVerdict {
    if error == "authorization_pending"@ {
        PollVerdict::Pending
    } else if error == "expired_token"@ {
        PollVerdict::Expired
    } else if error == "already_consumed"@ {
        PollVerdict::AlreadyConsumed
    } else if error == "invalid_device_code"@ {
        PollVerdict::InvalidCode
    } else {
        PollVerdict::Failed
    }
}

/// Classifies a failed token poll by the `error` field of its body, or by
/// the whole body when that field is absent.
pub fn classify_token_poll(parsed_error: Option<String>, body: &str) -> (r: PollVerdict)
    ensures
        r == poll_verdict_spec(
            match parsed_error {
                Some(e) => e@,
                None => body@,
            },
        ),
{
    let error = match parsed_error {
        Some(e) => chars_of_string(&e),
        None => chars_of(body),
    };
    if chars_eq_str(error.as_slice(), "authorization_pending") {
        PollVerdict::Pending
    } else if chars_eq_str(error.as_slice(), "expired_token") {
        PollVerdict::Expired
    } else if chars_eq_str(error.as_slice(), "already_consumed") {
        PollVerdict::AlreadyConsumed
    } else if chars_eq_str(error.as_slice(), "invalid_device_code") {
        PollVerdict::InvalidCode
    } else {
        PollVerdict::Failed
    }
}

// ---------------------------------------------------------------------------
// Agent and alert listings
// ---------------------------------------------------------------------------

/// The elements of `body.data` when it is an array; none otherwise.
pub open spec fn data_items_spec(body: JsonValue) -> Seq<JsonValue> {
    match json_get(body, "data"@) {
        Some(JsonValue::Array(a)) => a@,
        _ => Seq::empty(),
    }
}

/// The list in a server reply (`data`), empty when absent.
pub fn data_items(body: &JsonValue) -> (r: &[JsonValue])
    ensures
        r@ == data_items_spec(*body),
{
    match body.get("data") {
        Some(d) => match d.as_array() {
            Some(a) => a.as_slice(),
            None => &[],
        },
        None => &[],
    }
}

/// One row of the agent table.
#[derive(Debug)]
pub struct AgentRow {
    pub id: String,
    pub hostname: String,
    pub os: String,
    pub status: String,
    pub health: String,
    pub last_seen: String,
}

/// Operating system text: type and version joined by a space, trimmed.
pub open spec fn agent_os_spec(agent: JsonValue) -> Seq<char> {
    trimmed(
        string_field_spec(agent, "os_type"@, ""@) + " "@ + string_field_spec(
            agent,
            "os_version"@,
            ""@,
        ),
    )
}

/// The table row for one agent object.
pub fn agent_row(agent: &JsonValue) -> (r: AgentRow)
    ensures
        r.id@ == string_field_spec(*agent, "id"@, ""@),
        r.hostname@ == truncate_chars_spec(
            string_field_spec(*agent, "hostname"@, "unknown"@),
            32,
        ),
        r.os@ == agent_os_spec(*agent),
        r.status@ == string_field_spec(*agent, "status"@, "unknown"@),
        r.health@ == string_field_nested_spec(
            *agent,
            seq!["health_status"@, "status"@],
            "unknown"@,
        ),
        r.last_seen@ == string_field_spec(*agent, "last_seen"@, "-"@),
{
    let status = string_field(agent, "status", "unknown");
    let host = string_field(agent, "hostname", "unknown");
    let os_type = string_field(agent, "os_type", "");
    let os_version = string_field(agent, "os_version", "");
    let mut os: Vec<char> = Vec::new();
    push_str(&mut os, os_type.as_str());
    push_str(&mut os, " ");
    push_str(&mut os, os_version.as_str());
    let os_trimmed = trim(os.as_slice());
    let keys: [&str; 2] = ["health_status", "status"];
    let health = string_field_nested(agent, &keys, "unknown");
    proof {
        let ks = Seq::new(keys@.len(), |i: int| keys@[i]@);
        assert(ks =~= seq!["health_status"@, "status"@]);
    }
    AgentRow {
        id: string_field(agent, "id", ""),
        hostname: truncate(host.as_str(), 32),
        os: string_of(os_trimmed.as_slice()),
        status,
        health,
        last_seen: string_field(agent, "last_seen", "-"),
    }
}

/// One row of the server alert table.
#[derive(Debug)]
pub struct RemoteAlertRow {
    pub id: String,
    pub time: String,
    pub severity: String,
    pub status: String,
    pub agent: String,
    pub title: String,
}

/// The table row for one alert object.
pub fn remote_alert_row(alert: &JsonValue) -> (r: RemoteAlertRow)
    ensures
        r.id@ == string_field_spec(*alert, "id"@, ""@),
        r.time@ == string_field_spec(*alert, "created_at"@, "-"@),
        r.severity@ == string_field_spec(*alert, "severity"@, "unknown"@),
        r.status@ == string_field_spec(*alert, "status"@, "-"@),
        r.agent@ == string_field_spec(*alert, "agent_id"@, ""@),
        r.title@ == truncate_chars_spec(string_field_spec(*alert, "title"@, "untitled"@), 64),
{
    let title = string_field(alert, "title", "untitled");
    RemoteAlertRow {
        id: string_field(alert, "id", ""),
        time: string_field(alert, "created_at", "-"),
        severity: string_field(alert, "severity", "unknown"),
        status: string_field(alert, "status", "-"),
        agent: string_field(alert, "agent_id", ""),
        title: truncate(title.as_str(), 64),
    }
}

/// The total that a server listing reports: `meta.total` when it is a
/// non-negative integer, else the number of items shown; `None` when the
/// reply has no `meta`.
pub open spec fn listing_total_spec(body: JsonValue, shown: nat) -> Option<nat> {
    match json_get(body, "meta"@) {
        None => None,
        Some(meta) => match crate::json::json_u64(json_get(meta, "total"@)) {
            Some(t) => Some(t as nat),
            None => Some(shown),
        },
    }
}

/// The total a server listing reports, for the summary line.
pub fn listing_total(body: &JsonValue, shown: usize) -> (r: Option<u64>)
    ensures
        r matches Some(t) ==> listing_total_spec(*body, shown as nat) == Some(t as nat),
        r is None ==> listing_total_spec(*body, shown as nat) is None,
{
    match body.get("meta") {
        None => None,
        Some(meta) => match meta.get("total") {
            Some(t) => match t.as_u64() {
                Some(v) => Some(v),
                None => Some(shown as u64),
            },
            None => Some(shown as u64),
        },
    }
}

/// A non-empty optional text.
pub open spec fn nonempty(v: Option<String>) -> Option<Seq<char>> {
    match v {
        Some(s) => if s@.len() > 0 {
            Some(s@)
        } else {
            None
        },
        None => None,
    }
}

fn nonempty_exec(v: &Option<String>) -> (r: Option<String>)
    ensures
        match r {
            Some(s) => nonempty(*v) == Some(s@),
            None => nonempty(*v) is None,
        },
{
    match v {
        Some(s) => {
            let c = chars_of_string(s);
            if c.len() > 0 {
                Some(s.clone())
            } else {
                None
            }
        },
        None => None,
    }
}

/// Views of query parameters.
pub open spec fn query_view(q: Seq<(String, String)>) -> Seq<(Seq<char>, Seq<char>)> {
    Seq::new(q.len(), |i: int| (q[i].0@, q[i].1@))
}

/// Query parameters of the agent listing: `status` when given and not empty.
pub fn agents_query(status: &Option<String>) -> (r: Vec<(String, String)>)
    ensures
        query_view(r@) == match nonempty(*status) {
            Some(s) => seq![("status"@, s)],
            None => Seq::empty(),
        },
{
    let mut q: Vec<(String, String)> = Vec::new();
    if let Some(s) = nonempty_exec(status) {
        q.push(("status".to_owned(), s));
    }
    assert(query_view(q@) =~= match nonempty(*status) {
        Some(s) => seq![("status"@, s)],
        None => Seq::<(Seq<char>, Seq<char>)>::empty(),
    });
    q
}

/// Query parameters of the alert listing: `per_page` (the limit, at most
/// 200), then `agent_id`, `severity` and `status` when given (and, for the
/// texts, not empty).
pub open spec fn alerts_query_spec(
    limit: u32,
    agent_id: Option<String>,
    severity: Option<Severity>,
    status: Option<String>,
) -> Seq<(Seq<char>, Seq<char>)> {
    let per_page: nat = if limit <= 200 {
        limit as nat
    } else {
        200
    };
    let a = seq![("per_page"@, dec_nat(per_page))];
    let b = match nonempty(agent_id) {
        Some(s) => a.push(("agent_id"@, s)),
        None => a,
    };
    let c = match severity {
        Some(sev) => b.push(("severity"@, crate::cli::severity_name(sev))),
        None => b,
    };
    match nonempty(status) {
        Some(s) => c.push(("status"@, s)),
        None => c,
    }
}

/// Query parameters of the server alert listing.
pub fn alerts_query(
    limit: u32,
    agent_id: &Option<String>,
    severity: Option<Severity>,
    status: &Option<String>,
) -> (r: Vec<(String, String)>)
    ensures
        query_view(r@) == alerts_query_spec(limit, *agent_id, severity, *status),
{
    let per_page: u64 = if limit <= 200 {
        limit as u64
    } else {
        200
    };
    let pp = dec_u64(per_page);
    let mut q: Vec<(String, String)> = Vec::new();
    q.push(("per_page".to_owned(), string_of(pp.as_slice())));
    let ghost a = query_view(q@);
    if let Some(s) = nonempty_exec(agent_id) {
        q.push(("agent_id".to_owned(), s));
    }
    assert(query_view(q@) =~= match nonempty(*agent_id) {
        Some(s) => a.push(("agent_id"@, s)),
        None => a,
    });
    let ghost b = query_view(q@);
    if let Some(sev) = severity {
        q.push(("severity".to_owned(), sev.to_string()));
    }
    assert(query_view(q@) =~= match severity {
        Some(sev) => b.push(("severity"@, crate::cli::severity_name(sev))),
        None => b,
    });
    let ghost c = query_view(q@);
    if let Some(s) = nonempty_exec(status) {
        q.push(("status".to_owned(), s));
    }
    assert(query_view(q@) =~= match nonempty(*status) {
        Some(s) => c.push(("status"@, s)),
        None => c,
    });
    q
}

// ---------------------------------------------------------------------------
// Requests to the server
// ---------------------------------------------------------------------------

/// The address of an API endpoint: `<server>/api/v1/<path>`.
pub fn api_url(server: &str, path: &str) -> (r: String)
    ensures
        r@ == server@ + "/api/v1/"@ + path@,
{
    let mut v = chars_of(server);
    push_str(&mut v, "/api/v1/");
    push_str(&mut v, path);
    string_of(v.as_slice())
}

/// The address of a device-login endpoint (`device` or `token`), on the
/// server with every trailing `/` removed.
pub fn device_auth_url(server: &str, endpoint: &str) -> (r: String)
    ensures
        r@ == trim_end_char(server@, '/') + "/api/v1/cli-auth/"@ + endpoint@,
{
    let sc = chars_of(server);
    let mut v = trim_end_matches(sc.as_slice(), '/');
    push_str(&mut v, "/api/v1/cli-auth/");
    push_str(&mut v, endpoint);
    string_of(v.as_slice())
}

/// The body that starts a device login: the client's name and the scope it
/// asks for.
pub fn device_start_body() -> (r: JsonValue)
    ensures
        r matches JsonValue::Object(m) && m@.len() == 2 && m@[0].0@ == "client_name"@ && (
        m@[0].1 matches JsonValue::Str(n) && n@ == "tamandua-ctl"@) && m@[1].0@ == "scopes"@ && (
        m@[1].1 matches JsonValue::Array(a) && a@.len() == 1 && (a@[0] matches JsonValue::Str(
            sc,
        ) && sc@ == "live_response:shell"@)),
{
    let mut scopes: Vec<JsonValue> = Vec::new();
    scopes.push(string_value("live_response:shell"));
    object2(
        "client_name",
        string_value("tamandua-ctl"),
        "scopes",
        JsonValue::Array(scopes),
    )
}

/// The body of a token poll: the device code.
pub fn device_token_body(device_code: &str) -> (r: JsonValue)
    ensures
        r matches JsonValue::Object(m) && m@.len() == 1 && m@[0].0@ == "device_code"@ && (
        m@[0].1 matches JsonValue::Str(c) && c@ == device_code@),
{
    object1("device_code", string_value(device_code))
}

/// The device code's lifetime has run out after `elapsed_ms` milliseconds
/// of polling, for a code that lives `expires_in` seconds.
pub fn device_login_expired(elapsed_ms: u64, expires_in: u64) -> (r: bool)
    ensures
        r == (elapsed_ms as int >= expires_in as int * 1000),
{
    if expires_in > u64::MAX / 1000 {
        false
    } else {
        elapsed_ms >= expires_in * 1000
    }
}

/// The message a token poll stops with, if it stops: none while pending;
/// for any other failure the HTTP status (as the caller shows it) and the
/// body.
pub open spec fn poll_failure_text(verdict: PollVerdict, status: Seq<char>, body: Seq<char>) -> Option<
    Seq<char>,
> {
    match verdict {
        PollVerdict::Pending => None,
        PollVerdict::Expired => Some("CLI authorization expired; run tamandua-ctl remote login again"@),
        PollVerdict::AlreadyConsumed => Some("CLI authorization code was already consumed"@),
        PollVerdict::InvalidCode => Some("CLI authorization code is invalid"@),
        PollVerdict::Failed => Some("CLI authorization failed: HTTP "@ + status + " "@ + body),
    }
}

/// The message a token poll stops with for `verdict`, if it stops.
pub fn poll_failure_message(verdict: PollVerdict, status: &str, body: &str) -> (r: Option<String>)
    ensures
        crate::phoenix::opt_view(r) == poll_failure_text(verdict, status@, body@),
{
    match verdict {
        PollVerdict::Pending => None,
        PollVerdict::Expired => Some(
            "CLI authorization expired; run tamandua-ctl remote login again".to_owned(),
        ),
        PollVerdict::AlreadyConsumed => Some("CLI authorization code was already consumed".to_owned()),
        PollVerdict::InvalidCode => Some("CLI authorization code is invalid".to_owned()),
        PollVerdict::Failed => {
            let mut v = chars_of("CLI authorization failed: HTTP ");
            push_str(&mut v, status);
            push_str(&mut v, " ");
            push_str(&mut v, body);
            Some(string_of(v.as_slice()))
        },
    }
}

/// Seconds between token polls: the server's interval, at least one.
pub fn poll_interval_secs(interval: u64) -> (r: u64)
    ensures
        r == if interval >= 1 {
            interval
        } else {
            1
        },
{
    if interval >= 1 {
        interval
    } else {
        1
    }
}

/// The body that opens a live-response session for an upload.
pub fn upload_session_body(agent_id: &str) -> (r: JsonValue)
    ensures
        r matches JsonValue::Object(m) && m@.len() == 2 && m@[0].0@ == "agent_id"@ && (
        m@[0].1 matches JsonValue::Str(a) && a@ == agent_id@) && m@[1].0@ == "notes"@ && (
        m@[1].1 matches JsonValue::Str(n) && n@ == "tamandua-ctl remote upload"@),
{
    object2(
        "agent_id",
        string_value(agent_id),
        "notes",
        string_value("tamandua-ctl remote upload"),
    )
}

/// The body that asks the agent to write a file: the `upload_file`
/// command, the remote path, the content in Base64, and the timeout in
/// milliseconds (saturating).
pub fn upload_execute_body(remote_path: &str, content: &[u8], timeout_secs: u64) -> (r: JsonValue)
    requires
        crate::crypto::base64_len(content@.len()) <= usize::MAX,
    ensures
        r matches JsonValue::Object(m) && m@.len() == 3 && m@[0].0@ == "command"@ && (
        m@[0].1 matches JsonValue::Str(c) && c@ == "upload_file"@) && m@[1].0@ == "args"@ && (
        m@[1].1 matches JsonValue::Object(a) && a@.len() == 2 && a@[0].0@ == "path"@ && (
        a@[0].1 matches JsonValue::Str(p) && p@ == remote_path@) && a@[1].0@ == "content"@ && (
        a@[1].1 matches JsonValue::Str(b) && b@ == crate::crypto::spec_base64(content@)))
            && m@[2].0@ == "timeout"@ && m@[2].1 == JsonValue::Number(
            JsonNumber::PosInt(
                if timeout_secs * 1000 <= u64::MAX {
                    (timeout_secs * 1000) as u64
                } else {
                    u64::MAX
                },
            ),
        ),
{
    let encoded = crate::crypto::base64_encode(content);
    let args = object2(
        "path",
        string_value(remote_path),
        "content",
        JsonValue::Str(encoded),
    );
    let timeout_ms: u64 = if timeout_secs <= u64::MAX / 1000 {
        timeout_secs * 1000
    } else {
        u64::MAX
    };
    let mut m: Vec<(String, JsonValue)> = Vec::new();
    m.push(("command".to_owned(), string_value("upload_file")));
    m.push(("args".to_owned(), args));
    m.push(("timeout".to_owned(), JsonValue::Number(JsonNumber::PosInt(timeout_ms))));
    JsonValue::Object(m)
}

/// The body that closes the session after an upload.
pub fn close_session_body() -> (r: JsonValue)
    ensures
        r matches JsonValue::Object(m) && m@.len() == 1 && m@[0].0@ == "reason"@ && (
        m@[0].1 matches JsonValue::Str(t) && t@ == "tamandua_ctl_upload_complete"@),
{
    object1("reason", string_value("tamandua_ctl_upload_complete"))
}

/// The HTTP timeout of an upload, in seconds: the command's timeout, at
/// least 30, plus 30.
pub fn upload_http_timeout_secs(timeout: u64) -> (r: u64)
    requires
        timeout <= u64::MAX - 30,
    ensures
        r == (if timeout >= 30 {
            timeout
        } else {
            30
        }) + 30,
{
    if timeout >= 30 {
        timeout + 30
    } else {
        60
    }
}

/// Why a server reply is refused.
#[derive(Clone, Copy, Debug, PartialEq, Eq, Structural)]
pub enum ApiFailure {
    /// The HTTP status is not a success.
    Status,
    /// The body is not JSON.
    InvalidJson,
}

/// What a reply gives, from whether its status is a success and the body:
/// the body as JSON.
pub open spec fn api_reply_spec(success: bool, body: Seq<char>) -> Result<JsonValue, ApiFailure> {
    if !success {
        Err(ApiFailure::Status)
    } else {
        match spec_parse_json(body) {
            Ok(v) => Ok(v),
            Err(_) => Err(ApiFailure::InvalidJson),
        }
    }
}

/// Reads a server reply: a failed status is refused before the body is
/// read as JSON.
pub fn api_reply(success: bool, body: &str) -> (r: Result<JsonValue, ApiFailure>)
    ensures
        r == api_reply_spec(success, body@),
{
    if !success {
        return Err(ApiFailure::Status);
    }
    match parse_json(body) {
        Ok(v) => Ok(v),
        Err(_) => Err(ApiFailure::InvalidJson),
    }
}

} // verus!
