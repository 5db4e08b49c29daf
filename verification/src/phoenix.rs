//! The live-response channel: Phoenix frames, message references, shell
//! input handling, echo suppression, and the one-shot command wrapper and
//! its completion marker.

use crate::remote::text_or;
use crate::json::{
    json_get, json_str, parse_json, spec_parse_json, JsonNumber, JsonValue,
};
use crate::text::{
    chars_of, chars_of_string, contains, contains_seq, dec_nat, dec_u64, find_last, has_prefix,
    is_digit, is_whitespace, is_ws, join_seq, join_strings, last_occurrence, parse_i32,
    parse_int_spec, parse_u16, push_all, push_str, split_whitespace, starts_with, string_of,
    strings_view, trim, trimmed, words,
};
use std::collections::VecDeque;
use vstd::prelude::*;

verus! {

// ---------------------------------------------------------------------------
// Message references
// ---------------------------------------------------------------------------

/// Source of message references: successive decimal numbers from 0.
#[derive(Debug, Default)]
pub struct RefCounter {
    value: u64,
}

impl RefCounter {
    /// The number the next reference will carry.
    pub closed spec fn count(&self) -> u64 {
        self.value
    }

    /// A counter whose first reference is `0`.
    pub fn new() -> (r: RefCounter)
        ensures
            r.count() == 0,
    {
        RefCounter { value: 0 }
    }

    /// The next reference, as decimal text; the counter then moves on by one
    /// (wrapping at `u64::MAX`).
    pub fn next(&mut self) -> (r: String)
        ensures
            r@ == dec_nat(old(self).count() as nat),
            final(self).count() == old(self).count().wrapping_add(1),
    {
        let current = self.value;
        self.value = current.wrapping_add(1);
        let d = dec_u64(current);
        string_of(d.as_slice())
    }
}

/// The reference a counter hands out differs from every reference it
/// hands out for another count, so replies are matched to the right
/// request.
pub proof fn lemma_references_distinct(a: u64, b: u64)
    requires
        a != b,
    ensures
        dec_nat(a as nat) != dec_nat(b as nat),
{
    crate::text::lemma_dec_nat_injective(a as nat, b as nat);
}

/// A run of `next` calls on a fresh counter: `counts[k]` is the counter's
/// count before the k-th call. The k-th reference of the run is the decimal
/// text of k, and no two references of the run are equal (for runs of at
/// most 2^64 calls, after which the count wraps).
pub proof fn lemma_reference_run(counts: Seq<u64>)
    requires
        counts.len() <= u64::MAX as nat + 1,
        counts.len() > 0 ==> counts[0] == 0,
        forall|k: int|
            0 < k < counts.len() ==> #[trigger] counts[k] == counts[k - 1].wrapping_add(1),
    ensures
        forall|k: int| 0 <= k < counts.len() ==> #[trigger] dec_nat(counts[k] as nat) == dec_nat(k as nat),
        forall|i: int, j: int|
            0 <= i < j < counts.len() ==> dec_nat(counts[i] as nat) != dec_nat(counts[j] as nat),
{
    lemma_counts_are_indices(counts, counts.len() as int);
    assert forall|i: int, j: int| 0 <= i < j < counts.len() implies dec_nat(counts[i] as nat)
        != dec_nat(counts[j] as nat) by {
        assert(counts[i] == i && counts[j] == j);
        crate::text::lemma_dec_nat_injective(counts[i] as nat, counts[j] as nat);
    }
}

proof fn lemma_counts_are_indices(counts: Seq<u64>, n: int)
    requires
        0 <= n <= counts.len(),
        counts.len() <= u64::MAX as nat + 1,
        counts.len() > 0 ==> counts[0] == 0,
        forall|k: int|
            0 < k < counts.len() ==> #[trigger] counts[k] == counts[k - 1].wrapping_add(1),
    ensures
        forall|k: int| 0 <= k < n ==> #[trigger] counts[k] == k,
    decreases n,
{
    if n > 0 {
        lemma_counts_are_indices(counts, n - 1);
        if n > 1 {
            let prev = counts[n - 2];
            assert(prev == n - 2);
            assert(counts[n - 1] == prev.wrapping_add(1));
            assert(prev < u64::MAX);
        }
    }
}

// ---------------------------------------------------------------------------
// Frames
// ---------------------------------------------------------------------------

/// A Phoenix channel frame: `[join_ref, ref, topic, event, payload]`.
#[derive(Debug)]
pub struct PhoenixFrame {
    pub reference: Option<String>,
    pub topic: String,
    pub event: String,
    pub payload: JsonValue,
}

/// The text of an optional string value, or the empty text.
pub open spec fn str_or_empty(v: JsonValue) -> Seq<char> {
    match json_str(Some(v)) {
        Some(s) => s,
        None => Seq::empty(),
    }
}

/// Optional text by view.
pub open spec fn opt_view(v: Option<String>) -> Option<Seq<char>> {
    match v {
        Some(s) => Some(s@),
        None => None,
    }
}

/// The frame that a JSON value spells, when it is a five-element array.
pub open spec fn frame_matches(v: JsonValue, f: Option<PhoenixFrame>) -> bool {
    match v {
        JsonValue::Array(items) => if items@.len() == 5 {
            f matches Some(frame) && opt_view(frame.reference) == json_str(Some(items@[1]))
                && frame.topic@ == str_or_empty(items@[2]) && frame.event@ == str_or_empty(
                items@[3],
            ) && frame.payload == items@[4]
        } else {
            f is None
        },
        _ => f is None,
    }
}

impl PhoenixFrame {
    /// Reads a frame from socket text. Text that is not JSON is an error
    /// (the `serde_json` message); JSON that is not a five-element array is
    /// no frame.
    pub fn parse(text: &str) -> (r: Result<Option<PhoenixFrame>, String>)
        ensures
            spec_parse_json(text@) matches Err(e) ==> (r matches Err(m) && m@ == e),
            spec_parse_json(text@) matches Ok(v) ==> (r matches Ok(f) && frame_matches(v, f)),
    {
        match parse_json(text) {
            Ok(v) => Ok(PhoenixFrame::from_value(v)),
            Err(e) => Err(e),
        }
    }

    /// Reads a frame from a parsed JSON value:
    /// `[join_ref, ref, topic, event, payload]`.
    pub fn from_value(value: JsonValue) -> (r: Option<PhoenixFrame>)
        ensures
            frame_matches(value, r),
    {
        match value {
            JsonValue::Array(mut items) => {
                if items.len() != 5 {
                    return None;
                }
                let ghost all = items@;
                let payload = items.remove(4);
                let reference = match items[1].as_str() {
                    Some(s) => Some(s.to_owned()),
                    None => None,
                };
                let topic = match items[2].as_str() {
                    Some(s) => s.to_owned(),
                    None => String::new(),
                };
                let event = match items[3].as_str() {
                    Some(s) => s.to_owned(),
                    None => String::new(),
                };
                assert(items@[1] == all[1] && items@[2] == all[2] && items@[3] == all[3]);
                Some(PhoenixFrame { reference, topic, event, payload })
            },
            _ => None,
        }
    }

    /// Whether the frame's event is `name`.
    pub fn is_event(&self, name: &str) -> (r: bool)
        ensures
            r == (self.event@ == name@),
    {
        let e = chars_of_string(&self.event);
        crate::text::chars_eq_str(e.as_slice(), name)
    }

    /// Whether the frame answers the message with reference `join_ref`.
    pub fn answers(&self, join_ref: &str) -> (r: bool)
        ensures
            r == (self.reference matches Some(x) && x@ == join_ref@),
    {
        match &self.reference {
            Some(x) => {
                let c = chars_of_string(x);
                crate::text::chars_eq_str(c.as_slice(), join_ref)
            },
            None => false,
        }
    }
}

/// A string value.
pub fn string_value(s: &str) -> (r: JsonValue)
    ensures
        r matches JsonValue::Str(t) && t@ == s@,
{
    JsonValue::Str(s.to_owned())
}

/// An object from members given in key order.
pub fn object(members: Vec<(String, JsonValue)>) -> (r: JsonValue)
    ensures
        r == JsonValue::Object(members),
{
    JsonValue::Object(members)
}

/// A one-member object.
pub fn object1(key: &str, value: JsonValue) -> (r: JsonValue)
    ensures
        r matches JsonValue::Object(m) && m@.len() == 1 && m@[0].0@ == key@ && m@[0].1 == value,
{
    let mut m: Vec<(String, JsonValue)> = Vec::new();
    m.push((key.to_owned(), value));
    JsonValue::Object(m)
}

/// A two-member object.
pub fn object2(key1: &str, value1: JsonValue, key2: &str, value2: JsonValue) -> (r: JsonValue)
    ensures
        r matches JsonValue::Object(m) && m@.len() == 2 && m@[0].0@ == key1@ && m@[0].1 == value1
            && m@[1].0@ == key2@ && m@[1].1 == value2,
{
    let mut m: Vec<(String, JsonValue)> = Vec::new();
    m.push((key1.to_owned(), value1));
    m.push((key2.to_owned(), value2));
    JsonValue::Object(m)
}

/// The empty object `{}`.
pub fn empty_object() -> (r: JsonValue)
    ensures
        r matches JsonValue::Object(m) && m@.len() == 0,
{
    JsonValue::Object(Vec::new())
}

/// The frame sent for a message: `[join_ref, reference, topic, event,
/// payload]`, with `null` for a missing join reference.
pub fn phoenix_message(
    join_ref: Option<&str>,
    reference: &str,
    topic: &str,
    event: &str,
    payload: JsonValue,
) -> (r: JsonValue)
    ensures
        r matches JsonValue::Array(items) && items@.len() == 5 && match join_ref {
            Some(j) => json_str(Some(items@[0])) == Some(j@),
            None => items@[0] is Null,
        } && json_str(Some(items@[1])) == Some(reference@) && json_str(Some(items@[2])) == Some(
            topic@,
        ) && json_str(Some(items@[3])) == Some(event@) && items@[4] == payload,
{
    let mut items: Vec<JsonValue> = Vec::new();
    match join_ref {
        Some(j) => items.push(string_value(j)),
        None => items.push(JsonValue::Null),
    }
    items.push(string_value(reference));
    items.push(string_value(topic));
    items.push(string_value(event));
    items.push(payload);
    JsonValue::Array(items)
}

/// The topic of an agent's live-response channel: `live_response:<agent>`.
pub fn live_response_topic(agent_id: &str) -> (r: String)
    ensures
        r@ == "live_response:"@ + agent_id@,
{
    let mut v: Vec<char> = Vec::new();
    push_str(&mut v, "live_response:");
    push_str(&mut v, agent_id);
    string_of(v.as_slice())
}

/// Payload of the channel join.
pub fn join_payload(view_only: bool, supervisor_mode: bool) -> (r: JsonValue)
    ensures
        json_get(r, "view_only"@) == Some(JsonValue::Bool(view_only)),
        json_get(r, "supervisor_mode"@) == Some(JsonValue::Bool(supervisor_mode)),
{
    let r = object2(
        "supervisor_mode",
        JsonValue::Bool(supervisor_mode),
        "view_only",
        JsonValue::Bool(view_only),
    );
    proof {
        reveal_strlit("supervisor_mode");
        reveal_strlit("view_only");
        let m = r->Object_0;
        reveal_with_fuel(crate::json::member_lookup, 3);
        assert("supervisor_mode"@[0] != "view_only"@[0]);
        assert(m@[0].0@ != "view_only"@);
        assert(m@.drop_first().drop_first().len() == 0);
    }
    r
}

// ---------------------------------------------------------------------------
// Interactive input
// ---------------------------------------------------------------------------

/// Help line of the interactive shell.
pub fn shell_help_text() -> (r: String)
    ensures
        r@ == "commands: type shell commands normally; :history, :builtin <cmd>, :resize <cols> <rows>, :quit"@,
{
    "commands: type shell commands normally; :history, :builtin <cmd>, :resize <cols> <rows>, :quit".to_owned()
}

/// Most pending echoes kept.
pub const MAX_PENDING_ECHOES: usize = 16;

/// A queue of texts cut to its last `MAX_PENDING_ECHOES` entries.
pub open spec fn keep_last(q: Seq<Seq<char>>) -> Seq<Seq<char>> {
    if q.len() > MAX_PENDING_ECHOES {
        q.subrange(q.len() - MAX_PENDING_ECHOES, q.len() as int)
    } else {
        q
    }
}

/// Views of the texts in a queue.
pub open spec fn queue_view(q: VecDeque<String>) -> Seq<Seq<char>> {
    strings_view(q@)
}

/// What a line typed into the interactive shell asks for.
#[derive(Debug)]
pub enum ShellLineAction {
    /// End the session (`:quit`, `:exit`).
    Quit,
    /// Show the help line (`:help`).
    Help,
    /// Ask for the session history (`:history`).
    History,
    /// Run a built-in command (`:builtin <cmd> [args...]`).
    Builtin { command: String, args: Vec<String> },
    /// `:builtin` without a command.
    BuiltinUsage,
    /// Resize the terminal (`:resize <cols> <rows>`).
    Resize { cols: u16, rows: u16 },
    /// `:resize` without exactly two values.
    ResizeUsage,
    /// Send the line to the shell, with a line ending.
    Input { data: String },
}

fn drop_prefix(line: &[char], n: usize) -> (r: Vec<char>)
    requires
        n <= line@.len(),
    ensures
        r@ == line@.subrange(n as int, line@.len() as int),
{
    let mut out: Vec<char> = Vec::new();
    let mut i: usize = n;
    while i < line.len()
        invariant
            n <= i <= line@.len(),
            out@ == line@.subrange(n as int, i as int),
        decreases line@.len() - i,
    {
        out.push(line[i]);
        i = i + 1;
        assert(out@ =~= line@.subrange(n as int, i as int));
    }
    out
}

/// The words after a command prefix of `line`.
pub open spec fn words_after(line: Seq<char>, prefix: Seq<char>) -> Seq<Seq<char>> {
    words(line.subrange(prefix.len() as int, line.len() as int))
}

/// What `shell_line_action` answers for `line`, apart from the input case.
pub open spec fn shell_line_ok(line: Seq<char>, r: Result<ShellLineAction, String>) -> bool {
    let t = trimmed(line);
    let bw = words_after(line, ":builtin "@);
    let rw = words_after(line, ":resize "@);
    if t == ":quit"@ || t == ":exit"@ {
        r matches Ok(ShellLineAction::Quit)
    } else if t == ":help"@ {
        r matches Ok(ShellLineAction::Help)
    } else if t == ":history"@ {
        r matches Ok(ShellLineAction::History)
    } else if has_prefix(line, ":builtin "@) {
        if bw.len() == 0 {
            r matches Ok(ShellLineAction::BuiltinUsage)
        } else {
            r matches Ok(ShellLineAction::Builtin { command, args }) && command@ == bw[0]
                && strings_view(args@) == bw.drop_first()
        }
    } else if has_prefix(line, ":resize "@) {
        if rw.len() != 2 {
            r matches Ok(ShellLineAction::ResizeUsage)
        } else {
            match (
                parse_int_spec(rw[0], false, 0, u16::MAX as int),
                parse_int_spec(rw[1], false, 0, u16::MAX as int),
            ) {
                (None, _) => r matches Err(m) && m@ == "invalid cols value"@,
                (Some(_), None) => r matches Err(m) && m@ == "invalid rows value"@,
                (Some(c), Some(w)) => r matches Ok(ShellLineAction::Resize { cols, rows })
                    && cols as int == c && rows as int == w,
            }
        }
    } else {
        r matches Ok(ShellLineAction::Input { data }) && data@ == line + "\r\n"@
    }
}

/// Whether `line` is plain shell input (none of the `:` commands).
pub open spec fn is_shell_input(line: Seq<char>) -> bool {
    let t = trimmed(line);
    !(t == ":quit"@ || t == ":exit"@ || t == ":help"@ || t == ":history"@) && !has_prefix(
        line,
        ":builtin "@,
    ) && !has_prefix(line, ":resize "@)
}

/// A line typed at the shell that holds no `:` is not a shell command: it
/// is sent to the agent as input with a CR LF added (and, when not empty,
/// waits for its echo).
pub proof fn lemma_plain_line_is_input(line: Seq<char>, r: Result<ShellLineAction, String>)
    requires
        forall|i: int| 0 <= i < line.len() ==> line[i] != ':',
    ensures
        is_shell_input(line),
        shell_line_ok(line, r) == (r matches Ok(ShellLineAction::Input { data }) && data@ == line
            + "\r\n"@),
{
    reveal_strlit(":quit");
    reveal_strlit(":exit");
    reveal_strlit(":help");
    reveal_strlit(":history");
    reveal_strlit(":builtin ");
    reveal_strlit(":resize ");
    lemma_trim_keeps_no_colon(line);
    let t = trimmed(line);
    if t.len() > 0 {
        assert(t[0] != ':');
    }
    assert(t != ":quit"@ && t != ":exit"@ && t != ":help"@ && t != ":history"@) by {
        if t.len() > 0 {
            assert(t[0] != ":quit"@[0]);
        }
    }
    if has_prefix(line, ":builtin "@) {
        assert(line.subrange(0, 9)[0] == line[0]);
        assert(":builtin "@[0] == ':');
    }
    if has_prefix(line, ":resize "@) {
        assert(line.subrange(0, 8)[0] == line[0]);
        assert(":resize "@[0] == ':');
    }
}

proof fn lemma_trim_keeps_no_colon(s: Seq<char>)
    requires
        forall|i: int| 0 <= i < s.len() ==> s[i] != ':',
    ensures
        forall|i: int| 0 <= i < trimmed(s).len() ==> trimmed(s)[i] != ':',
{
    lemma_trim_start_no_colon(s);
    lemma_trim_end_no_colon(crate::text::trim_start(s));
}

proof fn lemma_trim_start_no_colon(s: Seq<char>)
    requires
        forall|i: int| 0 <= i < s.len() ==> s[i] != ':',
    ensures
        forall|i: int| 0 <= i < crate::text::trim_start(s).len() ==> crate::text::trim_start(s)[i]
            != ':',
    decreases s.len(),
{
    if s.len() > 0 && is_ws(s[0]) {
        assert forall|i: int| 0 <= i < s.drop_first().len() implies s.drop_first()[i] != ':' by {
            assert(s.drop_first()[i] == s[i + 1]);
        }
        lemma_trim_start_no_colon(s.drop_first());
        assert(crate::text::trim_start(s) == crate::text::trim_start(s.drop_first()));
    }
}

proof fn lemma_trim_end_no_colon(s: Seq<char>)
    requires
        forall|i: int| 0 <= i < s.len() ==> s[i] != ':',
    ensures
        forall|i: int| 0 <= i < crate::text::trim_end(s).len() ==> crate::text::trim_end(s)[i]
            != ':',
    decreases s.len(),
{
    if s.len() > 0 && is_ws(s.last()) {
        assert forall|i: int| 0 <= i < s.drop_last().len() implies s.drop_last()[i] != ':' by {
            assert(s.drop_last()[i] == s[i]);
        }
        lemma_trim_end_no_colon(s.drop_last());
        assert(crate::text::trim_end(s) == crate::text::trim_end(s.drop_last()));
    }
}

/// Decides what a typed line does. A line that is none of the `:` commands
/// is shell input; a non-empty one is also remembered so that its echo can
/// be removed from the output (at most `MAX_PENDING_ECHOES` are kept).
pub fn shell_line_action(line: &str, pending_echoes: &mut VecDeque<String>) -> (r: Result<
    ShellLineAction,
    String,
>)
    ensures
        shell_line_ok(line@, r),
        is_shell_input(line@) && line@.len() > 0 ==> queue_view(*final(pending_echoes))
            == keep_last(queue_view(*old(pending_echoes)).push(line@)),
        is_shell_input(line@) && line@.len() == 0 ==> final(pending_echoes)@ == old(
            pending_echoes,
        )@,
        !is_shell_input(line@) ==> final(pending_echoes)@ == old(pending_echoes)@,
{
    let lc = chars_of(line);
    let t = trim(lc.as_slice());
    if crate::text::chars_eq_str(t.as_slice(), ":quit") || crate::text::chars_eq_str(
        t.as_slice(),
        ":exit",
    ) {
        return Ok(ShellLineAction::Quit);
    }
    if crate::text::chars_eq_str(t.as_slice(), ":help") {
        return Ok(ShellLineAction::Help);
    }
    if crate::text::chars_eq_str(t.as_slice(), ":history") {
        return Ok(ShellLineAction::History);
    }
    let bp = chars_of(":builtin ");
    if starts_with(lc.as_slice(), bp.as_slice()) {
        let rest = drop_prefix(lc.as_slice(), bp.len());
        let ws = split_whitespace(rest.as_slice());
        if ws.len() == 0 {
            return Ok(ShellLineAction::BuiltinUsage);
        }
        let command = string_of(ws[0].as_slice());
        let mut args: Vec<String> = Vec::new();
        let mut i: usize = 1;
        while i < ws.len()
            invariant
                1 <= i <= ws@.len(),
                strings_view(args@) == Seq::new(ws@.len(), |k: int| ws@[k]@).subrange(1, i as int),
            decreases ws@.len() - i,
        {
            let ghost prev = strings_view(args@);
            let a = string_of(ws[i].as_slice());
            args.push(a);
            assert(strings_view(args@) =~= prev.push(ws@[i as int]@));
            i = i + 1;
            assert(strings_view(args@) =~= Seq::new(ws@.len(), |k: int| ws@[k]@).subrange(
                1,
                i as int,
            ));
        }
        proof {
            let bw = words_after(line@, ":builtin "@);
            assert(Seq::new(ws@.len(), |k: int| ws@[k]@) =~= bw);
            assert(bw.subrange(1, bw.len() as int) =~= bw.drop_first());
        }
        return Ok(ShellLineAction::Builtin { command, args });
    }
    let rp = chars_of(":resize ");
    if starts_with(lc.as_slice(), rp.as_slice()) {
        let rest = drop_prefix(lc.as_slice(), rp.len());
        let ws = split_whitespace(rest.as_slice());
        if ws.len() != 2 {
            return Ok(ShellLineAction::ResizeUsage);
        }
        let cols = match parse_u16(ws[0].as_slice()) {
            Some(c) => c,
            None => return Err("invalid cols value".to_owned()),
        };
        let rows = match parse_u16(ws[1].as_slice()) {
            Some(w) => w,
            None => return Err("invalid rows value".to_owned()),
        };
        return Ok(ShellLineAction::Resize { cols, rows });
    }
    if lc.len() > 0 {
        let ghost q = queue_view(*pending_echoes).push(line@);
        pending_echoes.push_back(line.to_owned());
        assert(queue_view(*pending_echoes) =~= q);
        let ghost mut k: int = 0;
        while pending_echoes.len() > MAX_PENDING_ECHOES
            invariant
                0 <= k <= q.len(),
                queue_view(*pending_echoes) == q.subrange(k, q.len() as int),
                pending_echoes@.len() == q.len() - k,
                k > 0 ==> q.len() - k >= MAX_PENDING_ECHOES,
            decreases pending_echoes@.len(),
        {
            let ghost before = pending_echoes@;
            let popped = pending_echoes.pop_front();
            proof {
                assert(popped is Some);
                assert(pending_echoes@ =~= before.subrange(1, before.len() as int));
                assert forall|i: int| 0 <= i < pending_echoes@.len() implies #[trigger] queue_view(
                    *pending_echoes,
                )[i] == q.subrange(k + 1, q.len() as int)[i] by {
                    assert(pending_echoes@[i] == before[i + 1]);
                    assert(strings_view(before)[i + 1] == q.subrange(k, q.len() as int)[i + 1]);
                }
                k = k + 1;
                assert(queue_view(*pending_echoes) =~= q.subrange(k, q.len() as int));
            }
        }
        proof {
            if q.len() > MAX_PENDING_ECHOES {
                assert(q.len() - k == MAX_PENDING_ECHOES);
            } else {
                assert(k == 0);
                assert(q.subrange(0, q.len() as int) =~= q);
            }
        }
    }
    let mut data: Vec<char> = Vec::new();
    push_all(&mut data, lc.as_slice());
    push_str(&mut data, "\r\n");
    Ok(ShellLineAction::Input { data: string_of(data.as_slice()) })
}

/// The channel message a shell action sends: its event and payload;
/// `None` for the actions answered locally (help and usage lines).
pub open spec fn action_message_ok(a: ShellLineAction, r: Option<(&'static str, JsonValue)>) -> bool {
    match a {
        ShellLineAction::Quit => (r matches Some(m) && m.0@ == "terminate"@ && (m.1 matches JsonValue::Object(o) && o@.len() == 0)),
        ShellLineAction::History => (r matches Some(m) && m.0@ == "get_history"@ && (m.1 matches JsonValue::Object(o) && o@.len() == 0)),
        ShellLineAction::Builtin { command, args } => (r matches Some(m) && m.0@ == "builtin"@ && (m.1 matches JsonValue::Object(o) && o@.len() == 2
            && o@[0].0@ == "command"@ && (o@[0].1 matches JsonValue::Str(c) && c@ == command@)
            && o@[1].0@ == "args"@ && (o@[1].1 matches JsonValue::Array(items) && items@.len() == args@.len()
            && forall|i: int| 0 <= i < items@.len() ==> (#[trigger] items@[i] matches JsonValue::Str(t) && t@ == args@[i]@)))),
        ShellLineAction::Resize { cols, rows } => (r matches Some(m) && m.0@ == "resize"@ && (m.1 matches JsonValue::Object(o) && o@.len() == 2
            && o@[0].0@ == "cols"@ && o@[0].1 == JsonValue::Number(JsonNumber::PosInt(cols as u64))
            && o@[1].0@ == "rows"@ && o@[1].1 == JsonValue::Number(JsonNumber::PosInt(rows as u64)))),
        ShellLineAction::Input { data } => (r matches Some(m) && m.0@ == "input"@ && (m.1 matches JsonValue::Object(o) && o@.len() == 1
            && o@[0].0@ == "data"@ && (o@[0].1 matches JsonValue::Str(d) && d@ == data@))),
        _ => r is None,
    }
}

/// The channel message that carries out a shell action.
pub fn action_message(action: &ShellLineAction) -> (r: Option<(&'static str, JsonValue)>)
    ensures
        action_message_ok(*action, r),
{
    match action {
        ShellLineAction::Quit => Some(("terminate", empty_object())),
        ShellLineAction::History => Some(("get_history", empty_object())),
        ShellLineAction::Builtin { command, args } => {
            let mut items: Vec<JsonValue> = Vec::new();
            let mut i: usize = 0;
            while i < args.len()
                invariant
                    0 <= i <= args@.len(),
                    items@.len() == i,
                    forall|k: int| 0 <= k < i ==> (#[trigger] items@[k] matches JsonValue::Str(t) && t@ == args@[k]@),
                decreases args@.len() - i,
            {
                items.push(JsonValue::Str(args[i].clone()));
                i = i + 1;
            }
            Some(("builtin", object2("command", JsonValue::Str(command.clone()), "args", JsonValue::Array(items))))
        },
        ShellLineAction::Resize { cols, rows } => Some(
            (
                "resize",
                object2(
                    "cols",
                    JsonValue::Number(JsonNumber::PosInt(*cols as u64)),
                    "rows",
                    JsonValue::Number(JsonNumber::PosInt(*rows as u64)),
                ),
            ),
        ),
        ShellLineAction::Input { data } => Some(("input", object1("data", JsonValue::Str(data.clone())))),
        _ => None,
    }
}

/// The completion marker of a one-shot command, made from a message
/// reference: `__TAMANDUA_CTL_DONE_<reference>__`.
pub fn completion_marker(reference: &str) -> (r: String)
    ensures
        r@ == "__TAMANDUA_CTL_DONE_"@ + reference@ + "__"@,
        r@.len() > 0 && !status_line_char(r@[0]),
{
    let mut v: Vec<char> = Vec::new();
    push_str(&mut v, "__TAMANDUA_CTL_DONE_");
    push_str(&mut v, reference);
    push_str(&mut v, "__");
    proof {
        reveal_strlit("__TAMANDUA_CTL_DONE_");
        assert(v@[0] == '_');
    }
    string_of(v.as_slice())
}

// ---------------------------------------------------------------------------
// Echo suppression
// ---------------------------------------------------------------------------

/// The forms in which a typed line may come back as echo, in the order tried.
pub open spec fn echo_candidates(line: Seq<char>) -> Seq<Seq<char>> {
    seq![line + "\r\n"@, line + "\n"@, line + "\r"@, line]
}

/// `data` without the echo of `line` at its front, if it starts with one.
pub open spec fn strip_echo(data: Seq<char>, line: Seq<char>) -> Option<Seq<char>> {
    let c = echo_candidates(line);
    if has_prefix(data, c[0]) {
        Some(data.subrange(c[0].len() as int, data.len() as int))
    } else if has_prefix(data, c[1]) {
        Some(data.subrange(c[1].len() as int, data.len() as int))
    } else if has_prefix(data, c[2]) {
        Some(data.subrange(c[2].len() as int, data.len() as int))
    } else if has_prefix(data, c[3]) {
        Some(data.subrange(c[3].len() as int, data.len() as int))
    } else {
        None
    }
}

/// The echo of a typed line, sent back with its CR LF ahead of further
/// output, is removed and leaves exactly that further output.
pub proof fn lemma_echo_removed(line: Seq<char>, rest: Seq<char>)
    ensures
        strip_echo(line + "\r\n"@ + rest, line) == Some(rest),
{
    let data = line + "\r\n"@ + rest;
    let c0 = line + "\r\n"@;
    assert(data.subrange(0, c0.len() as int) =~= c0);
    assert(data.subrange(c0.len() as int, data.len() as int) =~= rest);
}

/// The queue of pending echoes never grows beyond `MAX_PENDING_ECHOES`,
/// and the line just typed is always the newest entry.
pub proof fn lemma_pending_echoes_bounded(q: Seq<Seq<char>>, line: Seq<char>)
    requires
        q.len() <= MAX_PENDING_ECHOES,
    ensures
        keep_last(q.push(line)).len() <= MAX_PENDING_ECHOES,
        keep_last(q.push(line)).last() == line,
{
}

fn suffix_after(s: &[char], n: usize) -> (r: Vec<char>)
    requires
        n <= s@.len(),
    ensures
        r@ == s@.subrange(n as int, s@.len() as int),
{
    drop_prefix(s, n)
}

/// Removes the echo of the oldest pending line from the front of `data`;
/// that line is then no longer pending. Data that does not start with such an
/// echo is returned unchanged.
pub fn filter_remote_echo(data: &str, pending_echoes: &mut VecDeque<String>) -> (r: String)
    ensures
        old(pending_echoes)@.len() == 0 ==> r@ == data@ && final(pending_echoes)@ == old(
            pending_echoes,
        )@,
        old(pending_echoes)@.len() > 0 ==> match strip_echo(data@, old(pending_echoes)@[0]@) {
            Some(rest) => r@ == rest && final(pending_echoes)@ == old(pending_echoes)@.subrange(
                1,
                old(pending_echoes)@.len() as int,
            ),
            None => r@ == data@ && final(pending_echoes)@ == old(pending_echoes)@,
        },
{
    if pending_echoes.len() == 0 {
        return data.to_owned();
    }
    let line = chars_of_string(&pending_echoes[0]);
    let d = chars_of(data);
    let mut c0 = line.clone();
    push_str(&mut c0, "\r\n");
    let mut c1 = line.clone();
    push_str(&mut c1, "\n");
    let mut c2 = line.clone();
    push_str(&mut c2, "\r");
    let ghost c = echo_candidates(line@);
    assert(c0@ == c[0] && c1@ == c[1] && c2@ == c[2] && line@ == c[3]);
    let stripped = if starts_with(d.as_slice(), c0.as_slice()) {
        Some(suffix_after(d.as_slice(), c0.len()))
    } else if starts_with(d.as_slice(), c1.as_slice()) {
        Some(suffix_after(d.as_slice(), c1.len()))
    } else if starts_with(d.as_slice(), c2.as_slice()) {
        Some(suffix_after(d.as_slice(), c2.len()))
    } else if starts_with(d.as_slice(), line.as_slice()) {
        Some(suffix_after(d.as_slice(), line.len()))
    } else {
        None
    };
    match stripped {
        Some(rest) => {
            pending_echoes.pop_front();
            string_of(rest.as_slice())
        },
        None => data.to_owned(),
    }
}

// ---------------------------------------------------------------------------
// One-shot command wrapping
// ---------------------------------------------------------------------------

/// `s` without double and single quotes.
pub open spec fn strip_quotes(s: Seq<char>) -> Seq<char>
    decreases s.len(),
{
    if s.len() == 0 {
        s
    } else if s.last() == '"' || s.last() == '\'' {
        strip_quotes(s.drop_last())
    } else {
        strip_quotes(s.drop_last()).push(s.last())
    }
}

/// `s` with ASCII letters lower-cased (`str::to_ascii_lowercase`).
pub open spec fn ascii_lowercase(s: Seq<char>) -> Seq<char> {
    Seq::new(s.len(), |i: int| crate::text::ascii_lower(s[i]))
}

/// Whether the agent's operating system name says Windows.
pub open spec fn is_windows_os(os: Option<Seq<char>>) -> bool {
    contains_seq(
        ascii_lowercase(
            match os {
                Some(o) => o,
                None => Seq::empty(),
            },
        ),
        "windows"@,
    )
}

/// The command line sent for a one-shot command: the words joined by
/// spaces, followed by a line that prints the completion marker and the
/// exit status (`echo <marker>:%ERRORLEVEL%` on Windows, `printf` elsewhere).
pub open spec fn wrapped_command_spec(command: Seq<Seq<char>>, os: Option<Seq<char>>, marker: Seq<
    char,
>) -> Seq<char> {
    let line = join_seq(command, " "@);
    let m = strip_quotes(marker);
    if is_windows_os(os) {
        line + "\r\necho "@ + m + ":%ERRORLEVEL%"@
    } else {
        line + "; printf '\\n"@ + m + ":%s\\n' \"$?\""@
    }
}

fn strip_quotes_exec(s: &[char]) -> (r: Vec<char>)
    ensures
        r@ == strip_quotes(s@),
{
    let mut out: Vec<char> = Vec::new();
    let mut i: usize = 0;
    assert(s@.subrange(0, 0) =~= Seq::<char>::empty());
    while i < s.len()
        invariant
            0 <= i <= s@.len(),
            out@ == strip_quotes(s@.subrange(0, i as int)),
        decreases s@.len() - i,
    {
        let c = s[i];
        assert(s@.subrange(0, i + 1).drop_last() =~= s@.subrange(0, i as int));
        if c != '"' && c != '\'' {
            out.push(c);
        }
        i = i + 1;
    }
    assert(s@.subrange(0, s@.len() as int) =~= s@);
    out
}

fn ascii_lowercase_exec(s: &[char]) -> (r: Vec<char>)
    ensures
        r@ == ascii_lowercase(s@),
{
    let mut out: Vec<char> = Vec::new();
    let mut i: usize = 0;
    while i < s.len()
        invariant
            0 <= i <= s@.len(),
            out@ == ascii_lowercase(s@.subrange(0, i as int)),
        decreases s@.len() - i,
    {
        let c = s[i];
        let l = if 'A' <= c && c <= 'Z' {
            ((c as u32) + 32) as u8 as char
        } else {
            c
        };
        assert(l == crate::text::ascii_lower(c));
        out.push(l);
        i = i + 1;
        assert(out@ =~= ascii_lowercase(s@.subrange(0, i as int)));
    }
    assert(s@.subrange(0, s@.len() as int) =~= s@);
    out
}

/// Wraps a one-shot command so that its completion and exit status can be
/// read from the output. An empty command is an error.
pub fn wrap_one_shot_command(command: &[String], os: Option<&str>, marker: &str) -> (r: Result<
    String,
    String,
>)
    ensures
        command@.len() == 0 ==> (r matches Err(m) && m@ == "missing command"@),
        command@.len() > 0 ==> (r matches Ok(line) && line@ == wrapped_command_spec(
            strings_view(command@),
            match os {
                Some(o) => Some(o@),
                None => None,
            },
            marker@,
        )),
{
    if command.len() == 0 {
        return Err("missing command".to_owned());
    }
    let mut out = join_strings(command, " ");
    let mc = chars_of(marker);
    let m = strip_quotes_exec(mc.as_slice());
    let oc = match os {
        Some(o) => chars_of(o),
        None => Vec::new(),
    };
    let ol = ascii_lowercase_exec(oc.as_slice());
    let win = chars_of("windows");
    if contains(ol.as_slice(), win.as_slice()) {
        push_str(&mut out, "\r\necho ");
        push_all(&mut out, m.as_slice());
        push_str(&mut out, ":%ERRORLEVEL%");
    } else {
        push_str(&mut out, "; printf '\\n");
        push_all(&mut out, m.as_slice());
        push_str(&mut out, ":%s\\n' \"$?\"");
    }
    Ok(string_of(out.as_slice()))
}

/// The input sent for a one-shot command line: the line and `\r\n`; an
/// all-blank line is an error.
pub fn one_shot_input(line: &str) -> (r: Result<String, String>)
    ensures
        trimmed(line@).len() == 0 ==> (r matches Err(m) && m@ == "missing command"@),
        trimmed(line@).len() > 0 ==> (r matches Ok(d) && d@ == line@ + "\r\n"@),
{
    let lc = chars_of(line);
    let t = trim(lc.as_slice());
    if t.len() == 0 {
        return Err("missing command".to_owned());
    }
    let mut d: Vec<char> = Vec::new();
    push_all(&mut d, lc.as_slice());
    push_str(&mut d, "\r\n");
    Ok(string_of(d.as_slice()))
}

// ---------------------------------------------------------------------------
// Completion marker
// ---------------------------------------------------------------------------

/// Length of the run of digits and `-` at the front of `s`.
pub open spec fn code_run_len(s: Seq<char>) -> nat
    decreases s.len(),
{
    if s.len() > 0 && (is_digit(s[0]) || s[0] == '-') {
        1 + code_run_len(s.drop_first())
    } else {
        0
    }
}

/// The exit status printed after the last completion marker in `output`:
/// after the last `<marker>:`, leading whitespace is skipped and the run of
/// digits and `-` is read as an `i32`.
pub open spec fn completion_code_spec(output: Seq<char>, marker: Seq<char>) -> Option<int> {
    let p = marker + ":"@;
    if !contains_seq(output, p) {
        None
    } else {
        let tail = output.subrange(last_occurrence(output, p) + p.len(), output.len() as int);
        let t = crate::text::trim_start(tail);
        parse_int_spec(
            t.subrange(0, code_run_len(t) as int),
            true,
            i32::MIN as int,
            i32::MAX as int,
        )
    }
}

proof fn lemma_code_run(s: Seq<char>)
    ensures
        code_run_len(s) <= s.len(),
        forall|i: int| 0 <= i < code_run_len(s) ==> (is_digit(s[i]) || s[i] == '-'),
        code_run_len(s) < s.len() ==> !(is_digit(s[code_run_len(s) as int]) || s[code_run_len(
            s,
        ) as int] == '-'),
    decreases s.len(),
{
    if s.len() > 0 && (is_digit(s[0]) || s[0] == '-') {
        lemma_code_run(s.drop_first());
        assert forall|i: int| 0 <= i < code_run_len(s) implies (is_digit(s[i]) || s[i] == '-') by {
            if i > 0 {
                assert(s[i] == s.drop_first()[i - 1]);
            }
        }
    }
}

/// Whether a character can follow a completion marker in the status line:
/// the colon, digits, a minus sign, or line-ending whitespace.
pub open spec fn status_line_char(c: char) -> bool {
    c == ':' || is_digit(c) || c == '-' || is_ws(c)
}

/// The line the wrapped command prints last: `<marker>:<status>` and a line
/// break.
pub open spec fn marker_line(marker: Seq<char>, code: int) -> Seq<char> {
    marker + ":"@ + crate::text::dec_int(code) + "\r\n"@
}

/// Whatever came before, the status printed in the last marker line is read
/// back, for a marker that does not start with a character of a status
/// line.
pub proof fn lemma_completion_marker_read_back(prefix: Seq<char>, marker: Seq<char>, code: int)
    requires
        marker.len() > 0,
        !status_line_char(marker[0]),
        i32::MIN <= code <= i32::MAX,
    ensures
        completion_code_spec(prefix + marker_line(marker, code), marker) == Some(code),
{
    reveal_strlit(":");
    reveal_strlit("\r\n");
    let p = marker + ":"@;
    let d = crate::text::dec_int(code);
    let tail = d + "\r\n"@;
    let out = prefix + marker_line(marker, code);
    let k = prefix.len() as int;
    let ml = marker.len() as int;
    assert(out =~= prefix + p + tail);
    assert(forall|j: int| 0 <= j < d.len() ==> (is_digit(#[trigger] d[j]) || d[j] == '-')) by {
        if code < 0 {
            crate::text::lemma_dec_nat((-code) as nat);
            assert forall|j: int| 0 <= j < d.len() implies (is_digit(#[trigger] d[j]) || d[j]
                == '-') by {
                if j > 0 {
                    assert(d[j] == crate::text::dec_nat((-code) as nat)[j - 1]);
                }
            }
        } else {
            crate::text::lemma_dec_nat(code as nat);
        }
    }
    assert(d.len() >= 1) by {
        if code < 0 {
            crate::text::lemma_dec_nat((-code) as nat);
        } else {
            crate::text::lemma_dec_nat(code as nat);
        }
    }
    // Every character after the marker belongs to the status line.
    assert forall|j: int| k + ml <= j < out.len() implies status_line_char(#[trigger] out[j]) by {
        if j == k + ml {
            assert(out[j] == ':');
        } else if j < k + ml + 1 + d.len() {
            assert(out[j] == d[j - k - ml - 1]);
        } else {
            assert(out[j] == tail[j - k - ml - 1]);
            assert(tail[j - k - ml - 1] == '\r' || tail[j - k - ml - 1] == '\n');
        }
    }
    assert(crate::text::occurs_at(out, p, k)) by {
        assert(out.subrange(k, k + p.len()) =~= p);
    }
    assert forall|i: int| k < i implies !crate::text::occurs_at(out, p, i) by {
        if crate::text::occurs_at(out, p, i) {
            if i < k + ml {
                assert(out.subrange(i, i + p.len())[ml] == p[ml]);
                assert(out[i + ml] == ':');
                assert(status_line_char(out[i + ml]));
                assert(i + ml > k + ml);
                if i + ml < k + ml + 1 + d.len() {
                    assert(out[i + ml] == d[i + ml - k - ml - 1]);
                } else {
                    assert(out[i + ml] == tail[i + ml - k - ml - 1]);
                }
            } else {
                assert(out.subrange(i, i + p.len())[0] == p[0]);
                assert(out[i] == marker[0]);
            }
        }
    }
    crate::text::lemma_last_occurrence(out, p);
    assert(contains_seq(out, p));
    let m = last_occurrence(out, p);
    assert(m == k);
    assert(out.subrange(m + p.len(), out.len() as int) =~= tail);
    assert(!is_ws(tail[0])) by {
        assert(tail[0] == d[0]);
    }
    assert(crate::text::trim_start(tail) == tail);
    lemma_code_run(tail);
    let n = code_run_len(tail);
    assert(n == d.len()) by {
        if n < d.len() {
            assert(tail[n as int] == d[n as int]);
        } else if n > d.len() {
            assert(is_digit(tail[d.len() as int]) || tail[d.len() as int] == '-');
            assert(tail[d.len() as int] == '\r');
        }
    }
    assert(tail.subrange(0, n as int) =~= d);
    crate::text::lemma_parse_dec_int(code, true, i32::MIN as int, i32::MAX as int);
}

/// Reads the exit status after the last completion marker in `output`.
pub fn parse_completion_marker(output: &str, marker: &str) -> (r: Option<i32>)
    ensures
        r matches Some(v) ==> completion_code_spec(output@, marker@) == Some(v as int),
        r is None ==> completion_code_spec(output@, marker@) is None,
{
    let oc = chars_of(output);
    let mut p = chars_of(marker);
    push_str(&mut p, ":");
    let pos = match find_last(oc.as_slice(), p.as_slice()) {
        Some(i) => i,
        None => {
            proof {
                crate::text::lemma_last_occurrence(oc@, p@);
            }
            return None;
        },
    };
    proof {
        crate::text::lemma_last_occurrence(oc@, p@);
        assert(crate::text::occurs_at(oc@, p@, pos as int));
    }
    assert(pos + p.len() <= oc.len());
    let tail = suffix_after(oc.as_slice(), pos + p.len());
    let mut i: usize = 0;
    assert(tail@.subrange(0, tail@.len() as int) =~= tail@);
    while i < tail.len() && is_whitespace(tail[i])
        invariant
            0 <= i <= tail@.len(),
            crate::text::trim_start(tail@) == crate::text::trim_start(
                tail@.subrange(i as int, tail@.len() as int),
            ),
        decreases tail@.len() - i,
    {
        assert(tail@.subrange(i as int, tail@.len() as int).drop_first() =~= tail@.subrange(
            i + 1,
            tail@.len() as int,
        ));
        i = i + 1;
    }
    let ghost t = tail@.subrange(i as int, tail@.len() as int);
    assert(crate::text::trim_start(t) == t);
    let mut digits: Vec<char> = Vec::new();
    let mut j: usize = i;
    while j < tail.len() && (('0' <= tail[j] && tail[j] <= '9') || tail[j] == '-')
        invariant
            i <= j <= tail@.len(),
            digits@ == tail@.subrange(i as int, j as int),
            forall|k: int| i <= k < j ==> (is_digit(tail@[k]) || tail@[k] == '-'),
        decreases tail@.len() - j,
    {
        digits.push(tail[j]);
        j = j + 1;
        assert(digits@ =~= tail@.subrange(i as int, j as int));
    }
    proof {
        lemma_code_run(t);
        let n = code_run_len(t);
        if n < (j - i) {
            assert(t[n as int] == tail@[i + n]);
        }
        if n > (j - i) {
            assert(t[(j - i) as int] == tail@[j as int]);
        }
        assert(t.subrange(0, n as int) =~= digits@);
    }
    parse_i32(digits.as_slice())
}

/// Whether a one-shot command may be dispatched: the shell must have started,
/// and then either 500 ms have passed since the last output or, when there
/// has been none, 5 s since the shell started. Times are elapsed milliseconds.
pub fn command_dispatch_ready(shell_ready_elapsed_ms: Option<u64>, last_output_elapsed_ms: Option<
    u64,
>) -> (r: bool)
    ensures
        r == match shell_ready_elapsed_ms {
            None => false,
            Some(s) => match last_output_elapsed_ms {
                Some(l) => l >= 500,
                None => s >= 5000,
            },
        },
{
    match shell_ready_elapsed_ms {
        None => false,
        Some(s) => match last_output_elapsed_ms {
            Some(l) => l >= 500,
            None => s >= 5000,
        },
    }
}

// ---------------------------------------------------------------------------
// Event records kept by a one-shot command
// ---------------------------------------------------------------------------

/// What an event record says: the event name with its payload, or with a
/// message.
pub ghost enum EventRecord {
    WithPayload(Seq<char>, JsonValue),
    WithMessage(Seq<char>, Seq<char>),
}

/// The text of a string value, or the empty text.
pub open spec fn text_of(v: Option<JsonValue>) -> Seq<char> {
    match json_str(v) {
        Some(s) => s,
        None => Seq::empty(),
    }
}

/// How an event record object reads: `{"event": name, "payload": p}` or
/// `{"event": name, "message": m}`.
pub open spec fn record_of(e: JsonValue) -> EventRecord {
    match json_get(e, "payload"@) {
        Some(p) => EventRecord::WithPayload(text_of(json_get(e, "event"@)), p),
        None => EventRecord::WithMessage(
            text_of(json_get(e, "event"@)),
            text_of(json_get(e, "message"@)),
        ),
    }
}

/// How a list of event record objects reads.
pub open spec fn records_of(events: Seq<JsonValue>) -> Seq<EventRecord> {
    Seq::new(events.len(), |i: int| record_of(events[i]))
}

/// The record `{"event": name, "payload": payload}`.
pub fn payload_record(name: &str, payload: JsonValue) -> (r: JsonValue)
    ensures
        record_of(r) == EventRecord::WithPayload(name@, payload),
{
    let r = object2("event", string_value(name), "payload", payload);
    proof {
        reveal_strlit("event");
        reveal_strlit("payload");
        reveal_with_fuel(crate::json::member_lookup, 3);
        assert("event"@[0] != "payload"@[0]);
    }
    r
}

/// The record `{"event": name, "message": message}`.
pub fn message_record(name: &str, message: &str) -> (r: JsonValue)
    ensures
        record_of(r) == EventRecord::WithMessage(name@, message@),
{
    let r = object2("event", string_value(name), "message", string_value(message));
    proof {
        reveal_strlit("event");
        reveal_strlit("payload");
        reveal_strlit("message");
        reveal_with_fuel(crate::json::member_lookup, 3);
        assert("event"@[0] != "payload"@[0]);
        assert("message"@[0] != "payload"@[0]);
        assert("event"@[0] != "message"@[0]);
    }
    r
}

// ---------------------------------------------------------------------------
// One-shot command session
// ---------------------------------------------------------------------------

/// Timing of a one-shot command, in milliseconds.
#[derive(Debug, Clone, Copy)]
pub struct OneShotTimes {
    /// Whole run (at least 1 s).
    pub overall_ms: u64,
    /// Quiet time after the command is sent, or after its latest output,
    /// that ends the wait (at least 1 s).
    pub idle_ms: u64,
    /// Wait for the shell to start after joining (at least 1 s, at most the
    /// whole run).
    pub shell_start_ms: u64,
    /// The shell-start wait in whole seconds, for messages.
    pub shell_start_secs: u64,
}

/// Seconds to milliseconds, saturating.
pub open spec fn secs_to_ms(secs: u64) -> u64 {
    if secs as int * 1000 > u64::MAX as int {
        u64::MAX
    } else {
        (secs * 1000) as u64
    }
}

/// The larger of two numbers.
pub open spec fn max_u64(a: u64, b: u64) -> u64 {
    if a >= b {
        a
    } else {
        b
    }
}

fn ms(secs: u64) -> (r: u64)
    ensures
        r == secs_to_ms(secs),
{
    if secs > u64::MAX / 1000 {
        u64::MAX
    } else {
        secs * 1000
    }
}

/// Timing from the command's arguments (seconds).
pub fn one_shot_times(idle_timeout: u64, shell_start_timeout: u64, overall_timeout: u64) -> (r:
    OneShotTimes)
    ensures
        r.overall_ms == secs_to_ms(max_u64(overall_timeout, 1)),
        r.idle_ms == secs_to_ms(max_u64(idle_timeout, 1)),
        r.shell_start_secs == ({
            let s = max_u64(shell_start_timeout, 1);
            let o = max_u64(overall_timeout, 1);
            if s <= o {
                s
            } else {
                o
            }
        }),
        r.shell_start_ms == secs_to_ms(r.shell_start_secs),
{
    let overall = if overall_timeout >= 1 {
        overall_timeout
    } else {
        1
    };
    let idle = if idle_timeout >= 1 {
        idle_timeout
    } else {
        1
    };
    let ss = if shell_start_timeout >= 1 {
        shell_start_timeout
    } else {
        1
    };
    let shell_start = if ss <= overall {
        ss
    } else {
        overall
    };
    OneShotTimes {
        overall_ms: ms(overall),
        idle_ms: ms(idle),
        shell_start_ms: ms(shell_start),
        shell_start_secs: shell_start,
    }
}

/// What to do after an event of a one-shot command.
#[derive(Clone, Copy, Debug, PartialEq, Eq, Structural)]
pub enum OneShotStep {
    /// Keep waiting.
    Continue,
    /// Send `terminate` on the channel and end the wait.
    TerminateAndStop,
    /// End the wait.
    Stop,
}

/// The state of a one-shot command as the contracts see it.
pub ghost struct OneShotModel {
    pub joined: bool,
    pub shell_ready: bool,
    pub sent: bool,
    pub output_seen: bool,
    pub confirmed: bool,
    pub terminated: bool,
    pub exit_code: Option<i32>,
    pub shell_ready_at: Option<u64>,
    pub shell_start_deadline: Option<u64>,
    pub sent_at: Option<u64>,
    pub last_output_at: Option<u64>,
    pub session_id: Option<Seq<char>>,
    pub hostname: Option<Seq<char>>,
    pub os: Option<Seq<char>>,
    pub captured: Seq<char>,
    pub events: Seq<EventRecord>,
    pub end_reason: Option<Seq<char>>,
}

/// A one-shot command on the live-response channel: what has happened so
/// far and what it has collected. Times are milliseconds since the start.
#[derive(Debug)]
pub struct OneShot {
    pub join_ref: String,
    pub marker: String,
    pub times: OneShotTimes,
    pub joined: bool,
    pub shell_ready: bool,
    pub sent: bool,
    pub command_output_seen: bool,
    pub command_confirmed: bool,
    pub terminated: bool,
    pub command_exit_code: Option<i32>,
    pub shell_ready_at: Option<u64>,
    pub shell_start_deadline: Option<u64>,
    pub sent_at: Option<u64>,
    pub last_output_at: Option<u64>,
    pub session_id: Option<String>,
    pub hostname: Option<String>,
    pub os: Option<String>,
    pub captured_output: Vec<char>,
    pub events: Vec<JsonValue>,
    pub end_reason: Option<String>,
}

/// `a + b`, saturating.
pub open spec fn sat_add(a: u64, b: u64) -> u64 {
    if a as int + b as int > u64::MAX as int {
        u64::MAX
    } else {
        (a + b) as u64
    }
}

/// The string under `key` of an optional object.
pub open spec fn opt_field_str(obj: Option<JsonValue>, key: Seq<char>) -> Option<Seq<char>> {
    match obj {
        Some(o) => json_str(json_get(o, key)),
        None => None,
    }
}

/// State after a chunk of output `data` (if the event carried one).
pub open spec fn output_step(marker: Seq<char>, m: OneShotModel, data: Option<Seq<char>>, now: u64) -> (
    OneShotModel,
    Result<OneShotStep, Seq<char>>,
) {
    match data {
        None => (m, Ok(OneShotStep::Continue)),
        Some(d) => {
            let cap = m.captured + d;
            match completion_code_spec(cap, marker) {
                Some(c) => (
                    OneShotModel {
                        captured: cap,
                        confirmed: true,
                        exit_code: Some(c as i32),
                        terminated: true,
                        end_reason: Some("command_confirmed"@),
                        ..m
                    },
                    Ok(OneShotStep::TerminateAndStop),
                ),
                None => (
                    OneShotModel {
                        captured: cap,
                        output_seen: m.output_seen || m.sent,
                        last_output_at: Some(now),
                        ..m
                    },
                    Ok(OneShotStep::Continue),
                ),
            }
        },
    }
}

/// How a one-shot command answers a channel frame. Once the command is
/// confirmed the wait is over and frames change nothing.
pub open spec fn frame_step(
    join_ref: Seq<char>,
    marker: Seq<char>,
    times: OneShotTimes,
    m: OneShotModel,
    event: Seq<char>,
    reference: Option<Seq<char>>,
    payload: JsonValue,
    now: u64,
) -> (OneShotModel, Result<OneShotStep, Seq<char>>) {
    if m.confirmed {
        (m, Ok(OneShotStep::Stop))
    } else if event == "phx_reply"@ && reference == Some(join_ref) {
        let status = text_or(json_str(json_get(payload, "status"@)), "error"@);
        let resp = json_get(payload, "response"@);
        if status == "ok"@ {
            (
                OneShotModel {
                    joined: true,
                    shell_start_deadline: Some(sat_add(now, times.shell_start_ms)),
                    session_id: opt_field_str(resp, "session_id"@),
                    hostname: opt_field_str(resp, "hostname"@),
                    os: opt_field_str(resp, "os"@),
                    ..m
                },
                Ok(OneShotStep::Continue),
            )
        } else {
            (
                m,
                Err(
                    "live response join failed: "@ + text_or(
                        opt_field_str(resp, "reason"@),
                        "join failed"@,
                    ),
                ),
            )
        }
    } else if event == "session_started"@ {
        (
            OneShotModel {
                shell_ready: true,
                shell_ready_at: Some(now),
                events: m.events.push(EventRecord::WithPayload("session_started"@, payload)),
                ..m
            },
            Ok(OneShotStep::Continue),
        )
    } else if event == "output"@ {
        output_step(marker, m, json_str(json_get(payload, "data"@)), now)
    } else if event == "builtin_result"@ {
        let (m2, r2) = output_step(marker, m, json_str(json_get(payload, "output"@)), now);
        if r2 == Ok::<OneShotStep, Seq<char>>(OneShotStep::TerminateAndStop) {
            (m2, r2)
        } else {
            (
                OneShotModel {
                    events: m2.events.push(EventRecord::WithPayload("builtin_result"@, payload)),
                    ..m2
                },
                r2,
            )
        }
    } else if event == "session_ended"@ || event == "session_timeout"@ {
        (
            OneShotModel {
                end_reason: Some(text_or(json_str(json_get(payload, "reason"@)), event)),
                events: m.events.push(EventRecord::WithPayload(event, payload)),
                ..m
            },
            Ok(OneShotStep::Stop),
        )
    } else if event == "error"@ {
        let msg = text_or(json_str(json_get(payload, "message"@)), "unknown error"@);
        let m2 = OneShotModel { events: m.events.push(EventRecord::WithMessage("error"@, msg)), ..m };
        if !m.sent && contains_seq(msg, "already exists"@) {
            (m2, Ok(OneShotStep::Continue))
        } else if !m.sent {
            (m2, Err("live response command failed before dispatch: "@ + msg))
        } else {
            (m2, Ok(OneShotStep::Continue))
        }
    } else if event == "rate_limited"@ {
        (
            m,
            Err(
                "live response command rate limited: "@ + text_or(
                    json_str(json_get(payload, "message"@)),
                    "rate limited"@,
                ),
            ),
        )
    } else if event == "phx_close"@ || event == "phx_error"@ {
        if m.sent {
            (OneShotModel { end_reason: Some(event), ..m }, Ok(OneShotStep::Stop))
        } else {
            (m, Err("channel closed: "@ + event))
        }
    } else {
        (m, Ok(OneShotStep::Continue))
    }
}

/// Output that ends with the marker line confirms the command: the wait
/// ends, the command is terminated, and the status printed in that line is
/// the exit code, whatever output came before.
pub proof fn lemma_marker_output_confirms(
    marker: Seq<char>,
    m: OneShotModel,
    before: Seq<char>,
    code: int,
    now: u64,
)
    requires
        marker.len() > 0,
        !status_line_char(marker[0]),
        i32::MIN <= code <= i32::MAX,
    ensures
        ({
            let (m2, r) = output_step(marker, m, Some(before + marker_line(marker, code)), now);
            &&& r == Ok::<OneShotStep, Seq<char>>(OneShotStep::TerminateAndStop)
            &&& m2.confirmed
            &&& m2.terminated
            &&& m2.exit_code == Some(code as i32)
        }),
{
    let cap = m.captured + (before + marker_line(marker, code));
    assert(cap =~= (m.captured + before) + marker_line(marker, code));
    lemma_completion_marker_read_back(m.captured + before, marker, code);
}

/// The output collected by a one-shot command only grows: every frame keeps
/// what was captured before at the front.
pub proof fn lemma_captured_output_grows(
    join_ref: Seq<char>,
    marker: Seq<char>,
    times: OneShotTimes,
    m: OneShotModel,
    event: Seq<char>,
    reference: Option<Seq<char>>,
    payload: JsonValue,
    now: u64,
)
    ensures
        ({
            let (m2, _r) = frame_step(join_ref, marker, times, m, event, reference, payload, now);
            &&& m.captured.len() <= m2.captured.len()
            &&& m2.captured.subrange(0, m.captured.len() as int) == m.captured
        }),
{
    let (m2, _r) = frame_step(join_ref, marker, times, m, event, reference, payload, now);
    assert(m2.captured.subrange(0, m.captured.len() as int) =~= m.captured);
}

/// What a one-shot record keeps true: the command is confirmed exactly when
/// the captured output holds a readable completion marker, the exit code is
/// the status that marker carries (and there is none before), and the
/// command was sent only after the join and the shell start.
pub open spec fn one_shot_consistent(marker: Seq<char>, m: OneShotModel) -> bool {
    &&& m.confirmed == (completion_code_spec(m.captured, marker) is Some)
    &&& match completion_code_spec(m.captured, marker) {
        Some(c) => m.exit_code == Some(c as i32),
        None => m.exit_code is None,
    }
    &&& (m.sent ==> m.joined && m.shell_ready)
}

/// Every channel frame keeps a one-shot record consistent, and no frame
/// sends the command or forgets that it was sent.
pub proof fn lemma_frame_keeps_record(
    join_ref: Seq<char>,
    marker: Seq<char>,
    times: OneShotTimes,
    m: OneShotModel,
    event: Seq<char>,
    reference: Option<Seq<char>>,
    payload: JsonValue,
    now: u64,
)
    requires
        one_shot_consistent(marker, m),
    ensures
        ({
            let (m2, _r) = frame_step(join_ref, marker, times, m, event, reference, payload, now);
            &&& one_shot_consistent(marker, m2)
            &&& m2.sent == m.sent
            &&& m2.sent_at == m.sent_at
            &&& (m.joined ==> m2.joined)
            &&& (m.shell_ready ==> m2.shell_ready)
        }),
{
}

/// One channel frame as the contracts see it: event, reference, payload
/// and arrival time.
pub type FrameView = (Seq<char>, Option<Seq<char>>, JsonValue, u64);

/// The record after a run of frames, each handled as `frame_step` says
/// (whatever each step answered).
pub open spec fn frames_model(
    join_ref: Seq<char>,
    marker: Seq<char>,
    times: OneShotTimes,
    m: OneShotModel,
    frames: Seq<FrameView>,
) -> OneShotModel
    decreases frames.len(),
{
    if frames.len() == 0 {
        m
    } else {
        let f = frames.last();
        frame_step(
            join_ref,
            marker,
            times,
            frames_model(join_ref, marker, times, m, frames.drop_last()),
            f.0,
            f.1,
            f.2,
            f.3,
        ).0
    }
}

/// Over any run of frames from the server: no frame sends the command, a
/// command once sent stays sent with its dispatch time, and the record
/// stays consistent, so the command is confirmed exactly when the output
/// captured so far holds a readable completion marker, with that marker's
/// status as exit code.
pub proof fn lemma_frame_run(
    join_ref: Seq<char>,
    marker: Seq<char>,
    times: OneShotTimes,
    m: OneShotModel,
    frames: Seq<FrameView>,
)
    requires
        one_shot_consistent(marker, m),
    ensures
        ({
            let m2 = frames_model(join_ref, marker, times, m, frames);
            &&& one_shot_consistent(marker, m2)
            &&& m2.sent == m.sent
            &&& m2.sent_at == m.sent_at
        }),
    decreases frames.len(),
{
    if frames.len() > 0 {
        lemma_frame_run(join_ref, marker, times, m, frames.drop_last());
        let f = frames.last();
        lemma_frame_keeps_record(
            join_ref,
            marker,
            times,
            frames_model(join_ref, marker, times, m, frames.drop_last()),
            f.0,
            f.1,
            f.2,
            f.3,
        );
    }
}

/// An `error` frame is recorded with its message (`unknown error` when it
/// has none). Before the command is sent it ends the run with
/// `live response command failed before dispatch: <message>`, unless the
/// message says the session `already exists`; once the command is sent the
/// wait goes on.
pub proof fn lemma_error_frame(
    join_ref: Seq<char>,
    marker: Seq<char>,
    times: OneShotTimes,
    m: OneShotModel,
    reference: Option<Seq<char>>,
    payload: JsonValue,
    now: u64,
)
    requires
        !m.confirmed,
    ensures
        ({
            let msg = match json_str(json_get(payload, "message"@)) {
                Some(t) => t,
                None => "unknown error"@,
            };
            let (m2, r) = frame_step(join_ref, marker, times, m, "error"@, reference, payload, now);
            &&& m2 == (OneShotModel {
                events: m.events.push(EventRecord::WithMessage("error"@, msg)),
                ..m
            })
            &&& (!m.sent && !contains_seq(msg, "already exists"@) ==> r == Err::<OneShotStep, Seq<char>>(
                "live response command failed before dispatch: "@ + msg,
            ))
            &&& (!m.sent && contains_seq(msg, "already exists"@) ==> r == Ok::<OneShotStep, Seq<char>>(
                OneShotStep::Continue,
            ))
            &&& (m.sent ==> r == Ok::<OneShotStep, Seq<char>>(OneShotStep::Continue))
        }),
{
    reveal_strlit("error");
    reveal_strlit("phx_reply");
    reveal_strlit("session_started");
    reveal_strlit("output");
    reveal_strlit("builtin_result");
    reveal_strlit("session_ended");
    reveal_strlit("session_timeout");
    assert("error"@ != "phx_reply"@);
    assert("error"@ != "session_started"@);
    assert("error"@ != "output"@);
    assert("error"@ != "builtin_result"@);
    assert("error"@ != "session_ended"@);
    assert("error"@ != "session_timeout"@);
}

/// How a one-shot command answers the channel's other frames, before its
/// completion is confirmed:
/// - the reply to its join with status `ok` marks it joined and keeps the
///   session id, host name and operating system of the reply; any other
///   status ends the run with `live response join failed: <reason>`;
/// - `session_started` marks the shell ready at that time;
/// - `rate_limited` always ends the run with
///   `live response command rate limited: <message>`;
/// - `phx_close` / `phx_error` end the run with `channel closed: <event>`
///   before the command is sent, and stop the wait with that event as the
///   end reason after;
/// - `session_ended` / `session_timeout` stop the wait with the reply's
///   reason (or the event) as the end reason.
pub proof fn lemma_channel_frames(
    join_ref: Seq<char>,
    marker: Seq<char>,
    times: OneShotTimes,
    m: OneShotModel,
    event: Seq<char>,
    reference: Option<Seq<char>>,
    payload: JsonValue,
    now: u64,
)
    requires
        !m.confirmed,
    ensures
        ({
            let (m2, r) = frame_step(join_ref, marker, times, m, event, reference, payload, now);
            let resp = json_get(payload, "response"@);
            &&& (event == "phx_reply"@ && reference == Some(join_ref) ==> if json_str(
                json_get(payload, "status"@),
            ) == Some("ok"@) {
                &&& r == Ok::<OneShotStep, Seq<char>>(OneShotStep::Continue)
                &&& m2.joined
                &&& m2.session_id == opt_field_str(resp, "session_id"@)
                &&& m2.hostname == opt_field_str(resp, "hostname"@)
                &&& m2.os == opt_field_str(resp, "os"@)
                &&& m2.sent == m.sent && m2.captured == m.captured
            } else {
                &&& m2 == m
                &&& r == Err::<OneShotStep, Seq<char>>(
                    "live response join failed: "@ + match opt_field_str(resp, "reason"@) {
                        Some(t) => t,
                        None => "join failed"@,
                    },
                )
            })
            &&& (event == "session_started"@ ==> m2.shell_ready && m2.shell_ready_at == Some(now)
                && r == Ok::<OneShotStep, Seq<char>>(OneShotStep::Continue))
            &&& (event == "rate_limited"@ ==> m2 == m && r == Err::<OneShotStep, Seq<char>>(
                "live response command rate limited: "@ + match json_str(
                    json_get(payload, "message"@),
                ) {
                    Some(t) => t,
                    None => "rate limited"@,
                },
            ))
            &&& ((event == "phx_close"@ || event == "phx_error"@) ==> if m.sent {
                m2 == (OneShotModel { end_reason: Some(event), ..m }) && r == Ok::<
                    OneShotStep,
                    Seq<char>,
                >(OneShotStep::Stop)
            } else {
                m2 == m && r == Err::<OneShotStep, Seq<char>>("channel closed: "@ + event)
            })
            &&& ((event == "session_ended"@ || event == "session_timeout"@) ==> r == Ok::<
                OneShotStep,
                Seq<char>,
            >(OneShotStep::Stop) && m2.end_reason == Some(
                match json_str(json_get(payload, "reason"@)) {
                    Some(t) => t,
                    None => event,
                },
            ))
        }),
{
    reveal_strlit("phx_reply");
    reveal_strlit("session_started");
    reveal_strlit("output");
    reveal_strlit("builtin_result");
    reveal_strlit("session_ended");
    reveal_strlit("session_timeout");
    reveal_strlit("error");
    reveal_strlit("rate_limited");
    reveal_strlit("phx_close");
    reveal_strlit("phx_error");
    assert("session_started"@.len() != "phx_reply"@.len());
    assert("output"@.len() != "phx_reply"@.len());
    assert("output"@.len() != "session_started"@.len());
    assert("builtin_result"@.len() != "phx_reply"@.len());
    assert("builtin_result"@.len() != "session_started"@.len());
    assert("builtin_result"@.len() != "output"@.len());
    assert("session_ended"@.len() != "phx_reply"@.len());
    assert("session_ended"@.len() != "session_started"@.len());
    assert("session_ended"@.len() != "output"@.len());
    assert("session_ended"@.len() != "builtin_result"@.len());
    assert("session_timeout"@.len() != "phx_reply"@.len());
    assert("session_timeout"@[8] != "session_started"@[8]);
    assert("session_timeout"@.len() != "output"@.len());
    assert("session_timeout"@.len() != "builtin_result"@.len());
    assert("session_timeout"@.len() != "session_ended"@.len());
    assert("error"@.len() != "phx_reply"@.len());
    assert("error"@.len() != "session_started"@.len());
    assert("error"@.len() != "output"@.len());
    assert("error"@.len() != "builtin_result"@.len());
    assert("error"@.len() != "session_ended"@.len());
    assert("error"@.len() != "session_timeout"@.len());
    assert("rate_limited"@.len() != "phx_reply"@.len());
    assert("rate_limited"@.len() != "session_started"@.len());
    assert("rate_limited"@.len() != "output"@.len());
    assert("rate_limited"@.len() != "builtin_result"@.len());
    assert("rate_limited"@.len() != "session_ended"@.len());
    assert("rate_limited"@.len() != "session_timeout"@.len());
    assert("rate_limited"@.len() != "error"@.len());
    assert("phx_close"@[4] != "phx_reply"@[4]);
    assert("phx_close"@.len() != "session_started"@.len());
    assert("phx_close"@.len() != "output"@.len());
    assert("phx_close"@.len() != "builtin_result"@.len());
    assert("phx_close"@.len() != "session_ended"@.len());
    assert("phx_close"@.len() != "session_timeout"@.len());
    assert("phx_close"@.len() != "error"@.len());
    assert("phx_close"@.len() != "rate_limited"@.len());
    assert("phx_error"@[4] != "phx_reply"@[4]);
    assert("phx_error"@.len() != "session_started"@.len());
    assert("phx_error"@.len() != "output"@.len());
    assert("phx_error"@.len() != "builtin_result"@.len());
    assert("phx_error"@.len() != "session_ended"@.len());
    assert("phx_error"@.len() != "session_timeout"@.len());
    assert("phx_error"@.len() != "error"@.len());
    assert("phx_error"@.len() != "rate_limited"@.len());
    assert("phx_error"@[4] != "phx_close"@[4]);
    reveal_strlit("ok");
    reveal_strlit("error");
}

/// A step outcome with the error text by its view.
pub open spec fn step_view(r: Result<OneShotStep, String>) -> Result<OneShotStep, Seq<char>> {
    match r {
        Ok(s) => Ok(s),
        Err(e) => Err(e@),
    }
}

fn text_or_exec(v: Option<&JsonValue>, default: &str) -> (r: Vec<char>)
    ensures
        r@ == text_or(
            json_str(
                match v {
                    Some(x) => Some(*x),
                    None => None,
                },
            ),
            default@,
        ),
{
    match v {
        Some(x) => match x.as_str() {
            Some(s) => chars_of(s),
            None => chars_of(default),
        },
        None => chars_of(default),
    }
}

fn field_str(obj: Option<&JsonValue>, key: &str) -> (r: Option<String>)
    ensures
        opt_view(r) == opt_field_str(
            match obj {
                Some(x) => Some(*x),
                None => None,
            },
            key@,
        ),
{
    match obj {
        Some(o) => match o.get(key) {
            Some(v) => match v.as_str() {
                Some(s) => Some(s.to_owned()),
                None => None,
            },
            None => None,
        },
        None => None,
    }
}

fn message_with(head: &str, tail: &[char]) -> (r: String)
    ensures
        r@ == head@ + tail@,
{
    let mut v: Vec<char> = Vec::new();
    push_str(&mut v, head);
    push_all(&mut v, tail);
    string_of(v.as_slice())
}

impl OneShot {
    /// The state as the contracts see it.
    pub open spec fn model(&self) -> OneShotModel {
        OneShotModel {
            joined: self.joined,
            shell_ready: self.shell_ready,
            sent: self.sent,
            output_seen: self.command_output_seen,
            confirmed: self.command_confirmed,
            terminated: self.terminated,
            exit_code: self.command_exit_code,
            shell_ready_at: self.shell_ready_at,
            shell_start_deadline: self.shell_start_deadline,
            sent_at: self.sent_at,
            last_output_at: self.last_output_at,
            session_id: opt_view(self.session_id),
            hostname: opt_view(self.hostname),
            os: opt_view(self.os),
            captured: self.captured_output@,
            events: records_of(self.events@),
            end_reason: opt_view(self.end_reason),
        }
    }

    /// The record is consistent: see `one_shot_consistent`.
    pub open spec fn wf(&self) -> bool {
        one_shot_consistent(self.marker@, self.model())
    }

    /// A command that has not joined the channel yet.
    pub fn new(join_ref: String, marker: String, times: OneShotTimes) -> (r: OneShot)
        ensures
            r.wf(),
            r.join_ref == join_ref,
            r.marker == marker,
            r.times == times,
            r.model() == (OneShotModel {
                joined: false,
                shell_ready: false,
                sent: false,
                output_seen: false,
                confirmed: false,
                terminated: false,
                exit_code: None,
                shell_ready_at: None,
                shell_start_deadline: None,
                sent_at: None,
                last_output_at: None,
                session_id: None,
                hostname: None,
                os: None,
                captured: Seq::empty(),
                events: Seq::empty(),
                end_reason: None,
            }),
    {
        let r = OneShot {
            join_ref,
            marker,
            times,
            joined: false,
            shell_ready: false,
            sent: false,
            command_output_seen: false,
            command_confirmed: false,
            terminated: false,
            command_exit_code: None,
            shell_ready_at: None,
            shell_start_deadline: None,
            sent_at: None,
            last_output_at: None,
            session_id: None,
            hostname: None,
            os: None,
            captured_output: Vec::new(),
            events: Vec::new(),
            end_reason: None,
        };
        assert(records_of(r.events@) =~= Seq::<EventRecord>::empty());
        proof {
            reveal_strlit(":");
            let p = r.marker@ + ":"@;
            assert(p.len() > 0);
            assert(!contains_seq(r.captured_output@, p));
        }
        r
    }

    fn push_event(&mut self, e: JsonValue)
        ensures
            final(self).model() == (OneShotModel {
                events: old(self).model().events.push(record_of(e)),
                ..old(self).model()
            }),
            final(self).join_ref == old(self).join_ref,
            final(self).marker == old(self).marker,
            final(self).times == old(self).times,
    {
        let ghost before = self.events@;
        self.events.push(e);
        assert(records_of(self.events@) =~= records_of(before).push(record_of(e)));
    }

    fn on_output(&mut self, data: Option<&str>, now: u64) -> (r: OneShotStep)
        ensures
            (final(self).model(), Ok::<OneShotStep, Seq<char>>(r)) == output_step(
                old(self).marker@,
                old(self).model(),
                match data {
                    Some(d) => Some(d@),
                    None => None,
                },
                now,
            ),
            final(self).join_ref == old(self).join_ref,
            final(self).marker == old(self).marker,
            final(self).times == old(self).times,
            final(self).events@ == old(self).events@,
    {
        match data {
            None => OneShotStep::Continue,
            Some(d) => {
                push_str(&mut self.captured_output, d);
                let cap = string_of(self.captured_output.as_slice());
                match parse_completion_marker(cap.as_str(), self.marker.as_str()) {
                    Some(code) => {
                        self.command_confirmed = true;
                        self.command_exit_code = Some(code);
                        self.terminated = true;
                        self.end_reason = Some("command_confirmed".to_owned());
                        OneShotStep::TerminateAndStop
                    },
                    None => {
                        if self.sent {
                            self.command_output_seen = true;
                        }
                        self.last_output_at = Some(now);
                        OneShotStep::Continue
                    },
                }
            },
        }
    }

    /// Handles a frame from the channel.
    pub fn on_frame(&mut self, frame: PhoenixFrame, now: u64) -> (r: Result<OneShotStep, String>)
        requires
            old(self).wf(),
        ensures
            final(self).wf(),
            (final(self).model(), step_view(r)) == frame_step(
                old(self).join_ref@,
                old(self).marker@,
                old(self).times,
                old(self).model(),
                frame.event@,
                opt_view(frame.reference),
                frame.payload,
                now,
            ),
            final(self).join_ref == old(self).join_ref,
            final(self).marker == old(self).marker,
            final(self).times == old(self).times,
    {
        proof {
            lemma_frame_keeps_record(
                self.join_ref@,
                self.marker@,
                self.times,
                self.model(),
                frame.event@,
                opt_view(frame.reference),
                frame.payload,
                now,
            );
        }
        if self.command_confirmed {
            return Ok(OneShotStep::Stop);
        }
        self.apply_frame(frame, now)
    }

    fn apply_frame(&mut self, frame: PhoenixFrame, now: u64) -> (r: Result<OneShotStep, String>)
        requires
            !old(self).command_confirmed,
        ensures
            (final(self).model(), step_view(r)) == frame_step(
                old(self).join_ref@,
                old(self).marker@,
                old(self).times,
                old(self).model(),
                frame.event@,
                opt_view(frame.reference),
                frame.payload,
                now,
            ),
            final(self).join_ref == old(self).join_ref,
            final(self).marker == old(self).marker,
            final(self).times == old(self).times,
    {
        let ev = chars_of_string(&frame.event);
        if frame.is_event("phx_reply") && frame.answers(self.join_ref.as_str()) {
            let status = text_or_exec(frame.payload.get("status"), "error");
            let resp = frame.payload.get("response");
            if crate::text::chars_eq_str(status.as_slice(), "ok") {
                self.joined = true;
                self.shell_start_deadline = Some(now.saturating_add(self.times.shell_start_ms));
                self.session_id = field_str(resp, "session_id");
                self.hostname = field_str(resp, "hostname");
                self.os = field_str(resp, "os");
                return Ok(OneShotStep::Continue);
            } else {
                let reason = match field_str(resp, "reason") {
                    Some(x) => chars_of_string(&x),
                    None => chars_of("join failed"),
                };
                return Err(message_with("live response join failed: ", reason.as_slice()));
            }
        }
        if frame.is_event("session_started") {
            self.shell_ready = true;
            self.shell_ready_at = Some(now);
            let rec = payload_record("session_started", frame.payload);
            self.push_event(rec);
            return Ok(OneShotStep::Continue);
        }
        if frame.is_event("output") {
            let data = match frame.payload.get("data") {
                Some(v) => v.as_str(),
                None => None,
            };
            let step = self.on_output(data, now);
            return Ok(step);
        }
        if frame.is_event("builtin_result") {
            let step = {
                let data = match frame.payload.get("output") {
                    Some(v) => v.as_str(),
                    None => None,
                };
                self.on_output(data, now)
            };
            if step == OneShotStep::TerminateAndStop {
                return Ok(step);
            }
            let rec = payload_record("builtin_result", frame.payload);
            self.push_event(rec);
            return Ok(step);
        }
        if frame.is_event("session_ended") || frame.is_event("session_timeout") {
            let reason = text_or_exec(frame.payload.get("reason"), frame.event.as_str());
            self.end_reason = Some(string_of(reason.as_slice()));
            let rec = payload_record(frame.event.as_str(), frame.payload);
            self.push_event(rec);
            return Ok(OneShotStep::Stop);
        }
        if frame.is_event("error") {
            let msg = text_or_exec(frame.payload.get("message"), "unknown error");
            let msg_s = string_of(msg.as_slice());
            let rec = message_record("error", msg_s.as_str());
            self.push_event(rec);
            let ae = chars_of("already exists");
            if !self.sent && contains(msg.as_slice(), ae.as_slice()) {
                return Ok(OneShotStep::Continue);
            }
            if !self.sent {
                return Err(
                    message_with("live response command failed before dispatch: ", msg.as_slice()),
                );
            }
            return Ok(OneShotStep::Continue);
        }
        if frame.is_event("rate_limited") {
            let msg = text_or_exec(frame.payload.get("message"), "rate limited");
            return Err(message_with("live response command rate limited: ", msg.as_slice()));
        }
        if frame.is_event("phx_close") || frame.is_event("phx_error") {
            if self.sent {
                self.end_reason = Some(string_of(ev.as_slice()));
                return Ok(OneShotStep::Stop);
            }
            return Err(message_with("channel closed: ", ev.as_slice()));
        }
        Ok(OneShotStep::Continue)
    }
}

/// How a one-shot command ended.
#[derive(Clone, Copy, Debug, PartialEq, Eq, Structural)]
pub enum CommandStatus {
    /// The completion marker came back.
    Completed,
    /// The command was sent but its completion was not seen.
    DispatchedUnconfirmed,
    /// The shell never reported that it started.
    ShellNotReady,
    /// The shell started but the command was not sent.
    NotDispatched,
}

impl CommandStatus {
    /// The name reported in the result.
    pub fn name(&self) -> (r: &'static str)
        ensures
            r@ == match *self {
                CommandStatus::Completed => "completed"@,
                CommandStatus::DispatchedUnconfirmed => "dispatched_unconfirmed"@,
                CommandStatus::ShellNotReady => "shell_not_ready"@,
                CommandStatus::NotDispatched => "not_dispatched"@,
            },
    {
        match self {
            CommandStatus::Completed => "completed",
            CommandStatus::DispatchedUnconfirmed => "dispatched_unconfirmed",
            CommandStatus::ShellNotReady => "shell_not_ready",
            CommandStatus::NotDispatched => "not_dispatched",
        }
    }
}

/// The result of a one-shot command.
#[derive(Debug)]
pub struct CommandReport {
    pub status: CommandStatus,
    pub shell_ready: bool,
    pub unconfirmed_dispatch: bool,
    pub command_confirmed: bool,
    pub exit_code: Option<i32>,
    pub agent_id: String,
    pub hostname: Option<String>,
    pub os: Option<String>,
    pub session_id: String,
    pub command: String,
    pub output: String,
    pub duration_ms: u64,
    pub end_reason: String,
    pub events: Vec<JsonValue>,
}

/// Status of a finished one-shot command.
pub open spec fn command_status_spec(m: OneShotModel) -> CommandStatus {
    if m.confirmed {
        CommandStatus::Completed
    } else if m.sent {
        CommandStatus::DispatchedUnconfirmed
    } else if !m.shell_ready {
        CommandStatus::ShellNotReady
    } else {
        CommandStatus::NotDispatched
    }
}

/// The deadline of the wait for output, in milliseconds since the start:
/// once the command is sent, the idle time after the latest output that
/// followed it, or after the dispatch when none has come yet; before that,
/// the end of the whole run.
pub open spec fn idle_deadline_spec(times: OneShotTimes, m: OneShotModel) -> u64 {
    if m.sent {
        let since = if m.output_seen {
            match m.last_output_at {
                Some(t) => Some(t),
                None => m.sent_at,
            }
        } else {
            m.sent_at
        };
        match since {
            Some(t) => sat_add(t, times.idle_ms),
            None => times.overall_ms,
        }
    } else {
        times.overall_ms
    }
}

/// Message recorded when the shell did not start in time.
pub open spec fn shell_start_timeout_message(secs: u64) -> Seq<char> {
    "Shell command was not dispatched because session_started was not received within "@
        + dec_nat(secs as nat) + " seconds"@
}

impl OneShot {
    /// The deadline of the idle wait (milliseconds since the start).
    pub fn idle_deadline(&self) -> (r: u64)
        ensures
            r == idle_deadline_spec(self.times, self.model()),
    {
        if !self.sent {
            return self.times.overall_ms;
        }
        let since = if self.command_output_seen {
            match self.last_output_at {
                Some(t) => Some(t),
                None => self.sent_at,
            }
        } else {
            self.sent_at
        };
        match since {
            Some(t) => t.saturating_add(self.times.idle_ms),
            None => self.times.overall_ms,
        }
    }

    /// Whether the idle wait is running: the command was sent and not yet
    /// terminated.
    pub fn idle_armed(&self) -> (r: bool)
        ensures
            r == (self.sent && !self.terminated),
    {
        self.sent && !self.terminated
    }

    /// Whether the command may be sent now: joined, shell started, not sent,
    /// and `command_dispatch_ready` for the times elapsed until `now`.
    pub fn dispatch_armed(&self, now: u64) -> (r: bool)
        ensures
            r == (self.joined && self.shell_ready && !self.sent && match self.shell_ready_at {
                None => false,
                Some(s) => match self.last_output_at {
                    Some(l) => (if now >= l {
                        now - l
                    } else {
                        0
                    }) >= 500,
                    None => (if now >= s {
                        now - s
                    } else {
                        0
                    }) >= 5000,
                },
            }),
    {
        if !(self.joined && self.shell_ready && !self.sent) {
            return false;
        }
        let ready = match self.shell_ready_at {
            Some(s) => Some(now.saturating_sub(s)),
            None => None,
        };
        let last = match self.last_output_at {
            Some(l) => Some(now.saturating_sub(l)),
            None => None,
        };
        command_dispatch_ready(ready, last)
    }

    /// Whether the wait for the shell to start is running.
    pub fn shell_start_armed(&self) -> (r: bool)
        ensures
            r == (self.joined && self.shell_start_deadline is Some && !self.shell_ready
                && !self.sent),
    {
        self.joined && self.shell_start_deadline.is_some() && !self.shell_ready && !self.sent
    }

    /// The whole run timed out: the wait ends.
    pub fn on_overall_deadline(&mut self)
        requires
            old(self).wf(),
        ensures
            final(self).wf(),
            final(self).model() == (OneShotModel {
                end_reason: Some("overall_timeout"@),
                ..old(self).model()
            }),
            final(self).join_ref == old(self).join_ref,
            final(self).marker == old(self).marker,
            final(self).times == old(self).times,
    {
        self.end_reason = Some("overall_timeout".to_owned());
    }

    /// The idle wait ran out: `terminate` is sent, the command is marked
    /// terminated and the wait ends.
    pub fn on_idle_deadline(&mut self) -> (r: OneShotStep)
        requires
            old(self).wf(),
        ensures
            final(self).wf(),
            r == OneShotStep::TerminateAndStop,
            final(self).model() == (OneShotModel {
                terminated: true,
                end_reason: Some("idle_timeout"@),
                ..old(self).model()
            }),
            final(self).join_ref == old(self).join_ref,
            final(self).marker == old(self).marker,
            final(self).times == old(self).times,
    {
        self.terminated = true;
        self.end_reason = Some("idle_timeout".to_owned());
        OneShotStep::TerminateAndStop
    }

    /// The shell did not start in time: the wait ends with a recorded event.
    pub fn on_shell_start_timeout(&mut self)
        requires
            old(self).wf(),
        ensures
            final(self).wf(),
            final(self).model() == (OneShotModel {
                end_reason: Some("shell_start_timeout"@),
                events: old(self).model().events.push(
                    EventRecord::WithMessage(
                        "shell_start_timeout"@,
                        shell_start_timeout_message(old(self).times.shell_start_secs),
                    ),
                ),
                ..old(self).model()
            }),
            final(self).join_ref == old(self).join_ref,
            final(self).marker == old(self).marker,
            final(self).times == old(self).times,
    {
        self.end_reason = Some("shell_start_timeout".to_owned());
        let mut msg: Vec<char> = Vec::new();
        push_str(
            &mut msg,
            "Shell command was not dispatched because session_started was not received within ",
        );
        let secs = dec_u64(self.times.shell_start_secs);
        push_all(&mut msg, secs.as_slice());
        push_str(&mut msg, " seconds");
        let m = string_of(msg.as_slice());
        let rec = message_record("shell_start_timeout", m.as_str());
        self.push_event(rec);
    }

    /// Sends the command: the input data to put on the channel, built from
    /// the command words, the agent's operating system and the completion
    /// marker; the command is then marked sent at `now`.
    pub fn on_dispatch(&mut self, command: &[String], now: u64) -> (r: Result<String, String>)
        requires
            old(self).wf(),
            old(self).joined,
            old(self).shell_ready,
            !old(self).sent,
        ensures
            final(self).wf(),
            command@.len() == 0 ==> (r matches Err(m) && m@ == "missing command"@
                && final(self).model() == old(self).model()),
            command@.len() > 0 ==> (r matches Ok(data) && data@ == wrapped_command_spec(
                strings_view(command@),
                old(self).model().os,
                old(self).marker@,
            ) + "\r\n"@ && final(self).model() == (OneShotModel {
                sent: true,
                sent_at: Some(now),
                ..old(self).model()
            })),
            final(self).join_ref == old(self).join_ref,
            final(self).marker == old(self).marker,
            final(self).times == old(self).times,
    {
        let os: Option<&str> = match &self.os {
            Some(o) => Some(o.as_str()),
            None => None,
        };
        let line = match wrap_one_shot_command(command, os, self.marker.as_str()) {
            Ok(l) => l,
            Err(e) => return Err(e),
        };
        proof {
            // the wrapped line always ends with the marker text, so it is not blank
            lemma_wrapped_not_blank(
                strings_view(command@),
                opt_view(self.os),
                self.marker@,
            );
        }
        let data = match one_shot_input(line.as_str()) {
            Ok(d) => d,
            Err(e) => return Err(e),
        };
        self.sent = true;
        self.sent_at = Some(now);
        Ok(data)
    }

    /// Whether the channel still needs a `terminate` before closing.
    pub fn needs_terminate(&self) -> (r: bool)
        ensures
            r == !self.terminated,
    {
        !self.terminated
    }

    /// The result of the command once the wait is over.
    pub fn finish(self, agent_id: &str, command: &[String], duration_ms: u64) -> (r:
        CommandReport)
        requires
            self.wf(),
        ensures
            r.command_confirmed == (completion_code_spec(r.output@, self.marker@) is Some),
            match completion_code_spec(r.output@, self.marker@) {
                Some(k) => r.exit_code == Some(k as i32) && r.status == CommandStatus::Completed,
                None => r.exit_code is None && (r.status == if self.sent {
                    CommandStatus::DispatchedUnconfirmed
                } else if r.shell_ready {
                    CommandStatus::NotDispatched
                } else {
                    CommandStatus::ShellNotReady
                }),
            },
            r.unconfirmed_dispatch == (self.sent && completion_code_spec(r.output@, self.marker@)
                is None),
            self.sent ==> r.shell_ready,
            r.status == command_status_spec(self.model()),
            r.shell_ready == self.shell_ready,
            r.unconfirmed_dispatch == (self.sent && !self.command_confirmed),
            r.command_confirmed == self.command_confirmed,
            r.exit_code == self.command_exit_code,
            r.agent_id@ == agent_id@,
            r.hostname == self.hostname,
            r.os == self.os,
            r.session_id@ == text_or(opt_view(self.session_id), "unknown"@),
            r.command@ == join_seq(strings_view(command@), " "@),
            r.output@ == self.captured_output@,
            r.duration_ms == duration_ms,
            r.end_reason@ == text_or(opt_view(self.end_reason), "socket_closed"@),
            records_of(r.events@) == self.model().events,
    {
        let status = if self.command_confirmed {
            CommandStatus::Completed
        } else if self.sent {
            CommandStatus::DispatchedUnconfirmed
        } else if !self.shell_ready {
            CommandStatus::ShellNotReady
        } else {
            CommandStatus::NotDispatched
        };
        let session_id = match self.session_id {
            Some(s) => s,
            None => "unknown".to_owned(),
        };
        let end_reason = match self.end_reason {
            Some(e) => e,
            None => "socket_closed".to_owned(),
        };
        let cmd = join_strings(command, " ");
        CommandReport {
            status,
            shell_ready: self.shell_ready,
            unconfirmed_dispatch: self.sent && !self.command_confirmed,
            command_confirmed: self.command_confirmed,
            exit_code: self.command_exit_code,
            agent_id: agent_id.to_owned(),
            hostname: self.hostname,
            os: self.os,
            session_id,
            command: string_of(cmd.as_slice()),
            output: string_of(self.captured_output.as_slice()),
            duration_ms,
            end_reason,
            events: self.events,
        }
    }
}

proof fn lemma_wrapped_not_blank(command: Seq<Seq<char>>, os: Option<Seq<char>>, marker: Seq<char>)
    ensures
        trimmed(wrapped_command_spec(command, os, marker)).len() > 0,
{
    let w = wrapped_command_spec(command, os, marker);
    let line = join_seq(command, " "@);
    let m = strip_quotes(marker);
    reveal_strlit(":%ERRORLEVEL%");
    reveal_strlit(":%s\\n' \"$?\"");
    // the last character is `%` or `"`, neither of which is whitespace
    assert(w.len() > 0);
    assert(!is_ws(w.last()));
    lemma_trim_start_nonempty(w);
    lemma_trim_end_keeps_last(crate::text::trim_start(w));
}

proof fn lemma_trim_start_nonempty(s: Seq<char>)
    requires
        s.len() > 0,
        !is_ws(s.last()),
    ensures
        crate::text::trim_start(s).len() > 0,
        crate::text::trim_start(s).last() == s.last(),
    decreases s.len(),
{
    if s.len() > 0 && is_ws(s[0]) {
        assert(s.drop_first().len() > 0);
        assert(s.drop_first().last() == s.last());
        lemma_trim_start_nonempty(s.drop_first());
    }
}

proof fn lemma_trim_end_keeps_last(s: Seq<char>)
    requires
        s.len() > 0,
        !is_ws(s.last()),
    ensures
        crate::text::trim_end(s) == s,
{
}

// ---------------------------------------------------------------------------
// Interactive shell session
// ---------------------------------------------------------------------------

/// What the interactive shell shows for a channel frame.
#[derive(Debug)]
pub enum ShellFrameAction {
    /// Nothing to show.
    Nothing,
    /// Joined the channel: show where (host, session, operating system) and
    /// the help line.
    Joined { hostname: String, session_id: String, os: String },
    /// Shell output to print as is.
    Data(String),
    /// The remote shell started.
    ShellStarted(String),
    /// The session ended, with the reason; the session is over.
    SessionEnded(String),
    /// Session history, newest first: `(timestamp, command)` lines.
    History(Vec<(String, String)>),
    /// An error reported by the server.
    Error(String),
    /// The server is limiting the rate of requests.
    RateLimited(String),
}

/// The interactive shell's state as the contracts see it.
pub ghost struct ShellModel {
    pub joined: bool,
    pub shell_ready: bool,
    pub stdin_closed: bool,
    pub stdin_closed_at: Option<u64>,
    pub pending_lines: Seq<Seq<char>>,
    pub pending_echoes: Seq<Seq<char>>,
    pub session_id: Option<Seq<char>>,
}

/// A frame's effect as the contracts see it.
pub ghost enum ShellFrameView {
    Nothing,
    Joined(Seq<char>, Seq<char>, Seq<char>),
    Data(Seq<char>),
    ShellStarted(Seq<char>),
    SessionEnded(Seq<char>),
    History(Seq<(Seq<char>, Seq<char>)>),
    Error(Seq<char>),
    RateLimited(Seq<char>),
}

/// How an action reads.
pub open spec fn shell_action_view(a: ShellFrameAction) -> ShellFrameView {
    match a {
        ShellFrameAction::Nothing => ShellFrameView::Nothing,
        ShellFrameAction::Joined { hostname, session_id, os } => ShellFrameView::Joined(
            hostname@,
            session_id@,
            os@,
        ),
        ShellFrameAction::Data(d) => ShellFrameView::Data(d@),
        ShellFrameAction::ShellStarted(s) => ShellFrameView::ShellStarted(s@),
        ShellFrameAction::SessionEnded(s) => ShellFrameView::SessionEnded(s@),
        ShellFrameAction::History(lines) => ShellFrameView::History(
            Seq::new(lines@.len(), |i: int| (lines@[i].0@, lines@[i].1@)),
        ),
        ShellFrameAction::Error(m) => ShellFrameView::Error(m@),
        ShellFrameAction::RateLimited(m) => ShellFrameView::RateLimited(m@),
    }
}

/// A frame outcome as the contracts see it.
pub open spec fn shell_result_view(r: Result<ShellFrameAction, String>) -> Result<
    ShellFrameView,
    Seq<char>,
> {
    match r {
        Ok(a) => Ok(shell_action_view(a)),
        Err(e) => Err(e@),
    }
}

/// One history line: `(timestamp, command)`, the command read from
/// `command` or, when that key is absent, from `data`.
pub open spec fn history_line(entry: JsonValue) -> (Seq<char>, Seq<char>) {
    let cmd = match json_get(entry, "command"@) {
        Some(v) => Some(v),
        None => json_get(entry, "data"@),
    };
    (text_or(json_str(json_get(entry, "timestamp"@)), Seq::empty()), text_or(json_str(cmd), Seq::empty()))
}

/// The history lines of a `history` payload, newest first.
pub open spec fn history_lines(payload: JsonValue) -> Seq<(Seq<char>, Seq<char>)> {
    match json_get(payload, "entries"@) {
        Some(JsonValue::Array(entries)) => Seq::new(
            entries@.len(),
            |i: int| history_line(entries@[entries@.len() - 1 - i]),
        ),
        _ => Seq::empty(),
    }
}

/// Output data with the echo of the oldest pending line removed.
pub open spec fn shell_data_step(m: ShellModel, data: Option<Seq<char>>) -> (
    ShellModel,
    ShellFrameView,
) {
    match data {
        None => (m, ShellFrameView::Nothing),
        Some(d) => if m.pending_echoes.len() == 0 {
            (m, ShellFrameView::Data(d))
        } else {
            match strip_echo(d, m.pending_echoes[0]) {
                Some(rest) => (
                    ShellModel { pending_echoes: m.pending_echoes.drop_first(), ..m },
                    ShellFrameView::Data(rest),
                ),
                None => (m, ShellFrameView::Data(d)),
            }
        },
    }
}

/// How the interactive shell answers a channel frame.
pub open spec fn shell_frame_step(
    join_ref: Seq<char>,
    m: ShellModel,
    event: Seq<char>,
    reference: Option<Seq<char>>,
    payload: JsonValue,
) -> (ShellModel, Result<ShellFrameView, Seq<char>>) {
    if event == "phx_reply"@ && reference == Some(join_ref) {
        let status = text_or(json_str(json_get(payload, "status"@)), "error"@);
        let resp = json_get(payload, "response"@);
        if status == "ok"@ {
            (
                ShellModel { joined: true, session_id: opt_field_str(resp, "session_id"@), ..m },
                Ok(
                    ShellFrameView::Joined(
                        text_or(opt_field_str(resp, "hostname"@), "unknown"@),
                        text_or(opt_field_str(resp, "session_id"@), "unknown"@),
                        text_or(opt_field_str(resp, "os"@), "unknown"@),
                    ),
                ),
            )
        } else {
            (
                m,
                Err(
                    "live response join failed: "@ + text_or(
                        opt_field_str(resp, "reason"@),
                        "join failed"@,
                    ),
                ),
            )
        }
    } else if event == "output"@ {
        let (m2, v) = shell_data_step(m, json_str(json_get(payload, "data"@)));
        (m2, Ok(v))
    } else if event == "session_started"@ {
        (
            ShellModel { shell_ready: true, ..m },
            Ok(
                ShellFrameView::ShellStarted(
                    text_or(json_str(json_get(payload, "shell"@)), "shell"@),
                ),
            ),
        )
    } else if event == "session_ended"@ || event == "session_timeout"@ {
        (
            m,
            Ok(
                ShellFrameView::SessionEnded(
                    text_or(json_str(json_get(payload, "reason"@)), "ended"@),
                ),
            ),
        )
    } else if event == "builtin_result"@ {
        let (m2, v) = shell_data_step(m, json_str(json_get(payload, "output"@)));
        (m2, Ok(v))
    } else if event == "history"@ {
        (m, Ok(ShellFrameView::History(history_lines(payload))))
    } else if event == "error"@ {
        (
            m,
            Ok(
                ShellFrameView::Error(
                    text_or(json_str(json_get(payload, "message"@)), "unknown error"@),
                ),
            ),
        )
    } else if event == "rate_limited"@ {
        (
            m,
            Ok(
                ShellFrameView::RateLimited(
                    text_or(json_str(json_get(payload, "message"@)), "rate limited"@),
                ),
            ),
        )
    } else if event == "phx_close"@ || event == "phx_error"@ {
        (m, Err("channel closed: "@ + event))
    } else {
        (m, Ok(ShellFrameView::Nothing))
    }
}

/// How the interactive shell answers the channel's frames other than output:
/// - the reply to its join with status `ok` marks it joined, keeps the
///   session id and shows host name, session id and operating system
///   (`unknown` for each that is missing); any other status ends the shell
///   with `live response join failed: <reason>`;
/// - `session_started` marks the shell ready and shows the shell's name;
/// - `session_ended` / `session_timeout` show the reason (`ended` by default);
/// - `error` and `rate_limited` show their message and change nothing;
/// - `phx_close` / `phx_error` end the shell with `channel closed: <event>`.
pub proof fn lemma_shell_channel_frames(
    join_ref: Seq<char>,
    m: ShellModel,
    event: Seq<char>,
    reference: Option<Seq<char>>,
    payload: JsonValue,
)
    ensures
        ({
            let (m2, r) = shell_frame_step(join_ref, m, event, reference, payload);
            let resp = json_get(payload, "response"@);
            let or_unknown = |v: Option<Seq<char>>| match v {
                Some(t) => t,
                None => "unknown"@,
            };
            &&& (event == "phx_reply"@ && reference == Some(join_ref) ==> if json_str(
                json_get(payload, "status"@),
            ) == Some("ok"@) {
                &&& m2 == (ShellModel {
                    joined: true,
                    session_id: opt_field_str(resp, "session_id"@),
                    ..m
                })
                &&& r == Ok::<ShellFrameView, Seq<char>>(
                    ShellFrameView::Joined(
                        or_unknown(opt_field_str(resp, "hostname"@)),
                        or_unknown(opt_field_str(resp, "session_id"@)),
                        or_unknown(opt_field_str(resp, "os"@)),
                    ),
                )
            } else {
                &&& m2 == m
                &&& r == Err::<ShellFrameView, Seq<char>>(
                    "live response join failed: "@ + match opt_field_str(resp, "reason"@) {
                        Some(t) => t,
                        None => "join failed"@,
                    },
                )
            })
            &&& (event == "session_started"@ ==> m2 == (ShellModel { shell_ready: true, ..m })
                && r == Ok::<ShellFrameView, Seq<char>>(
                ShellFrameView::ShellStarted(
                    match json_str(json_get(payload, "shell"@)) {
                        Some(t) => t,
                        None => "shell"@,
                    },
                ),
            ))
            &&& ((event == "session_ended"@ || event == "session_timeout"@) ==> m2 == m && r == Ok::<
                ShellFrameView,
                Seq<char>,
            >(
                ShellFrameView::SessionEnded(
                    match json_str(json_get(payload, "reason"@)) {
                        Some(t) => t,
                        None => "ended"@,
                    },
                ),
            ))
            &&& (event == "error"@ ==> m2 == m && r == Ok::<ShellFrameView, Seq<char>>(
                ShellFrameView::Error(
                    match json_str(json_get(payload, "message"@)) {
                        Some(t) => t,
                        None => "unknown error"@,
                    },
                ),
            ))
            &&& (event == "rate_limited"@ ==> m2 == m && r == Ok::<ShellFrameView, Seq<char>>(
                ShellFrameView::RateLimited(
                    match json_str(json_get(payload, "message"@)) {
                        Some(t) => t,
                        None => "rate limited"@,
                    },
                ),
            ))
            &&& ((event == "phx_close"@ || event == "phx_error"@) ==> m2 == m && r == Err::<
                ShellFrameView,
                Seq<char>,
            >("channel closed: "@ + event))
        }),
{
    reveal_strlit("phx_reply");
    reveal_strlit("output");
    reveal_strlit("session_started");
    reveal_strlit("session_ended");
    reveal_strlit("session_timeout");
    reveal_strlit("builtin_result");
    reveal_strlit("history");
    reveal_strlit("error");
    reveal_strlit("rate_limited");
    reveal_strlit("phx_close");
    reveal_strlit("phx_error");
    assert("output"@.len() != "phx_reply"@.len());
    assert("session_started"@.len() != "phx_reply"@.len());
    assert("session_started"@.len() != "output"@.len());
    assert("session_ended"@.len() != "phx_reply"@.len());
    assert("session_ended"@.len() != "output"@.len());
    assert("session_ended"@.len() != "session_started"@.len());
    assert("session_timeout"@.len() != "phx_reply"@.len());
    assert("session_timeout"@.len() != "output"@.len());
    assert("session_timeout"@[8] != "session_started"@[8]);
    assert("session_timeout"@.len() != "session_ended"@.len());
    assert("builtin_result"@.len() != "phx_reply"@.len());
    assert("builtin_result"@.len() != "output"@.len());
    assert("builtin_result"@.len() != "session_started"@.len());
    assert("builtin_result"@.len() != "session_ended"@.len());
    assert("builtin_result"@.len() != "session_timeout"@.len());
    assert("history"@.len() != "phx_reply"@.len());
    assert("history"@.len() != "output"@.len());
    assert("history"@.len() != "session_started"@.len());
    assert("history"@.len() != "session_ended"@.len());
    assert("history"@.len() != "session_timeout"@.len());
    assert("history"@.len() != "builtin_result"@.len());
    assert("error"@.len() != "phx_reply"@.len());
    assert("error"@.len() != "output"@.len());
    assert("error"@.len() != "session_started"@.len());
    assert("error"@.len() != "session_ended"@.len());
    assert("error"@.len() != "session_timeout"@.len());
    assert("error"@.len() != "builtin_result"@.len());
    assert("error"@.len() != "history"@.len());
    assert("rate_limited"@.len() != "phx_reply"@.len());
    assert("rate_limited"@.len() != "output"@.len());
    assert("rate_limited"@.len() != "session_started"@.len());
    assert("rate_limited"@.len() != "session_ended"@.len());
    assert("rate_limited"@.len() != "session_timeout"@.len());
    assert("rate_limited"@.len() != "builtin_result"@.len());
    assert("rate_limited"@.len() != "history"@.len());
    assert("rate_limited"@.len() != "error"@.len());
    assert("phx_close"@[4] != "phx_reply"@[4]);
    assert("phx_close"@.len() != "output"@.len());
    assert("phx_close"@.len() != "session_started"@.len());
    assert("phx_close"@.len() != "session_ended"@.len());
    assert("phx_close"@.len() != "session_timeout"@.len());
    assert("phx_close"@.len() != "builtin_result"@.len());
    assert("phx_close"@.len() != "history"@.len());
    assert("phx_close"@.len() != "error"@.len());
    assert("phx_close"@.len() != "rate_limited"@.len());
    assert("phx_error"@[4] != "phx_reply"@[4]);
    assert("phx_error"@.len() != "output"@.len());
    assert("phx_error"@.len() != "session_started"@.len());
    assert("phx_error"@.len() != "session_ended"@.len());
    assert("phx_error"@.len() != "session_timeout"@.len());
    assert("phx_error"@.len() != "builtin_result"@.len());
    assert("phx_error"@.len() != "history"@.len());
    assert("phx_error"@.len() != "error"@.len());
    assert("phx_error"@.len() != "rate_limited"@.len());
    assert("phx_error"@[4] != "phx_close"@[4]);
    reveal_strlit("ok");
    reveal_strlit("error");
}


/// Output shown by the shell (an `output` frame's `data`, or a
/// `builtin_result` frame's `output`) drops the echo of the oldest line
/// still waiting for one:
/// - data that is that line, CR LF, then `rest` shows `rest` and the line
///   stops waiting;
/// - data that does not start with that line, or any data when no line is
///   waiting, is shown whole and nothing changes.
pub proof fn lemma_shell_output_drops_echo(
    join_ref: Seq<char>,
    m: ShellModel,
    builtin: bool,
    reference: Option<Seq<char>>,
    payload: JsonValue,
    rest: Seq<char>,
)
    ensures
        ({
            let event = if builtin { "builtin_result"@ } else { "output"@ };
            let key = if builtin { "output"@ } else { "data"@ };
            let step = shell_frame_step(join_ref, m, event, reference, payload);
            &&& (m.pending_echoes.len() > 0 && json_str(json_get(payload, key)) == Some(
                m.pending_echoes[0] + "\r\n"@ + rest,
            ) ==> step == (
                ShellModel { pending_echoes: m.pending_echoes.drop_first(), ..m },
                Ok::<ShellFrameView, Seq<char>>(ShellFrameView::Data(rest)),
            ))
            &&& (forall|d: Seq<char>|
                json_str(json_get(payload, key)) == Some(d) && (m.pending_echoes.len() == 0 || !(
                m.pending_echoes[0].len() <= d.len() && d.subrange(0, m.pending_echoes[0].len() as int)
                    == m.pending_echoes[0])) ==> step == (
                    m,
                    Ok::<ShellFrameView, Seq<char>>(ShellFrameView::Data(d)),
                ))
        }),
{
    reveal_strlit("output");
    reveal_strlit("builtin_result");
    reveal_strlit("phx_reply");
    reveal_strlit("session_started");
    reveal_strlit("session_ended");
    reveal_strlit("session_timeout");
    reveal_strlit("\r\n");
    reveal_strlit("\n");
    reveal_strlit("\r");
    assert("output"@.len() != "phx_reply"@.len());
    assert("builtin_result"@.len() != "phx_reply"@.len());
    assert("builtin_result"@ != "output"@);
    assert("builtin_result"@ != "session_started"@);
    assert("builtin_result"@ != "session_ended"@);
    assert("builtin_result"@ != "session_timeout"@);
    if m.pending_echoes.len() > 0 {
        let line = m.pending_echoes[0];
        lemma_echo_removed(line, rest);
        assert forall|d: Seq<char>|
            !(line.len() <= d.len() && d.subrange(0, line.len() as int) == line) implies strip_echo(
            d,
            line,
        ) is None by {
            let c = echo_candidates(line);
            assert forall|k: int| 0 <= k < 4 implies !has_prefix(d, #[trigger] c[k]) by {
                if has_prefix(d, c[k]) {
                    assert(c[k].subrange(0, line.len() as int) =~= line);
                    assert(d.subrange(0, line.len() as int) =~= c[k].subrange(0, line.len() as int));
                }
            }
        }
    }
}

/// An interactive live-response shell. Times are milliseconds since start.
#[derive(Debug)]
pub struct Shell {
    pub join_ref: String,
    pub joined: bool,
    pub shell_ready: bool,
    pub stdin_closed: bool,
    pub stdin_closed_at: Option<u64>,
    pub pending_lines: VecDeque<String>,
    pub pending_echoes: VecDeque<String>,
    pub session_id: Option<String>,
}

/// What became of a line read from standard input.
#[derive(Debug)]
pub enum StdinOutcome {
    /// The shell is ready: the line's action.
    Handled(Result<ShellLineAction, String>),
    /// The shell is not ready yet: the line waits.
    Queued,
}

impl Shell {
    /// The state as the contracts see it.
    pub open spec fn model(&self) -> ShellModel {
        ShellModel {
            joined: self.joined,
            shell_ready: self.shell_ready,
            stdin_closed: self.stdin_closed,
            stdin_closed_at: self.stdin_closed_at,
            pending_lines: queue_view(self.pending_lines),
            pending_echoes: queue_view(self.pending_echoes),
            session_id: opt_view(self.session_id),
        }
    }

    /// A shell that has not joined the channel yet.
    pub fn new(join_ref: String) -> (r: Shell)
        ensures
            r.join_ref == join_ref,
            r.model() == (ShellModel {
                joined: false,
                shell_ready: false,
                stdin_closed: false,
                stdin_closed_at: None,
                pending_lines: Seq::empty(),
                pending_echoes: Seq::empty(),
                session_id: None,
            }),
    {
        let r = Shell {
            join_ref,
            joined: false,
            shell_ready: false,
            stdin_closed: false,
            stdin_closed_at: None,
            pending_lines: VecDeque::new(),
            pending_echoes: VecDeque::new(),
            session_id: None,
        };
        assert(queue_view(r.pending_lines) =~= Seq::<Seq<char>>::empty());
        assert(queue_view(r.pending_echoes) =~= Seq::<Seq<char>>::empty());
        r
    }

    /// Whether standard input is still read.
    pub fn reads_stdin(&self) -> (r: bool)
        ensures
            r == !self.stdin_closed,
    {
        !self.stdin_closed
    }

    /// Whether a waiting line can be sent now.
    pub fn pending_armed(&self) -> (r: bool)
        ensures
            r == (self.joined && self.shell_ready && self.pending_lines@.len() > 0),
    {
        self.joined && self.shell_ready && self.pending_lines.len() > 0
    }

    /// Whether the wait after the end of input is running.
    pub fn drain_armed(&self) -> (r: bool)
        ensures
            r == (self.stdin_closed && self.joined && self.shell_ready
                && self.pending_lines@.len() == 0),
    {
        self.stdin_closed && self.joined && self.shell_ready && self.pending_lines.len() == 0
    }

    /// Whether the wait for joining after the end of input is running.
    pub fn join_wait_armed(&self) -> (r: bool)
        ensures
            r == (self.stdin_closed && !self.joined),
    {
        self.stdin_closed && !self.joined
    }

    /// Message when the channel was not joined before the input ended.
    pub fn join_timeout_message() -> (r: String)
        ensures
            r@ == "dashboard socket join timed out before piped input could run"@,
    {
        "dashboard socket join timed out before piped input could run".to_owned()
    }

    /// Message when the socket closes under an interactive shell.
    pub fn socket_closed_message() -> (r: String)
        ensures
            r@ == "dashboard socket closed"@,
    {
        "dashboard socket closed".to_owned()
    }

    /// A line read from standard input: acted on when the shell is ready,
    /// otherwise kept until it is.
    pub fn on_stdin_line(&mut self, line: String) -> (r: StdinOutcome)
        ensures
            final(self).join_ref == old(self).join_ref,
            old(self).joined && old(self).shell_ready ==> (r matches StdinOutcome::Handled(a)
                && shell_line_ok(line@, a) && final(self).pending_lines@ == old(
                self,
            ).pending_lines@ && final(self).joined == old(self).joined && final(self).shell_ready
                == old(self).shell_ready && final(self).stdin_closed == old(self).stdin_closed
                && final(self).stdin_closed_at == old(self).stdin_closed_at
                && final(self).session_id == old(self).session_id && (is_shell_input(line@)
                && line@.len() > 0 ==> queue_view(final(self).pending_echoes) == keep_last(
                queue_view(old(self).pending_echoes).push(line@),
            )) && (!(is_shell_input(line@) && line@.len() > 0) ==> final(self).pending_echoes@
                == old(self).pending_echoes@)),
            !(old(self).joined && old(self).shell_ready) ==> (r matches StdinOutcome::Queued
                && final(self).model() == (ShellModel {
                pending_lines: old(self).model().pending_lines.push(line@),
                ..old(self).model()
            })),
    {
        if self.joined && self.shell_ready {
            let a = shell_line_action(line.as_str(), &mut self.pending_echoes);
            StdinOutcome::Handled(a)
        } else {
            let ghost before = queue_view(self.pending_lines);
            self.pending_lines.push_back(line);
            assert(queue_view(self.pending_lines) =~= before.push(line@));
            StdinOutcome::Queued
        }
    }

    /// Standard input ended at `now`.
    pub fn on_stdin_end(&mut self, now: u64)
        ensures
            final(self).join_ref == old(self).join_ref,
            final(self).model() == (ShellModel {
                stdin_closed: true,
                stdin_closed_at: Some(now),
                ..old(self).model()
            }),
    {
        self.stdin_closed = true;
        self.stdin_closed_at = Some(now);
    }

    /// Sends the oldest waiting line, if any.
    pub fn on_pending_tick(&mut self) -> (r: Option<Result<ShellLineAction, String>>)
        ensures
            final(self).join_ref == old(self).join_ref,
            old(self).pending_lines@.len() == 0 ==> r is None && final(self).model() == old(
                self,
            ).model(),
            old(self).pending_lines@.len() > 0 ==> (r matches Some(a) && shell_line_ok(
                old(self).pending_lines@[0]@,
                a,
            ) && queue_view(final(self).pending_lines) == queue_view(
                old(self).pending_lines,
            ).drop_first()),
    {
        let ghost before = queue_view(self.pending_lines);
        match self.pending_lines.pop_front() {
            Some(line) => {
                assert(queue_view(self.pending_lines) =~= before.drop_first());
                Some(shell_line_action(line.as_str(), &mut self.pending_echoes))
            },
            None => None,
        }
    }

    /// Whether the wait after the end of input is over: 3 s have passed since
    /// input ended (or its time is unknown).
    pub fn drain_done(&self, now: u64) -> (r: bool)
        ensures
            r == match self.stdin_closed_at {
                Some(t) => (if now >= t {
                    now - t
                } else {
                    0
                }) >= 3000,
                None => true,
            },
    {
        match self.stdin_closed_at {
            Some(t) => now.saturating_sub(t) >= 3000,
            None => true,
        }
    }

    fn data_step(&mut self, data: Option<&str>) -> (r: ShellFrameAction)
        ensures
            final(self).join_ref == old(self).join_ref,
            (final(self).model(), shell_action_view(r)) == shell_data_step(
                old(self).model(),
                match data {
                    Some(d) => Some(d@),
                    None => None,
                },
            ),
    {
        match data {
            None => ShellFrameAction::Nothing,
            Some(d) => {
                let ghost before = self.pending_echoes@;
                let out = filter_remote_echo(d, &mut self.pending_echoes);
                proof {
                    if before.len() > 0 {
                        assert(queue_view(self.pending_echoes) =~= strings_view(before).drop_first()
                            || self.pending_echoes@ == before);
                        if self.pending_echoes@ != before {
                            assert(queue_view(self.pending_echoes) =~= strings_view(
                                before,
                            ).drop_first());
                        }
                    }
                }
                ShellFrameAction::Data(out)
            },
        }
    }

    /// Handles a frame from the channel.
    pub fn on_frame(&mut self, frame: PhoenixFrame) -> (r: Result<ShellFrameAction, String>)
        ensures
            final(self).join_ref == old(self).join_ref,
            (final(self).model(), shell_result_view(r)) == shell_frame_step(
                old(self).join_ref@,
                old(self).model(),
                frame.event@,
                opt_view(frame.reference),
                frame.payload,
            ),
    {
        let ev = chars_of_string(&frame.event);
        if frame.is_event("phx_reply") && frame.answers(self.join_ref.as_str()) {
            let status = text_or_exec(frame.payload.get("status"), "error");
            let resp = frame.payload.get("response");
            if crate::text::chars_eq_str(status.as_slice(), "ok") {
                self.joined = true;
                self.session_id = field_str(resp, "session_id");
                let host = match field_str(resp, "hostname") {
                    Some(x) => x,
                    None => "unknown".to_owned(),
                };
                let sid = match field_str(resp, "session_id") {
                    Some(x) => x,
                    None => "unknown".to_owned(),
                };
                let os = match field_str(resp, "os") {
                    Some(x) => x,
                    None => "unknown".to_owned(),
                };
                return Ok(ShellFrameAction::Joined { hostname: host, session_id: sid, os });
            } else {
                let reason = match field_str(resp, "reason") {
                    Some(x) => chars_of_string(&x),
                    None => chars_of("join failed"),
                };
                return Err(message_with("live response join failed: ", reason.as_slice()));
            }
        }
        if frame.is_event("output") {
            let data = match frame.payload.get("data") {
                Some(v) => v.as_str(),
                None => None,
            };
            return Ok(self.data_step(data));
        }
        if frame.is_event("session_started") {
            self.shell_ready = true;
            let sh = text_or_exec(frame.payload.get("shell"), "shell");
            return Ok(ShellFrameAction::ShellStarted(string_of(sh.as_slice())));
        }
        if frame.is_event("session_ended") || frame.is_event("session_timeout") {
            let reason = text_or_exec(frame.payload.get("reason"), "ended");
            return Ok(ShellFrameAction::SessionEnded(string_of(reason.as_slice())));
        }
        if frame.is_event("builtin_result") {
            let data = match frame.payload.get("output") {
                Some(v) => v.as_str(),
                None => None,
            };
            return Ok(self.data_step(data));
        }
        if frame.is_event("history") {
            let lines = history_of(&frame.payload);
            return Ok(ShellFrameAction::History(lines));
        }
        if frame.is_event("error") {
            let msg = text_or_exec(frame.payload.get("message"), "unknown error");
            return Ok(ShellFrameAction::Error(string_of(msg.as_slice())));
        }
        if frame.is_event("rate_limited") {
            let msg = text_or_exec(frame.payload.get("message"), "rate limited");
            return Ok(ShellFrameAction::RateLimited(string_of(msg.as_slice())));
        }
        if frame.is_event("phx_close") || frame.is_event("phx_error") {
            return Err(message_with("channel closed: ", ev.as_slice()));
        }
        Ok(ShellFrameAction::Nothing)
    }
}

fn history_of(payload: &JsonValue) -> (r: Vec<(String, String)>)
    ensures
        Seq::new(r@.len(), |i: int| (r@[i].0@, r@[i].1@)) == history_lines(*payload),
{
    let entries = match payload.get("entries") {
        Some(e) => match e.as_array() {
            Some(a) => a,
            None => {
                let r: Vec<(String, String)> = Vec::new();
                assert(Seq::new(r@.len(), |i: int| (r@[i].0@, r@[i].1@)) =~= history_lines(
                    *payload,
                ));
                return r;
            },
        },
        None => {
            let r: Vec<(String, String)> = Vec::new();
            assert(Seq::new(r@.len(), |i: int| (r@[i].0@, r@[i].1@)) =~= history_lines(*payload));
            return r;
        },
    };
    let ghost target = history_lines(*payload);
    let n = entries.len();
    let mut out: Vec<(String, String)> = Vec::new();
    let mut i: usize = 0;
    while i < n
        invariant
            n == entries@.len(),
            0 <= i <= n,
            target == Seq::new(entries@.len(), |k: int| history_line(entries@[entries@.len() - 1 - k])),
            Seq::new(out@.len(), |k: int| (out@[k].0@, out@[k].1@)) == target.subrange(0, i as int),
        decreases n - i,
    {
        let idx: usize = n - 1 - i;
        let entry = &entries[idx];
        assert(*entry == entries@[idx as int]);
        let cmd_val = match entry.get("command") {
            Some(v) => Some(v),
            None => entry.get("data"),
        };
        let cmd = text_or_exec(cmd_val, "");
        let ts = text_or_exec(entry.get("timestamp"), "");
        proof {
            reveal_strlit("");
            assert(""@ =~= Seq::<char>::empty());
        }
        assert((ts@, cmd@) == history_line(entries@[idx as int]));
        let ghost before = Seq::new(out@.len(), |k: int| (out@[k].0@, out@[k].1@));
        let pair = (string_of(ts.as_slice()), string_of(cmd.as_slice()));
        out.push(pair);
        assert(Seq::new(out@.len(), |k: int| (out@[k].0@, out@[k].1@)) =~= before.push(
            history_line(entries@[idx as int]),
        ));
        i = i + 1;
        assert(Seq::new(out@.len(), |k: int| (out@[k].0@, out@[k].1@)) =~= target.subrange(
            0,
            i as int,
        ));
    }
    assert(target.subrange(0, n as int) =~= target);
    out
}

} // verus!
