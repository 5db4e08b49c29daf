//! The `events` command: the default listing, the log level asked for, how a
//! level is drawn, and the search over log entries.

use crate::cli::{severity_name, EventsListArgs, Severity};
use crate::commands::TextStyle;
use crate::ipc::LogEntry;
use crate::text::{
    chars_eq_str, chars_of, contains, contains_seq, spec_to_lowercase, to_lowercase,
};
use vstd::prelude::*;

verus! {

/// The listing shown when `events` is given no subcommand: the 50 most
/// recent events of any type and level.
pub fn default_list_args() -> (r: EventsListArgs)
    ensures
        r.limit == 50,
        r.since is None,
        r.event_type is None,
        r.severity is None,
{
    EventsListArgs { limit: 50, since: None, event_type: None, severity: None }
}

/// The log level sent to the agent for a severity filter: the severity's
/// lower-case name.
pub fn severity_level(severity: Option<Severity>) -> (r: Option<String>)
    ensures
        match severity {
            Some(s) => r matches Some(l) && l@ == severity_name(s),
            None => r is None,
        },
{
    match severity {
        Some(s) => Some(s.to_string()),
        None => None,
    }
}

/// How a log level is drawn: errors red, warnings yellow, information
/// green, debug blue (each in lower or upper case), anything else plain.
pub open spec fn level_style_spec(level: Seq<char>) -> TextStyle {
    if level == "error"@ || level == "ERROR"@ {
        TextStyle::Red
    } else if level == "warn"@ || level == "WARN"@ {
        TextStyle::Yellow
    } else if level == "info"@ || level == "INFO"@ {
        TextStyle::Green
    } else if level == "debug"@ || level == "DEBUG"@ {
        TextStyle::Blue
    } else {
        TextStyle::Plain
    }
}

/// How a log level is drawn in the event listing.
pub fn level_style(level: &str) -> (r: TextStyle)
    ensures
        r == level_style_spec(level@),
{
    let l = chars_of(level);
    let l = l.as_slice();
    if chars_eq_str(l, "error") || chars_eq_str(l, "ERROR") {
        TextStyle::Red
    } else if chars_eq_str(l, "warn") || chars_eq_str(l, "WARN") {
        TextStyle::Yellow
    } else if chars_eq_str(l, "info") || chars_eq_str(l, "INFO") {
        TextStyle::Green
    } else if chars_eq_str(l, "debug") || chars_eq_str(l, "DEBUG") {
        TextStyle::Blue
    } else {
        TextStyle::Plain
    }
}

/// How many log entries a search asks the agent for: ten times the number
/// it shows, as matching happens here.
pub fn search_fetch_limit(limit: usize) -> (r: usize)
    requires
        limit * 10 <= usize::MAX,
    ensures
        r == limit * 10,
{
    limit * 10
}

/// Whether a search matches, given the lower-cased message, module and
/// query: the query occurs in the message or in the module.
pub open spec fn matches_lowered(
    message_lower: Seq<char>,
    module_lower: Option<Seq<char>>,
    query_lower: Seq<char>,
) -> bool {
    contains_seq(message_lower, query_lower) || match module_lower {
        Some(m) => contains_seq(m, query_lower),
        None => false,
    }
}

/// Whether a search matches, given the lower-cased message, module and
/// query.
pub fn matches_query(message_lower: &str, module_lower: Option<&str>, query_lower: &str) -> (r:
    bool)
    ensures
        r == matches_lowered(
            message_lower@,
            match module_lower {
                Some(m) => Some(m@),
                None => None,
            },
            query_lower@,
        ),
{
    let q = chars_of(query_lower);
    let m = chars_of(message_lower);
    if contains(m.as_slice(), q.as_slice()) {
        return true;
    }
    match module_lower {
        Some(md) => {
            let mc = chars_of(md);
            contains(mc.as_slice(), q.as_slice())
        },
        None => false,
    }
}

/// Whether a log entry matches a lower-cased query, case aside: the query
/// occurs in the lower-cased message or module.
pub open spec fn log_matches(log: LogEntry, query_lower: Seq<char>) -> bool {
    matches_lowered(
        spec_to_lowercase(log.message@),
        match log.module {
            Some(m) => Some(spec_to_lowercase(m@)),
            None => None,
        },
        query_lower,
    )
}

/// The first `limit` elements of a sequence, or all of them.
pub open spec fn first_n<A>(s: Seq<A>, limit: nat) -> Seq<A> {
    if s.len() <= limit {
        s
    } else {
        s.take(limit as int)
    }
}

/// The entries a search shows: those matching the query whatever the case,
/// in order, at most `limit`.
pub open spec fn search_spec(logs: Seq<LogEntry>, query: Seq<char>, limit: nat) -> Seq<LogEntry> {
    first_n(logs.filter(|l: LogEntry| log_matches(l, spec_to_lowercase(query))), limit)
}

/// Keeps the log entries whose message or module contains the query, case
/// aside, in order, at most `limit` of them.
pub fn search_logs(logs: Vec<LogEntry>, query: &str, limit: usize) -> (r: Vec<LogEntry>)
    ensures
        r@ == search_spec(logs@, query@, limit as nat),
{
    let query_lower = to_lowercase(query);
    let ghost ql = spec_to_lowercase(query@);
    let ghost pred = |l: LogEntry| log_matches(l, ql);
    let ghost orig = logs@;
    let mut rest = logs;
    let mut out: Vec<LogEntry> = Vec::new();
    let n = rest.len();
    let mut k: usize = 0;
    while k < n
        invariant
            n == orig.len(),
            0 <= k <= n,
            rest@ == orig.skip(k as int),
            out@ == first_n(orig.take(k as int).filter(pred), limit as nat),
            query_lower@ == ql,
            pred == (|l: LogEntry| log_matches(l, ql)),
        decreases n - k,
    {
        let l = rest.remove(0);
        proof {
            reveal(Seq::filter);
            assert(l == orig[k as int]);
            assert(orig.take(k as int + 1).drop_last() =~= orig.take(k as int));
            assert(orig.take(k as int + 1).last() == orig[k as int]);
            assert(rest@ =~= orig.skip(k as int + 1));
        }
        let message_lower = to_lowercase(l.message.as_str());
        let module_lower: Option<String> = match &l.module {
            Some(m) => Some(to_lowercase(m.as_str())),
            None => None,
        };
        let module_ref: Option<&str> = match &module_lower {
            Some(m) => Some(m.as_str()),
            None => None,
        };
        let hit = matches_query(message_lower.as_str(), module_ref, query_lower.as_str());
        if hit && out.len() < limit {
            out.push(l);
        }
        k = k + 1;
        proof {
            let f0 = orig.take(k as int - 1).filter(pred);
            if hit && f0.len() < limit {
                assert(out@ =~= first_n(f0.push(orig[k as int - 1]), limit as nat));
            }
        }
    }
    proof {
        assert(orig.take(n as int) =~= orig);
    }
    out
}

/// A search shows at most `limit` entries, and each of them matches the
/// query whatever the case.
pub proof fn lemma_search_results_match(logs: Seq<LogEntry>, query: Seq<char>, limit: nat)
    ensures
        search_spec(logs, query, limit).len() <= limit,
        forall|i: int|
            0 <= i < search_spec(logs, query, limit).len() ==> log_matches(
                #[trigger] search_spec(logs, query, limit)[i],
                spec_to_lowercase(query),
            ),
{
    let pred = |l: LogEntry| log_matches(l, spec_to_lowercase(query));
    let f = logs.filter(pred);
    let r = search_spec(logs, query, limit);
    assert(r == first_n(f, limit));
    assert forall|i: int| 0 <= i < r.len() implies log_matches(
        #[trigger] r[i],
        spec_to_lowercase(query),
    ) by {
        assert(r[i] == f[i]);
        logs.lemma_filter_pred(pred, i);
    }
}

/// The message `events list` stops with for a `--since` value it cannot
/// read.
pub fn invalid_since_message(text: &str) -> (r: String)
    ensures
        r@ == "Invalid time format: '"@ + text@
            + "'. Use duration (e.g., '1h', '30m') or date (e.g., '2024-01-01')"@,
{
    crate::text::concat3(
        "Invalid time format: '",
        text,
        "'. Use duration (e.g., '1h', '30m') or date (e.g., '2024-01-01')",
    )
}

} // verus!
