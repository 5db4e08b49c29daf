//! The `alerts` command: which alerts a listing shows, finding one alert by
//! an id prefix, counting by severity, and how a severity is drawn.

use crate::cli::{AlertsListArgs, Severity};
use crate::commands::{styled, StyledText, TextStyle};
use crate::ipc::{severity_rank, AlertNotification, AlertSeverity};
use crate::text::{chars_of, has_prefix, starts_with};
use vstd::prelude::*;

verus! {

/// The listing shown when `alerts` is given no subcommand: the 50 most
/// recent alerts that are not acknowledged.
pub fn default_list_args() -> (r: AlertsListArgs)
    ensures
        r.limit == 50,
        r.since is None,
        r.severity is None,
        r.unacked,
        !r.all,
{
    AlertsListArgs { limit: 50, since: None, severity: None, unacked: true, all: false }
}

/// The alert severity that a command-line severity names.
pub open spec fn severity_of_spec(s: Severity) -> AlertSeverity {
    match s {
        Severity::Info => AlertSeverity::Info,
        Severity::Low => AlertSeverity::Low,
        Severity::Medium => AlertSeverity::Medium,
        Severity::High => AlertSeverity::High,
        Severity::Critical => AlertSeverity::Critical,
    }
}

/// The alert severity that a command-line severity names.
pub fn severity_of(s: Severity) -> (r: AlertSeverity)
    ensures
        r == severity_of_spec(s),
{
    match s {
        Severity::Info => AlertSeverity::Info,
        Severity::Low => AlertSeverity::Low,
        Severity::Medium => AlertSeverity::Medium,
        Severity::High => AlertSeverity::High,
        Severity::Critical => AlertSeverity::Critical,
    }
}

/// Whether a listing keeps an alert: its severity is at least the one asked
/// for, and it is not acknowledged when only unacknowledged alerts are shown.
pub open spec fn alert_listed(
    a: AlertNotification,
    min_severity: Option<Severity>,
    only_unacked: bool,
) -> bool {
    &&& match min_severity {
        Some(s) => severity_rank(a.severity) >= severity_rank(severity_of_spec(s)),
        None => true,
    }
    &&& (only_unacked ==> !a.acknowledged)
}

/// Whether the listing shows only unacknowledged alerts: `--unacked`
/// without `--all`.
pub open spec fn only_unacked_spec(args: AlertsListArgs) -> bool {
    args.unacked && !args.all
}

/// The alerts a listing shows, in the order the agent sent them.
pub open spec fn listed_alerts(
    alerts: Seq<AlertNotification>,
    args: AlertsListArgs,
) -> Seq<AlertNotification> {
    alerts.filter(|a: AlertNotification| alert_listed(a, args.severity, only_unacked_spec(args)))
}

fn is_listed(a: &AlertNotification, min_severity: Option<Severity>, only_unacked: bool) -> (r: bool)
    ensures
        r == alert_listed(*a, min_severity, only_unacked),
{
    let severity_ok = match min_severity {
        Some(s) => a.severity.at_least(&severity_of(s)),
        None => true,
    };
    severity_ok && !(only_unacked && a.acknowledged)
}

/// Keeps the alerts that a listing shows: those at or above the severity
/// asked for, and only the unacknowledged ones under `--unacked` without
/// `--all`; the order is kept.
pub fn filter_alerts(alerts: Vec<AlertNotification>, args: &AlertsListArgs) -> (r: Vec<
    AlertNotification,
>)
    ensures
        r@ == listed_alerts(alerts@, *args),
{
    let only_unacked = args.unacked && !args.all;
    let ghost pred = |a: AlertNotification| alert_listed(a, args.severity, only_unacked);
    let ghost orig = alerts@;
    let mut rest = alerts;
    let mut out: Vec<AlertNotification> = Vec::new();
    let n = rest.len();
    let mut k: usize = 0;
    while k < n
        invariant
            n == orig.len(),
            0 <= k <= n,
            rest@ == orig.skip(k as int),
            out@ == orig.take(k as int).filter(pred),
            pred == (|a: AlertNotification| alert_listed(a, args.severity, only_unacked)),
        decreases n - k,
    {
        let a = rest.remove(0);
        proof {
            reveal(Seq::filter);
            assert(a == orig[k as int]);
            assert(orig.take(k as int + 1).drop_last() =~= orig.take(k as int));
            assert(orig.take(k as int + 1).last() == orig[k as int]);
            assert(rest@ =~= orig.skip(k as int + 1));
        }
        if is_listed(&a, args.severity, only_unacked) {
            out.push(a);
        }
        k = k + 1;
    }
    proof {
        assert(orig.take(n as int) =~= orig);
    }
    out
}

/// Whether an alert id is the one asked for: the id starts with the text
/// given (an exact id starts with itself).
pub open spec fn id_matches(id: Seq<char>, asked: Seq<char>) -> bool {
    has_prefix(id, asked)
}

/// An alert (or quarantine entry) is found by an id it starts with: the
/// asked id matches exactly when it is a prefix of the entry's id, so the
/// full id and every shorter start of it find the entry, and a longer or
/// different id does not.
pub proof fn lemma_id_prefix_lookup(id: Seq<char>, asked: Seq<char>)
    ensures
        id_matches(id, asked) == (asked.len() <= id.len() && id.subrange(0, asked.len() as int)
            == asked),
        id_matches(id, id),
        forall|n: int| 0 <= n <= id.len() ==> #[trigger] id_matches(id, id.subrange(0, n)),
        asked.len() > id.len() ==> !id_matches(id, asked),
{
    assert(id.subrange(0, id.len() as int) =~= id);
    assert forall|n: int| 0 <= n <= id.len() implies #[trigger] id_matches(id, id.subrange(0, n)) by {
        assert(id.subrange(0, id.subrange(0, n).len() as int) =~= id.subrange(0, n));
    }
}

/// The first alert whose id starts with `id`.
pub fn find_alert(alerts: &[AlertNotification], id: &str) -> (r: Option<usize>)
    ensures
        match r {
            Some(i) => i < alerts@.len() && id_matches(alerts@[i as int].id@, id@) && forall|
                j: int,
            |
                0 <= j < i ==> !id_matches(#[trigger] alerts@[j].id@, id@),
            None => forall|j: int|
                0 <= j < alerts@.len() ==> !id_matches(#[trigger] alerts@[j].id@, id@),
        },
{
    let asked = chars_of(id);
    let mut i: usize = 0;
    while i < alerts.len()
        invariant
            0 <= i <= alerts@.len(),
            asked@ == id@,
            forall|j: int| 0 <= j < i ==> !id_matches(#[trigger] alerts@[j].id@, id@),
        decreases alerts@.len() - i,
    {
        let cand = chars_of(alerts[i].id.as_str());
        if starts_with(cand.as_slice(), asked.as_slice()) {
            return Some(i);
        }
        i = i + 1;
    }
    None
}

/// How a severity is drawn in tables and details.
pub open spec fn severity_style(s: AlertSeverity) -> TextStyle {
    match s {
        AlertSeverity::Critical => TextStyle::RedBold,
        AlertSeverity::High => TextStyle::Red,
        AlertSeverity::Medium => TextStyle::Yellow,
        AlertSeverity::Low => TextStyle::Blue,
        AlertSeverity::Info => TextStyle::Plain,
    }
}

/// The lower-case name of a severity with the style it is drawn in:
/// critical in bold red, high in red, medium in yellow, low in blue, info
/// plain.
pub fn colorize_severity(severity: &AlertSeverity) -> (r: StyledText)
    ensures
        r.text@ == crate::ipc::alert_severity_name(*severity),
        r.style == severity_style(*severity),
{
    match severity {
        AlertSeverity::Critical => styled("critical", TextStyle::RedBold),
        AlertSeverity::High => styled("high", TextStyle::Red),
        AlertSeverity::Medium => styled("medium", TextStyle::Yellow),
        AlertSeverity::Low => styled("low", TextStyle::Blue),
        AlertSeverity::Info => styled("info", TextStyle::Plain),
    }
}

/// The number of alerts of a given severity.
pub open spec fn count_severity(alerts: Seq<AlertNotification>, s: AlertSeverity) -> nat {
    alerts.filter(|a: AlertNotification| a.severity == s).len()
}

/// The number of alerts not acknowledged.
pub open spec fn count_unacked(alerts: Seq<AlertNotification>) -> nat {
    alerts.filter(|a: AlertNotification| !a.acknowledged).len()
}

/// Counts of alerts: all, unacknowledged, and by severity.
#[derive(Clone, Copy, Debug, PartialEq, Eq, Structural)]
pub struct AlertStats {
    pub total: usize,
    pub unacknowledged: usize,
    pub critical: usize,
    pub high: usize,
    pub medium: usize,
    pub low: usize,
    pub info: usize,
}

/// Counts a list of alerts: in all, unacknowledged, and by severity.
pub fn alert_stats(alerts: &[AlertNotification]) -> (r: AlertStats)
    ensures
        r.total == alerts@.len(),
        r.unacknowledged == count_unacked(alerts@),
        r.critical == count_severity(alerts@, AlertSeverity::Critical),
        r.high == count_severity(alerts@, AlertSeverity::High),
        r.medium == count_severity(alerts@, AlertSeverity::Medium),
        r.low == count_severity(alerts@, AlertSeverity::Low),
        r.info == count_severity(alerts@, AlertSeverity::Info),
{
    let ghost s = alerts@;
    let ghost pu = |a: AlertNotification| !a.acknowledged;
    let ghost pc = |a: AlertNotification| a.severity == AlertSeverity::Critical;
    let ghost ph = |a: AlertNotification| a.severity == AlertSeverity::High;
    let ghost pm = |a: AlertNotification| a.severity == AlertSeverity::Medium;
    let ghost pl = |a: AlertNotification| a.severity == AlertSeverity::Low;
    let ghost pi = |a: AlertNotification| a.severity == AlertSeverity::Info;
    let mut st = AlertStats {
        total: alerts.len(),
        unacknowledged: 0,
        critical: 0,
        high: 0,
        medium: 0,
        low: 0,
        info: 0,
    };
    let mut i: usize = 0;
    while i < alerts.len()
        invariant
            s == alerts@,
            0 <= i <= s.len(),
            st.total == s.len(),
            st.unacknowledged == s.take(i as int).filter(pu).len(),
            st.critical == s.take(i as int).filter(pc).len(),
            st.high == s.take(i as int).filter(ph).len(),
            st.medium == s.take(i as int).filter(pm).len(),
            st.low == s.take(i as int).filter(pl).len(),
            st.info == s.take(i as int).filter(pi).len(),
            pu == (|a: AlertNotification| !a.acknowledged),
            pc == (|a: AlertNotification| a.severity == AlertSeverity::Critical),
            ph == (|a: AlertNotification| a.severity == AlertSeverity::High),
            pm == (|a: AlertNotification| a.severity == AlertSeverity::Medium),
            pl == (|a: AlertNotification| a.severity == AlertSeverity::Low),
            pi == (|a: AlertNotification| a.severity == AlertSeverity::Info),
        decreases s.len() - i,
    {
        let a = &alerts[i];
        proof {
            reveal(Seq::filter);
            let t = s.take(i as int + 1);
            assert(t.drop_last() =~= s.take(i as int));
            assert(t.last() == s[i as int]);
            s.take(i as int).lemma_filter_len(pu);
            s.take(i as int).lemma_filter_len(pc);
            s.take(i as int).lemma_filter_len(ph);
            s.take(i as int).lemma_filter_len(pm);
            s.take(i as int).lemma_filter_len(pl);
            s.take(i as int).lemma_filter_len(pi);
        }
        if !a.acknowledged {
            st.unacknowledged = st.unacknowledged + 1;
        }
        match a.severity {
            AlertSeverity::Critical => st.critical = st.critical + 1,
            AlertSeverity::High => st.high = st.high + 1,
            AlertSeverity::Medium => st.medium = st.medium + 1,
            AlertSeverity::Low => st.low = st.low + 1,
            AlertSeverity::Info => st.info = st.info + 1,
        }
        i = i + 1;
    }
    proof {
        assert(s.take(s.len() as int) =~= s);
    }
    st
}

/// Every alert has exactly one severity: the counts by severity add up to
/// the number of alerts, and the unacknowledged ones are among them.
pub proof fn lemma_severity_counts_partition(alerts: Seq<AlertNotification>)
    ensures
        count_severity(alerts, AlertSeverity::Critical) + count_severity(
            alerts,
            AlertSeverity::High,
        ) + count_severity(alerts, AlertSeverity::Medium) + count_severity(
            alerts,
            AlertSeverity::Low,
        ) + count_severity(alerts, AlertSeverity::Info) == alerts.len(),
        count_unacked(alerts) <= alerts.len(),
    decreases alerts.len(),
{
    let pu = |a: AlertNotification| !a.acknowledged;
    let pc = |a: AlertNotification| a.severity == AlertSeverity::Critical;
    let ph = |a: AlertNotification| a.severity == AlertSeverity::High;
    let pm = |a: AlertNotification| a.severity == AlertSeverity::Medium;
    let pl = |a: AlertNotification| a.severity == AlertSeverity::Low;
    let pi = |a: AlertNotification| a.severity == AlertSeverity::Info;
    alerts.lemma_filter_len(pu);
    reveal(Seq::filter);
    if alerts.len() > 0 {
        lemma_severity_counts_partition(alerts.drop_last());
        assert(alerts.filter(pc) == (if pc(alerts.last()) {
            alerts.drop_last().filter(pc).push(alerts.last())
        } else {
            alerts.drop_last().filter(pc)
        }));
        assert(alerts.filter(ph) == (if ph(alerts.last()) {
            alerts.drop_last().filter(ph).push(alerts.last())
        } else {
            alerts.drop_last().filter(ph)
        }));
        assert(alerts.filter(pm) == (if pm(alerts.last()) {
            alerts.drop_last().filter(pm).push(alerts.last())
        } else {
            alerts.drop_last().filter(pm)
        }));
        assert(alerts.filter(pl) == (if pl(alerts.last()) {
            alerts.drop_last().filter(pl).push(alerts.last())
        } else {
            alerts.drop_last().filter(pl)
        }));
        assert(alerts.filter(pi) == (if pi(alerts.last()) {
            alerts.drop_last().filter(pi).push(alerts.last())
        } else {
            alerts.drop_last().filter(pi)
        }));
    }
}

/// The message `alerts list` stops with for a `--since` value it cannot
/// read.
pub fn invalid_since_message(text: &str) -> (r: String)
    ensures
        r@ == "Invalid time format: '"@ + text@ + "'"@,
{
    crate::text::concat3("Invalid time format: '", text, "'")
}

/// Severities are ordered `Info < Low < Medium < High < Critical`, each
/// strictly below the next: an alert passes a `--severity` filter exactly
/// when it is at or above the asked severity in that order, and the asked
/// severity is the alert severity of the same name.
pub proof fn lemma_severity_order()
    ensures
        severity_rank(AlertSeverity::Info) < severity_rank(AlertSeverity::Low),
        severity_rank(AlertSeverity::Low) < severity_rank(AlertSeverity::Medium),
        severity_rank(AlertSeverity::Medium) < severity_rank(AlertSeverity::High),
        severity_rank(AlertSeverity::High) < severity_rank(AlertSeverity::Critical),
        forall|s: Severity|
            #![auto]
            crate::ipc::alert_severity_name(severity_of_spec(s)) == crate::cli::severity_name(s),
{
}

/// What an alert listing shows: every shown alert is one the agent sent, at
/// or above the `--severity` asked for and unacknowledged under `--unacked`
/// without `--all`; every alert the agent sent that meets those conditions is
/// shown; and nothing is added.
pub proof fn lemma_listing_law(alerts: Seq<AlertNotification>, args: AlertsListArgs)
    ensures
        listed_alerts(alerts, args).len() <= alerts.len(),
        forall|i: int|
            0 <= i < listed_alerts(alerts, args).len() ==> {
                let a = #[trigger] listed_alerts(alerts, args)[i];
                &&& alerts.contains(a)
                &&& (args.severity matches Some(s) ==> severity_rank(a.severity) >= severity_rank(
                    severity_of_spec(s),
                ))
                &&& (args.unacked && !args.all ==> !a.acknowledged)
            },
        forall|j: int|
            0 <= j < alerts.len() && (args.severity matches Some(s) ==> severity_rank(
                #[trigger] alerts[j].severity,
            ) >= severity_rank(severity_of_spec(s))) && (args.unacked && !args.all
                ==> !alerts[j].acknowledged) ==> listed_alerts(alerts, args).contains(alerts[j]),
{
    let pred = |a: AlertNotification| alert_listed(a, args.severity, only_unacked_spec(args));
    broadcast use vstd::seq_lib::group_filter_ensures;
    alerts.lemma_filter_len(pred);
    assert forall|i: int| 0 <= i < listed_alerts(alerts, args).len() implies alerts.contains(
        #[trigger] listed_alerts(alerts, args)[i],
    ) by {
        alerts.lemma_filter_pred(pred, i);
        lemma_filtered_in_source(alerts, pred, i);
    }
    assert forall|j: int|
        0 <= j < alerts.len() && (args.severity matches Some(s) ==> severity_rank(
            #[trigger] alerts[j].severity,
        ) >= severity_rank(severity_of_spec(s))) && (args.unacked && !args.all
            ==> !alerts[j].acknowledged) implies listed_alerts(alerts, args).contains(alerts[j]) by {
        alerts.lemma_filter_contains(pred, j);
    }
}

proof fn lemma_filtered_in_source(
    s: Seq<AlertNotification>,
    pred: spec_fn(AlertNotification) -> bool,
    i: int,
)
    requires
        0 <= i < s.filter(pred).len(),
    ensures
        s.contains(s.filter(pred)[i]),
    decreases s.len(),
{
    reveal(Seq::filter);
    if s.len() > 0 {
        let init = s.drop_last();
        if pred(s.last()) {
            assert(s.filter(pred) == init.filter(pred).push(s.last()));
            if i < init.filter(pred).len() {
                lemma_filtered_in_source(init, pred, i);
                let k = choose|k: int| 0 <= k < init.len() && init[k] == init.filter(pred)[i];
                assert(s[k] == init[k]);
            } else {
                assert(s[s.len() - 1] == s.last());
            }
        } else {
            assert(s.filter(pred) == init.filter(pred));
            lemma_filtered_in_source(init, pred, i);
            let k = choose|k: int| 0 <= k < init.len() && init[k] == init.filter(pred)[i];
            assert(s[k] == init[k]);
        }
    }
}

} // verus!
