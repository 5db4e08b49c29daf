use std::collections::VecDeque;
use tamandua_ctl::json::{JsonNumber, JsonValue};
use tamandua_ctl::phoenix::{
    action_message, completion_marker, command_dispatch_ready, filter_remote_echo, one_shot_input, one_shot_times,
    parse_completion_marker, phoenix_message, shell_line_action, wrap_one_shot_command,
    CommandStatus, OneShot, OneShotStep, PhoenixFrame, RefCounter, Shell, ShellFrameAction,
    ShellLineAction, StdinOutcome, MAX_PENDING_ECHOES,
};

fn s(text: &str) -> JsonValue {
    JsonValue::Str(text.to_owned())
}

fn obj(members: Vec<(&str, JsonValue)>) -> JsonValue {
    JsonValue::Object(members.into_iter().map(|(k, v)| (k.to_owned(), v)).collect())
}

fn frame(reference: Option<&str>, event: &str, payload: JsonValue) -> PhoenixFrame {
    PhoenixFrame {
        reference: reference.map(|r| r.to_owned()),
        topic: "live_response:a1".to_owned(),
        event: event.to_owned(),
        payload,
    }
}

#[test]
fn references_count_up_and_differ() {
    let mut refs = RefCounter::new();
    let a = refs.next();
    let b = refs.next();
    let c = refs.next();
    assert_eq!((a.as_str(), b.as_str(), c.as_str()), ("0", "1", "2"));
    assert_ne!(a, b);
    let rest: Vec<String> = (3..200).map(|_| refs.next()).collect();
    for (k, r) in rest.iter().enumerate() {
        assert_eq!(r, &(k + 3).to_string());
    }
}

#[test]
fn frames_parse_from_text() {
    let f = PhoenixFrame::parse(r#"["1","2","live_response:a","phx_reply",{"status":"ok"}]"#)
        .unwrap()
        .unwrap();
    assert_eq!(f.reference.as_deref(), Some("2"));
    assert_eq!(f.event, "phx_reply");
    assert_eq!(f.topic, "live_response:a");
    assert!(f.answers("2"));
    assert!(PhoenixFrame::parse(r#"[1,2,3]"#).unwrap().is_none());
    assert!(PhoenixFrame::parse(r#"{"a":1}"#).unwrap().is_none());
    assert!(PhoenixFrame::parse("not json").is_err());
}

#[test]
fn frames_read_from_parsed_values() {
    let value = JsonValue::Array(vec![
        JsonValue::Null,
        JsonValue::Number(JsonNumber::PosInt(7)),
        s("live_response:b"),
        s("output"),
        obj(vec![("data", s("hi"))]),
    ]);
    let f = PhoenixFrame::from_value(value).unwrap();
    assert_eq!(f.reference, None);
    assert_eq!(f.topic, "live_response:b");
    assert_eq!(f.event, "output");
    assert!(f.is_event("output"));
    assert!(!f.answers("7"));
    assert!(PhoenixFrame::from_value(JsonValue::Array(vec![s("a"), s("b")])).is_none());
    assert!(PhoenixFrame::from_value(s("x")).is_none());
}

#[test]
fn messages_are_five_element_arrays() {
    match phoenix_message(None, "3", "t", "e", JsonValue::Null) {
        JsonValue::Array(items) => {
            assert_eq!(items.len(), 5);
            assert!(matches!(items[0], JsonValue::Null));
            assert!(matches!(&items[1], JsonValue::Str(r) if r == "3"));
        }
        other => panic!("{other:?}"),
    }
}

#[test]
fn shell_lines_are_classified() {
    let mut q = VecDeque::new();
    assert!(matches!(shell_line_action(" :quit ", &mut q), Ok(ShellLineAction::Quit)));
    assert!(matches!(shell_line_action(":help", &mut q), Ok(ShellLineAction::Help)));
    assert!(matches!(
        shell_line_action(":resize 80 24", &mut q),
        Ok(ShellLineAction::Resize { cols: 80, rows: 24 })
    ));
    assert!(matches!(shell_line_action(":resize 80", &mut q), Ok(ShellLineAction::ResizeUsage)));
    assert!(matches!(shell_line_action(":resize x 1", &mut q), Err(ref m) if m == "invalid cols value"));
    assert!(matches!(shell_line_action(":resize 1 70000", &mut q), Err(ref m) if m == "invalid rows value"));
    match shell_line_action(":builtin ps -a", &mut q) {
        Ok(ShellLineAction::Builtin { command, args }) => {
            assert_eq!(command, "ps");
            assert_eq!(args, vec!["-a".to_owned()]);
        }
        other => panic!("{other:?}"),
    }
    assert!(q.is_empty());
    match shell_line_action("ls -la", &mut q) {
        Ok(ShellLineAction::Input { data }) => assert_eq!(data, "ls -la\r\n"),
        other => panic!("{other:?}"),
    }
    assert_eq!(q, VecDeque::from(vec!["ls -la".to_owned()]));
}

#[test]
fn pending_echoes_stay_bounded() {
    let mut q = VecDeque::new();
    for i in 0..40 {
        let _ = shell_line_action(&format!("cmd{i}"), &mut q);
        assert!(q.len() <= MAX_PENDING_ECHOES);
    }
    assert_eq!(q.back().map(String::as_str), Some("cmd39"));
    assert_eq!(q.front().map(String::as_str), Some("cmd24"));
}

#[test]
fn echo_of_typed_line_is_removed() {
    let mut q = VecDeque::from(vec!["whoami".to_owned()]);
    assert_eq!(filter_remote_echo("whoami\r\nroot\r\n", &mut q), "root\r\n");
    assert!(q.is_empty());
    let mut q = VecDeque::from(vec!["id".to_owned()]);
    assert_eq!(filter_remote_echo("uid=0\n", &mut q), "uid=0\n");
    assert_eq!(q.len(), 1);
    let mut empty = VecDeque::new();
    assert_eq!(filter_remote_echo("x", &mut empty), "x");
}

#[test]
fn unix_wrap_prints_marker_with_status() {
    let wrapped = wrap_one_shot_command(&["whoami".to_owned()], Some("Linux"), "'__M__'").unwrap();
    assert_eq!(wrapped, "whoami; printf '\\n__M__:%s\\n' \"$?\"");
    assert!(wrap_one_shot_command(&[], None, "m").is_err());
}

#[test]
fn marker_line_read_back_after_any_output() {
    for code in [0, 1, -1, 127, i32::MIN, i32::MAX] {
        let out = format!("noise __M__:9 more\r\n__M__:{code}\r\n");
        assert_eq!(parse_completion_marker(&out, "__M__"), Some(code));
    }
    assert_eq!(parse_completion_marker("no marker", "__M__"), None);
    assert_eq!(parse_completion_marker("__M__:  42x", "__M__"), Some(42));
    assert_eq!(parse_completion_marker("__M__:99999999999", "__M__"), None);
}

#[test]
fn dispatch_waits_for_quiet_shell() {
    assert!(!command_dispatch_ready(None, Some(10_000)));
    assert!(!command_dispatch_ready(Some(100), Some(499)));
    assert!(command_dispatch_ready(Some(100), Some(500)));
    assert!(!command_dispatch_ready(Some(4999), None));
    assert!(command_dispatch_ready(Some(5000), None));
}

#[test]
fn one_shot_input_needs_text() {
    assert_eq!(one_shot_input("dir").unwrap(), "dir\r\n");
    assert!(one_shot_input("   ").is_err());
}

#[test]
fn one_shot_times_have_floors() {
    let t = one_shot_times(0, 0, 0);
    assert_eq!(t.overall_ms, 1000);
    assert_eq!(t.idle_ms, 1000);
    assert_eq!(t.shell_start_secs, 1);
    let t = one_shot_times(20, 90, 60);
    assert_eq!(t.shell_start_secs, 60);
    assert_eq!(t.idle_ms, 20000);
}

fn joined_and_started(run: &mut OneShot) {
    let joined = frame(Some("1"), "phx_reply", obj(vec![("status", s("ok")), ("response", obj(vec![]))]));
    assert_eq!(run.on_frame(joined, 10).unwrap(), OneShotStep::Continue);
    assert_eq!(run.on_frame(frame(None, "session_started", obj(vec![])), 20).unwrap(), OneShotStep::Continue);
}

#[test]
fn unconfirmed_command_stops_after_idle_time() {
    let mut run = OneShot::new("1".to_owned(), "__M__".to_owned(), one_shot_times(2, 30, 30));
    joined_and_started(&mut run);
    assert!(!run.idle_armed());
    assert_eq!(run.idle_deadline(), 30000);
    run.on_dispatch(&["whoami".to_owned()], 100).unwrap();
    assert!(run.idle_armed());
    assert_eq!(run.idle_deadline(), 2100);
    let out = frame(None, "output", obj(vec![("data", s("partial"))]));
    assert_eq!(run.on_frame(out, 1500).unwrap(), OneShotStep::Continue);
    assert_eq!(run.idle_deadline(), 3500);
    assert_eq!(run.on_idle_deadline(), OneShotStep::TerminateAndStop);
    assert!(!run.idle_armed());
    assert!(!run.needs_terminate());
    let report = run.finish("a", &["whoami".to_owned()], 3600);
    assert_eq!(report.status, CommandStatus::DispatchedUnconfirmed);
    assert_eq!(report.end_reason, "idle_timeout");
    assert!(report.unconfirmed_dispatch);
    assert!(!report.command_confirmed);
    assert_eq!(report.exit_code, None);
}

#[test]
fn confirmed_command_takes_no_more_frames() {
    let mut run = OneShot::new("1".to_owned(), "__M__".to_owned(), one_shot_times(2, 30, 30));
    joined_and_started(&mut run);
    run.on_dispatch(&["ls".to_owned()], 100).unwrap();
    let done = frame(None, "output", obj(vec![("data", s("a\n__M__:0\n"))]));
    assert_eq!(run.on_frame(done, 200).unwrap(), OneShotStep::TerminateAndStop);
    let late = frame(None, "output", obj(vec![("data", s("__M__:7\n"))]));
    assert_eq!(run.on_frame(late, 300).unwrap(), OneShotStep::Stop);
    let report = run.finish("a", &["ls".to_owned()], 400);
    assert_eq!(report.output, "a\n__M__:0\n");
    assert_eq!(report.exit_code, Some(0));
    assert_eq!(report.status, CommandStatus::Completed);
}

#[test]
fn one_shot_command_completes_on_marker() {
    let times = one_shot_times(5, 30, 120);
    let mut run = OneShot::new("1".to_owned(), "__DONE__".to_owned(), times);
    let joined = frame(
        Some("1"),
        "phx_reply",
        obj(vec![
            ("status", s("ok")),
            ("response", obj(vec![("session_id", s("S1")), ("hostname", s("h")), ("os", s("Windows 11"))])),
        ]),
    );
    assert_eq!(run.on_frame(joined, 10).unwrap(), OneShotStep::Continue);
    assert_eq!(run.on_frame(frame(None, "session_started", obj(vec![])), 20).unwrap(), OneShotStep::Continue);
    let data = run.on_dispatch(&["ver".to_owned()], 30).unwrap();
    assert_eq!(data, "ver\r\necho __DONE__:%ERRORLEVEL%\r\n");
    let out = frame(None, "output", obj(vec![("data", s("Microsoft Windows\r\n__DONE__:3\r\n"))]));
    assert_eq!(run.on_frame(out, 40).unwrap(), OneShotStep::TerminateAndStop);
    let report = run.finish("a1", &["ver".to_owned()], 50);
    assert_eq!(report.status, CommandStatus::Completed);
    assert_eq!(report.exit_code, Some(3));
    assert_eq!(report.session_id, "S1");
    assert_eq!(report.command, "ver");
    assert_eq!(report.output, "Microsoft Windows\r\n__DONE__:3\r\n");
    assert_eq!(report.end_reason, "command_confirmed");
    assert_eq!(report.duration_ms, 50);
}

#[test]
fn one_shot_join_failure_is_reported() {
    let mut run = OneShot::new("1".to_owned(), "m".to_owned(), one_shot_times(1, 1, 1));
    let refused = frame(
        Some("1"),
        "phx_reply",
        obj(vec![("status", s("error")), ("response", obj(vec![("reason", s("unauthorized"))]))]),
    );
    assert_eq!(run.on_frame(refused, 1).unwrap_err(), "live response join failed: unauthorized");
    let report = run.finish("a", &["x".to_owned()], 2);
    assert_eq!(report.status, CommandStatus::ShellNotReady);
    assert_eq!(report.session_id, "unknown");
    assert_eq!(report.end_reason, "socket_closed");
}

#[test]
fn shell_queues_lines_until_ready() {
    let mut sh = Shell::new("1".to_owned());
    assert!(matches!(sh.on_stdin_line("ls".to_owned()), StdinOutcome::Queued));
    let joined = frame(
        Some("1"),
        "phx_reply",
        obj(vec![
            ("status", s("ok")),
            ("response", obj(vec![("hostname", s("box")), ("session_id", s("S")), ("os", s("linux"))])),
        ]),
    );
    match sh.on_frame(joined).unwrap() {
        ShellFrameAction::Joined { hostname, session_id, os } => {
            assert_eq!((hostname.as_str(), session_id.as_str(), os.as_str()), ("box", "S", "linux"));
        }
        other => panic!("{other:?}"),
    }
    let data = frame(None, "output", obj(vec![("data", s("hello")), ("x", JsonValue::Number(JsonNumber::PosInt(1)))]));
    assert!(matches!(sh.on_frame(data).unwrap(), ShellFrameAction::Data(ref d) if d == "hello"));
}

#[test]
fn shell_actions_become_channel_messages() {
    let (event, payload) = action_message(&ShellLineAction::Input { data: "ls\r\n".to_owned() }).unwrap();
    assert_eq!(event, "input");
    assert!(matches!(&payload, JsonValue::Object(m) if m.len() == 1 && m[0].0 == "data"
        && matches!(&m[0].1, JsonValue::Str(d) if d == "ls\r\n")));
    let (event, payload) = action_message(&ShellLineAction::Resize { cols: 120, rows: 40 }).unwrap();
    assert_eq!(event, "resize");
    assert!(matches!(&payload, JsonValue::Object(m) if m.len() == 2
        && matches!(m[0].1, JsonValue::Number(JsonNumber::PosInt(120)))
        && matches!(m[1].1, JsonValue::Number(JsonNumber::PosInt(40)))));
    let (event, payload) = action_message(&ShellLineAction::Builtin {
        command: "ps".to_owned(),
        args: vec!["-a".to_owned(), "x".to_owned()],
    })
    .unwrap();
    assert_eq!(event, "builtin");
    match payload {
        JsonValue::Object(m) => match &m[1].1 {
            JsonValue::Array(items) => assert_eq!(items.len(), 2),
            other => panic!("{other:?}"),
        },
        other => panic!("{other:?}"),
    }
    assert_eq!(action_message(&ShellLineAction::Quit).unwrap().0, "terminate");
    assert_eq!(action_message(&ShellLineAction::History).unwrap().0, "get_history");
    assert!(action_message(&ShellLineAction::Help).is_none());
    assert!(action_message(&ShellLineAction::ResizeUsage).is_none());
}

#[test]
fn completion_markers_carry_the_reference() {
    let m = completion_marker("7");
    assert_eq!(m, "__TAMANDUA_CTL_DONE_7__");
    let out = format!("any output\r\n{m}:0\r\n");
    assert_eq!(parse_completion_marker(&out, &m), Some(0));
}

#[test]
fn captured_output_keeps_what_came_before() {
    let mut run = OneShot::new("1".to_owned(), "__M__".to_owned(), one_shot_times(5, 5, 5));
    let _ = run.on_frame(frame(None, "output", obj(vec![("data", s("first "))])), 1);
    let _ = run.on_frame(frame(None, "error", obj(vec![("message", s("already exists"))])), 2);
    let _ = run.on_frame(frame(None, "output", obj(vec![("data", s("second"))])), 3);
    let report = run.finish("a", &["x".to_owned()], 4);
    assert!(report.output.starts_with("first "));
    assert_eq!(report.output, "first second");
    assert_eq!(report.events.len(), 1);
}
