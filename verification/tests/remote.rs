use tamandua_ctl::json::{JsonNumber, JsonValue};
use tamandua_ctl::phoenix::{parse_completion_marker, wrap_one_shot_command};
use tamandua_ctl::remote::live_response_command_error;

fn s(text: &str) -> JsonValue {
    JsonValue::Str(text.to_owned())
}

fn obj(members: Vec<(&str, JsonValue)>) -> JsonValue {
    JsonValue::Object(
        members
            .into_iter()
            .map(|(k, v)| (k.to_owned(), v))
            .collect(),
    )
}

fn num(n: u64) -> JsonValue {
    JsonValue::Number(JsonNumber::PosInt(n))
}

#[test]
fn wraps_windows_one_shot_marker_on_separate_line() {
    let wrapped = wrap_one_shot_command(
        &[
            "if".to_owned(),
            "exist".to_owned(),
            "C:\\Windows".to_owned(),
            "echo".to_owned(),
            "FOUND".to_owned(),
        ],
        Some("windows"),
        "__TAMANDUA_CTL_DONE_1__",
    )
    .expect("wrap windows command");

    assert_eq!(
        wrapped,
        "if exist C:\\Windows echo FOUND\r\necho __TAMANDUA_CTL_DONE_1__:%ERRORLEVEL%"
    );
}

#[test]
fn parses_last_completion_marker() {
    let output = "first\r\n__TAMANDUA_CTL_DONE_1__:1\r\nsecond\r\n__TAMANDUA_CTL_DONE_1__:0\r\n";

    assert_eq!(
        parse_completion_marker(output, "__TAMANDUA_CTL_DONE_1__"),
        Some(0)
    );
}

#[test]
fn live_response_command_error_detects_nested_upload_failure() {
    let value = obj(vec![(
        "data",
        obj(vec![
            ("status", s("success")),
            ("exit_code", num(0)),
            (
                "output",
                obj(vec![
                    ("success", JsonValue::Bool(false)),
                    ("error_message", s("Failed to write file: access denied")),
                ]),
            ),
        ]),
    )]);

    let error = live_response_command_error(&value).expect("nested failure should be reported");
    assert!(error.contains("access denied"));
}

#[test]
fn live_response_command_error_accepts_successful_upload_object() {
    let value = obj(vec![(
        "data",
        obj(vec![
            ("status", s("success")),
            ("exit_code", num(0)),
            (
                "output",
                obj(vec![
                    ("path", s("\\\\?\\D:\\Temp\\agent.exe")),
                    ("sha256", s("abc123")),
                    ("size", num(42)),
                ]),
            ),
        ]),
    )]);

    assert!(live_response_command_error(&value).is_none());
}
