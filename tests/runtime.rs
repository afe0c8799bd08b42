use neutralino_ext::extension::{frame_outcome, Config, ConfigField, Extension, FrameOutcome, StartupError};
use neutralino_ext::handler::{
    decimal_string, long_run_event, process_app_event, Request, LONG_RUN_STEPS,
};
use neutralino_ext::wire::{Envelope, EventMessage};

const STARTUP: &str = r#"{"nlPort":"5173","nlExtensionId":"js.neutralino.rust","nlConnectToken":"ct-1","nlToken":"tok-9"}"#;

fn configured() -> Extension {
    let mut ext = Extension::new();
    assert_eq!(ext.configure(STARTUP), Ok(()));
    ext
}

fn frame_fields(frame: &str) -> (String, String, String) {
    let v: serde_json::Value = serde_json::from_str(frame).unwrap();
    let token = v.get("accessToken").unwrap().as_str().unwrap().to_string();
    let data = v.get("data").unwrap();
    (
        token,
        data.get("event").unwrap().as_str().unwrap().to_string(),
        data.get("data").unwrap().as_str().unwrap().to_string(),
    )
}

fn deliver(ext: &Extension, text: &str) -> Envelope {
    match ext.decode_frame(text) {
        FrameOutcome::Deliver(d) => d,
        _ => panic!("expected a delivered envelope"),
    }
}

#[test]
fn configure_sets_url_and_token() {
    let ext = configured();
    let url = ext.endpoint().unwrap();
    assert_eq!(url.scheme(), "ws");
    assert_eq!(url.host_str(), Some("127.0.0.1"));
    assert_eq!(url.port(), Some(5173));
    assert_eq!(url.query(), Some("extensionId=js.neutralino.rust&connectToken=ct-1"));
}

#[test]
fn config_url_text() {
    let c = Config::from_members(
        Some("1".to_string()),
        Some("x".to_string()),
        Some("y".to_string()),
        Some("z".to_string()),
    )
    .ok()
    .unwrap();
    assert_eq!(c.url(), "ws://127.0.0.1:1?extensionId=x&connectToken=y");
    assert_eq!(c.token, "z");
}

#[test]
fn config_reports_first_missing_field() {
    let s = |x: &str| Some(x.to_string());
    assert!(matches!(
        Config::from_members(None, s("e"), s("c"), s("t")),
        Err(StartupError::MissingField(ConfigField::Port))
    ));
    assert!(matches!(
        Config::from_members(s("1"), None, s("c"), None),
        Err(StartupError::MissingField(ConfigField::ExtensionId))
    ));
    assert!(matches!(
        Config::from_members(s("1"), s("e"), None, s("t")),
        Err(StartupError::MissingField(ConfigField::ConnectToken))
    ));
    assert!(matches!(
        Config::from_members(s("1"), s("e"), s("c"), None),
        Err(StartupError::MissingField(ConfigField::Token))
    ));
}

#[test]
fn startup_without_token_never_reaches_connect() {
    let mut ext = Extension::new();
    let r = ext.configure(r#"{"nlPort":"5173","nlExtensionId":"e","nlConnectToken":"c"}"#);
    assert_eq!(r, Err(StartupError::MissingField(ConfigField::Token)));
    assert!(matches!(ext.endpoint(), Err(StartupError::NotConfigured)));
}

#[test]
fn malformed_startup_is_rejected() {
    let mut ext = Extension::new();
    assert_eq!(ext.configure("{not json"), Err(StartupError::Malformed));
    assert!(matches!(ext.endpoint(), Err(StartupError::NotConfigured)));
}

#[test]
fn non_string_field_counts_as_missing() {
    let mut ext = Extension::new();
    let r = ext.configure(r#"{"nlPort":5173,"nlExtensionId":"e","nlConnectToken":"c","nlToken":"t"}"#);
    assert_eq!(r, Err(StartupError::MissingField(ConfigField::Port)));
}

#[test]
fn invalid_url_is_reported() {
    let mut ext = Extension::new();
    let r = ext.configure(r#"{"nlPort":"notaport","nlExtensionId":"e","nlConnectToken":"c","nlToken":"t"}"#);
    assert_eq!(r, Ok(()));
    assert!(matches!(ext.endpoint(), Err(StartupError::InvalidUrl)));
}

#[test]
fn window_close_terminates() {
    let ext = configured();
    assert!(matches!(ext.decode_frame(r#"{"event":"windowClose"}"#), FrameOutcome::Close));
    assert!(matches!(ext.decode_frame(r#"{"event":"appClose","data":1}"#), FrameOutcome::Close));
}

#[test]
fn malformed_frame_is_dropped_and_next_frame_read() {
    let ext = configured();
    assert!(matches!(ext.decode_frame("{\"event\":"), FrameOutcome::Malformed));
    assert!(matches!(ext.decode_frame("not json at all"), FrameOutcome::Malformed));
    assert!(matches!(ext.decode_frame(r#"{"event":"windowClose"}"#), FrameOutcome::Close));
}

#[test]
fn other_events_are_delivered() {
    let ext = configured();
    let d = deliver(&ext, r#"{"event":"runRust","data":{"function":"ping"}}"#);
    assert!(ext.is_event(&d, "runRust"));
    assert!(!ext.is_event(&d, "windowClose"));
    assert!(matches!(ext.decode_frame(r#"{"data":1}"#), FrameOutcome::Deliver(_)));
}

#[test]
fn is_event_reads_the_event_member() {
    let ext = Extension::new();
    let d = Envelope { text: r#"{"event":"windowClose"}"#.to_string() };
    assert!(ext.is_event(&d, "windowClose"));
    assert!(!ext.is_event(&d, "windowclose"));
    let d = Envelope { text: r#"{"data":{}}"#.to_string() };
    assert!(!ext.is_event(&d, "windowClose"));
    let d = Envelope { text: r#"{"event":7}"#.to_string() };
    assert!(!ext.is_event(&d, "7"));
}

#[test]
fn frame_outcome_by_event_name() {
    assert!(matches!(
        frame_outcome(Envelope { text: "{}".to_string() }, Some("appClose".to_string())),
        FrameOutcome::Close
    ));
    assert!(matches!(
        frame_outcome(Envelope { text: "{}".to_string() }, Some("windowclose".to_string())),
        FrameOutcome::Deliver(_)
    ));
    assert!(matches!(frame_outcome(Envelope { text: "{}".to_string() }, None), FrameOutcome::Deliver(_)));
}

#[test]
fn get_data_defaults_to_empty_object() {
    let ext = configured();
    let d = deliver(&ext, r#"{"event":"x"}"#);
    assert_eq!(ext.get_data(&d).text, "{}");
    let d = deliver(&ext, r#"{"event":"x", "data": {"a": "b"}}"#);
    assert_eq!(ext.get_data(&d).text, r#"{"a":"b"}"#);
    let d = deliver(&ext, r#"{"event":"x","data":"plain"}"#);
    assert_eq!(ext.get_data(&d).text, r#""plain""#);
}

#[test]
fn ping_replies_with_pong() {
    let mut ext = configured();
    let d = deliver(&ext, r#"{"event":"runRust","data":{"function":"ping","parameter":"hello"}}"#);
    assert!(!process_app_event(&mut ext, &d));
    let frame = ext.next_frame().unwrap();
    let (token, event, data) = frame_fields(&frame);
    assert_eq!(token, "tok-9");
    assert_eq!(event, "pingResult");
    assert_eq!(data, "Rust says PONG in reply to 'hello'");
    assert!(ext.next_frame().is_none());
}

#[test]
fn long_run_starts_polling_then_reports() {
    let mut ext = configured();
    let d = deliver(&ext, r#"{"event":"runRust","data":{"function":"longRun"}}"#);
    assert!(process_app_event(&mut ext, &d));
    let (_, event, data) = frame_fields(&ext.next_frame().unwrap());
    assert_eq!(event, "startPolling");
    assert_eq!(data, "_");

    let mut step: u64 = 1;
    let mut report = Vec::new();
    while let Some(m) = long_run_event(step) {
        report.push(m);
        step += 1;
    }
    assert_eq!(report.len(), 11);
    for (i, m) in report.iter().take(10).enumerate() {
        assert_eq!(m.event, "pingResult");
        assert_eq!(m.data, format!("Long-running task progress: {} / 10", i + 1));
    }
    assert_eq!(report[10].event, "stopPolling");
    assert_eq!(report[10].data, "");
    assert_eq!(LONG_RUN_STEPS, 10);
    assert!(long_run_event(0).is_none());
    assert!(long_run_event(12).is_none());
}

#[test]
fn queued_messages_are_forwarded_one_per_cycle() {
    let mut ext = configured();
    ext.messages.push(EventMessage::new("pingResult", "p1"));
    ext.messages.push(EventMessage::new("stopPolling", ""));
    assert!(ext.forward_queued());
    let (_, event, data) = frame_fields(&ext.next_frame().unwrap());
    assert_eq!((event.as_str(), data.as_str()), ("pingResult", "p1"));
    assert!(ext.next_frame().is_none());
    assert!(ext.forward_queued());
    let (_, event, data) = frame_fields(&ext.next_frame().unwrap());
    assert_eq!((event.as_str(), data.as_str()), ("stopPolling", ""));
    assert!(!ext.forward_queued());
    assert!(ext.next_frame().is_none());
}

#[test]
fn forward_makes_popped_message_due() {
    let mut ext = configured();
    assert!(!ext.forward(None));
    assert!(ext.next_frame().is_none());
    assert!(ext.forward(Some(EventMessage::new("e", "d"))));
    let (_, event, data) = frame_fields(&ext.next_frame().unwrap());
    assert_eq!((event.as_str(), data.as_str()), ("e", "d"));
}

#[test]
fn sends_are_written_in_order() {
    let mut ext = configured();
    ext.send_message("a", "1");
    ext.send_message("b", "2");
    assert_eq!(frame_fields(&ext.next_frame().unwrap()).1, "a");
    assert_eq!(frame_fields(&ext.next_frame().unwrap()).1, "b");
    assert!(ext.next_frame().is_none());
}

#[test]
fn requests_from_fields() {
    let s = |x: &str| Some(x.to_string());
    assert_eq!(Request::from_fields(s("ping"), s("x")), Request::Ping("x".to_string()));
    assert_eq!(Request::from_fields(s("ping"), None), Request::Ignored);
    assert_eq!(Request::from_fields(s("longRun"), None), Request::LongRun);
    assert_eq!(Request::from_fields(s("other"), s("x")), Request::Ignored);
    assert_eq!(Request::from_fields(None, s("x")), Request::Ignored);
}

#[test]
fn unknown_request_sends_nothing() {
    let mut ext = configured();
    assert!(!ext.handle_request(Request::Ignored));
    assert!(ext.next_frame().is_none());
    let d = deliver(&ext, r#"{"event":"somethingElse","data":{"function":"ping","parameter":"x"}}"#);
    assert!(!process_app_event(&mut ext, &d));
    assert!(ext.next_frame().is_none());
}

#[test]
fn decimal_rendering() {
    assert_eq!(decimal_string(0), "0");
    assert_eq!(decimal_string(7), "7");
    assert_eq!(decimal_string(10), "10");
    assert_eq!(decimal_string(12345), "12345");
    assert_eq!(decimal_string(u64::MAX), u64::MAX.to_string());
}
