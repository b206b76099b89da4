use iris::event::{event_from_fields, parse_event, BridgeEvent, EventFields};

fn status(e: &BridgeEvent) -> Option<&str> {
    match e {
        BridgeEvent::Status(m) => Some(m.as_str()),
        _ => None,
    }
}

#[test]
fn status_and_error_lines() {
    let e = parse_event(r#"{"kind":"status","message":"Loading model"}"#);
    assert_eq!(status(&e), Some("Loading model"));
    let e = parse_event(r#"{"kind":"status"}"#);
    assert_eq!(status(&e), Some(""));
    let e = parse_event(r#"{"kind":"status","message":5}"#);
    assert_eq!(status(&e), Some(""));
    match parse_event(r#"{"kind":"error","message":"CUDA OOM"}"#) {
        BridgeEvent::Error(m) => assert_eq!(m, "CUDA OOM"),
        other => panic!("unexpected {:?}", other),
    }
}

#[test]
fn progress_line_and_defaults() {
    match parse_event(r#"{"kind":"progress","current":3,"total":10,"message":"Keying"}"#) {
        BridgeEvent::Progress { current, total, message } => {
            assert_eq!((current, total, message.as_str()), (3, 10, "Keying"));
        }
        other => panic!("unexpected {:?}", other),
    }
    match parse_event(r#"{"kind":"progress"}"#) {
        BridgeEvent::Progress { current, total, message } => {
            assert_eq!((current, total, message.as_str()), (0, 1, ""));
        }
        other => panic!("unexpected {:?}", other),
    }
    // Numbers are cut to 32 bits, as `as u32` does.
    match parse_event(r#"{"kind":"progress","current":4294967297,"total":-1}"#) {
        BridgeEvent::Progress { current, total, .. } => assert_eq!((current, total), (1, 1)),
        other => panic!("unexpected {:?}", other),
    }
}

#[test]
fn other_kinds() {
    assert!(matches!(parse_event(r#"{"kind":"done"}"#), BridgeEvent::Done));
    assert!(matches!(parse_event(r#"{"kind":"server_ready"}"#), BridgeEvent::ServerReady));
    match parse_event(r#"{"kind":"hint_ready","path":"/w/AlphaHint/alpha_hint.png"}"#) {
        BridgeEvent::HintReady(p) => assert_eq!(p, "/w/AlphaHint/alpha_hint.png"),
        other => panic!("unexpected {:?}", other),
    }
    match parse_event(r#"{"kind":"frame_count","count":240}"#) {
        BridgeEvent::FrameCount(c) => assert_eq!(c, 240),
        other => panic!("unexpected {:?}", other),
    }
    match parse_event(r#"{"kind":"frame_count"}"#) {
        BridgeEvent::FrameCount(c) => assert_eq!(c, 0),
        other => panic!("unexpected {:?}", other),
    }
}

#[test]
fn gpu_info_line() {
    match parse_event(r#"{"kind":"gpu_info","vram_gb":24.0,"name":"RTX 4090","green_max":3,"yellow_max":4}"#) {
        BridgeEvent::GpuInfo { name, green_max, yellow_max } => {
            assert_eq!((name.as_str(), green_max, yellow_max), ("RTX 4090", 3, 4));
        }
        other => panic!("unexpected {:?}", other),
    }
    match parse_event(r#"{"kind":"gpu_info"}"#) {
        BridgeEvent::GpuInfo { name, green_max, yellow_max } => {
            assert_eq!((name.as_str(), green_max, yellow_max), ("", 1, 2));
        }
        other => panic!("unexpected {:?}", other),
    }
}

#[test]
fn bad_and_unknown_lines() {
    match parse_event("not json") {
        BridgeEvent::Error(m) => assert_eq!(m, "Bad JSON: not json"),
        other => panic!("unexpected {:?}", other),
    }
    match parse_event(r#"{"kind":"teleport"}"#) {
        BridgeEvent::Error(m) => assert_eq!(m, r#"Unknown event: {"kind":"teleport"}"#),
        other => panic!("unexpected {:?}", other),
    }
    match parse_event("[1,2]") {
        BridgeEvent::Error(m) => assert_eq!(m, "Unknown event: [1,2]"),
        other => panic!("unexpected {:?}", other),
    }
}

#[test]
fn decision_from_fields() {
    let fields = EventFields {
        kind: Some("frame_count".to_string()),
        message: None,
        current: None,
        total: None,
        path: None,
        count: Some(12),
        name: None,
        green_max: None,
        yellow_max: None,
    };
    match event_from_fields("line", &Some(fields)) {
        BridgeEvent::FrameCount(c) => assert_eq!(c, 12),
        other => panic!("unexpected {:?}", other),
    }
    match event_from_fields("x", &None) {
        BridgeEvent::Error(m) => assert_eq!(m, "Bad JSON: x"),
        other => panic!("unexpected {:?}", other),
    }
}
