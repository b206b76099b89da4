use iris::event::BridgeEvent;
use iris::panel::{
    export_fps_text, on_auto_hint_event, on_export_event, on_export_press, on_extract_event,
    on_gpu_event, on_hint_press, on_infer_event, on_infer_press, on_manual_hint_event,
    run_button_label, Fraction, InferPress,
};
use iris::queue::ClipStatus;
use iris::viewer::ViewMode;

fn progress(c: u32, t: u32, m: &str) -> BridgeEvent {
    BridgeEvent::Progress { current: c, total: t, message: m.to_string() }
}

#[test]
fn export_reactions() {
    let u = on_export_event(&progress(2, 8, "Encoding"));
    assert_eq!(u.status.as_deref(), Some("Encoding"));
    assert_eq!(u.progress, Some(Fraction::Ratio { current: 2, total: 8 }));
    let u = on_export_event(&BridgeEvent::Done);
    assert_eq!(u.status.as_deref(), Some("✓ Saved to Export/"));
    assert_eq!(u.progress, Some(Fraction::Complete));
    let u = on_export_event(&BridgeEvent::Error("disk full".to_string()));
    assert_eq!(u.status.as_deref(), Some("Export error: disk full"));
    assert_eq!(u.progress, Some(Fraction::Zero));
    let u = on_export_event(&BridgeEvent::ServerReady);
    assert!(u.status.is_none() && u.progress.is_none());
    let (u, start) = on_export_press("");
    assert_eq!((u.status.as_deref(), start), (Some("No clip selected"), false));
    assert!(u.progress.is_none());
    let (u, start) = on_export_press("/w");
    assert_eq!((u.status.as_deref(), start), (Some("Exporting..."), true));
    assert_eq!(u.progress, Some(Fraction::Zero));
    assert_eq!(export_fps_text(), 24.0f32.to_string());
}

#[test]
fn inference_reactions() {
    let u = on_infer_event(&BridgeEvent::Status("Loading".to_string()));
    assert_eq!(u.status.as_deref(), Some("Loading"));
    assert!(u.running.is_none());
    let u = on_infer_event(&BridgeEvent::Done);
    assert_eq!(u.running, Some(false));
    assert_eq!(u.status.as_deref(), Some("Done — switch to COMP or FG to preview"));
    let u = on_infer_event(&BridgeEvent::Error("boom".to_string()));
    assert_eq!((u.running, u.status.as_deref()), (Some(false), Some("Error: boom")));
    let (p, u) = on_infer_press(true, "/w");
    assert_eq!(p, InferPress::Cancel);
    assert_eq!((u.running, u.status.as_deref(), u.progress), (Some(false), Some("Cancelled"), Some(Fraction::Zero)));
    let (p, u) = on_infer_press(false, "");
    assert_eq!(p, InferPress::NoClip);
    assert!(u.status.is_none() && u.running.is_none());
    let (p, u) = on_infer_press(false, "/w");
    assert_eq!(p, InferPress::Start);
    assert_eq!((u.running, u.status.as_deref()), (Some(true), Some("Running inference...")));
    assert_eq!(run_button_label(true), "CANCEL");
    assert_eq!(run_button_label(false), "RUN INFERENCE");
}

#[test]
fn gpu_limits() {
    let u = on_gpu_event(&BridgeEvent::GpuInfo { name: "x".to_string(), green_max: 3, yellow_max: 5 });
    assert_eq!(u.limits, Some((3, 5)));
    assert_eq!(on_gpu_event(&BridgeEvent::Done).limits, None);
}

#[test]
fn extraction_then_hint() {
    let u = on_extract_event(&BridgeEvent::FrameCount(120));
    assert_eq!(u.total_frames, Some(120));
    let u = on_extract_event(&progress(10, 120, "Extracting"));
    assert_eq!(u.clip_status, Some(ClipStatus::Extract));
    let u = on_extract_event(&BridgeEvent::Done);
    assert_eq!(u.extracting, Some(false));
    assert_eq!(u.clip_status, Some(ClipStatus::Alpha));
    assert_eq!(u.status.as_deref(), Some("Generating alpha hint..."));
    assert_eq!(u.hint_status.as_deref(), Some("GENERATING..."));
    assert!(u.start_auto_hint);
    let u = on_extract_event(&BridgeEvent::Error("x".to_string()));
    assert_eq!((u.clip_status, u.status.as_deref()), (Some(ClipStatus::Error), Some("Extraction failed")));
    assert!(!u.start_auto_hint);
    let u = on_auto_hint_event(&BridgeEvent::HintReady("/w/h.png".to_string()));
    assert_eq!(u.hint_path.as_deref(), Some("/w/h.png"));
    assert_eq!(u.hint_status.as_deref(), Some("✓ HINT SET"));
    assert_eq!(u.view_mode, Some(ViewMode::Matte));
    assert_eq!(u.clip_status, Some(ClipStatus::Ready));
    assert_eq!(u.progress, Some(Fraction::Complete));
    let u = on_auto_hint_event(&BridgeEvent::Error("x".to_string()));
    assert_eq!((u.hint_status.as_deref(), u.status.as_deref()), (Some("ERROR"), Some("Hint generation failed")));
}

#[test]
fn manual_hint() {
    assert_eq!(on_hint_press().hint_status.as_deref(), Some("GENERATING..."));
    let u = on_manual_hint_event(&BridgeEvent::HintReady("/h".to_string()));
    assert_eq!((u.hint_path.as_deref(), u.hint_status.as_deref()), (Some("/h"), Some("✓ HINT SET")));
    assert!(u.view_mode.is_none());
    let u = on_manual_hint_event(&BridgeEvent::Error("e".to_string()));
    assert_eq!(u.hint_status.as_deref(), Some("ERROR"));
    assert!(on_manual_hint_event(&BridgeEvent::Done).hint_status.is_none());
}
