use iris::event::BridgeEvent;
use iris::preview::{Knobs, PreviewState, TickInputs};
use iris::setup::{
    count_completed, current_step, default_steps, finish_step, open_button_label, open_pressed,
    progress_caption, report_step, setup_done, start_step, step_row, update_step, Page,
    SetupStep, StatusTone, StepMark, StepState,
};

#[test]
fn the_eight_steps() {
    let steps: Vec<SetupStep<f32>> = default_steps();
    let titles: Vec<&str> = steps.iter().map(|s| s.title.as_str()).collect();
    assert_eq!(
        titles,
        vec![
            "Python Runtime",
            "Virtual Environment",
            "Backend Packages",
            "GPU Support",
            "FFmpeg",
            "CorridorKey Scripts",
            "CorridorKey Model",
            "BiRefNet Alpha Model"
        ]
    );
    assert!(steps.iter().all(|s| s.state == StepState::Waiting && s.status.is_empty() && s.progress.is_none()));
    assert_eq!(current_step(&steps), "Starting...");
    assert!(!setup_done(&steps));
}

#[test]
fn a_task_runs_and_finishes() {
    let mut steps: Vec<SetupStep<f32>> = default_steps();
    start_step(&mut steps, 3, 0.0);
    assert_eq!(steps[3].state, StepState::Active);
    assert_eq!(steps[3].status, "Starting...");
    assert_eq!(steps[3].progress, Some(0.0));
    assert_eq!(current_step(&steps), "GPU Support");
    report_step(&mut steps, 3, "Downloading CUDA torch...".to_string(), Some(0.4));
    assert_eq!(steps[3].progress, Some(0.4));
    let row = step_row(&steps[3]);
    assert_eq!((row.mark, row.tone, row.show_status, row.show_progress), (StepMark::Spinner, StatusTone::Secondary, true, true));
    finish_step(&mut steps, 3, Err("pip install failed".to_string()), 1.0);
    assert_eq!(steps[3].state, StepState::Failed);
    assert_eq!(steps[3].status, "pip install failed");
    assert_eq!(steps[3].progress, None);
    assert_eq!(steps[3].title, "GPU Support");
    let row = step_row(&steps[3]);
    assert_eq!((row.mark, row.tone, row.show_progress), (StepMark::Cross, StatusTone::Error, false));
    update_step(&mut steps, 0, StepState::Waiting, String::new(), None);
    assert!(!step_row(&steps[0]).show_status);
}

#[test]
fn setup_completes() {
    let mut steps: Vec<SetupStep<f32>> = default_steps();
    for i in 0..steps.len() {
        start_step(&mut steps, i, 0.0);
        finish_step(&mut steps, i, Ok(()), 1.0);
    }
    assert_eq!(count_completed(&steps), 8);
    assert!(setup_done(&steps));
    assert_eq!(current_step(&steps), "Ready to launch");
    assert_eq!(step_row(&steps[0]).mark, StepMark::Check);
    assert_eq!(progress_caption(true), "All done - ready to launch");
    assert_eq!(progress_caption(false), "Setting up your environment");
    assert_eq!(open_button_label(true), "Open Iris ->");
    assert_eq!(open_button_label(false), "Setting up...");
    assert_eq!(open_pressed(true), Some(Page::Main));
    assert_eq!(open_pressed(false), None);
}

fn knobs(despill: f32, frame: u32) -> Knobs {
    Knobs { despill: despill.to_bits(), despeckle: 400f32.to_bits(), refiner: 1f32.to_bits(), frame }
}

fn inputs(enabled: bool, k: Knobs) -> TickInputs {
    TickInputs { enabled, has_work: true, has_hint: true, knobs: k }
}

#[test]
fn live_preview_keeps_one_request_in_flight() {
    let mut s = PreviewState::new(knobs(1.0, 0));
    // Nothing runs while the preview is off.
    let o = s.tick(inputs(false, knobs(1.0, 0)));
    assert!(!o.stop_server && !o.start_server && o.send.is_none());
    // Turning it on starts the server; the values at start are not sent.
    let o = s.tick(inputs(true, knobs(1.0, 0)));
    assert!(o.start_server);
    assert_eq!(o.status.as_deref(), Some("Loading preview server..."));
    assert!(o.send.is_none());
    assert_eq!(s.on_event(&BridgeEvent::ServerReady).status.as_deref(), Some("Preview server ready"));
    // A change is sent at once.
    let o = s.tick(inputs(true, knobs(0.8, 0)));
    assert_eq!(o.send, Some(knobs(0.8, 0)));
    assert_eq!(o.status.as_deref(), Some("Preview frame 1..."));
    // Changes while busy are parked; the newest wins.
    assert!(s.tick(inputs(true, knobs(0.6, 0))).send.is_none());
    assert!(s.tick(inputs(true, knobs(0.6, 7))).send.is_none());
    assert_eq!(s.pending, Some(knobs(0.6, 7)));
    // Done sends the parked change.
    let o = s.on_event(&BridgeEvent::Done);
    assert_eq!(o.send, Some(knobs(0.6, 7)));
    assert_eq!(o.status.as_deref(), Some("Preview ready"));
    assert!(s.processing && s.pending.is_none());
    // An error ends the request.
    let o = s.on_event(&BridgeEvent::Error("bad".to_string()));
    assert_eq!(o.status.as_deref(), Some("Preview error: bad"));
    assert!(!s.processing);
    // No change, nothing sent.
    assert!(s.tick(inputs(true, knobs(0.6, 7))).send.is_none());
    // Turning off drops the server.
    let o = s.tick(inputs(false, knobs(0.6, 7)));
    assert!(o.stop_server);
    assert_eq!(o.status.as_deref(), Some("Live preview off"));
    assert!(!s.server_running);
}

#[test]
fn live_preview_waits_for_a_clip_and_hint() {
    let mut s = PreviewState::new(knobs(1.0, 0));
    let o = s.tick(TickInputs { enabled: true, has_work: true, has_hint: false, knobs: knobs(2.0, 3) });
    assert!(!o.start_server && o.send.is_none() && o.status.is_none());
    assert!(!s.server_running);
}

#[test]
fn sliders_compare_as_floats() {
    assert!(iris::preview::same_float(0.0f32.to_bits(), (-0.0f32).to_bits()));
    assert!(!iris::preview::same_float(f32::NAN.to_bits(), f32::NAN.to_bits()));
    assert!(!iris::preview::same_float(0.5f32.to_bits(), 0.25f32.to_bits()));
    let mut s = PreviewState::new(knobs(0.0, 0));
    assert!(s.tick(inputs(true, knobs(0.0, 0))).send.is_none());
    // Moving between the two zeros is no change.
    assert!(s.tick(inputs(true, knobs(-0.0, 0))).send.is_none());
    // A NaN is a change on every tick.
    let o = s.tick(inputs(true, knobs(f32::NAN, 0)));
    assert!(o.send.is_some());
    s.on_event(&BridgeEvent::Done);
    assert!(s.tick(inputs(true, knobs(f32::NAN, 0))).send.is_some());
}
