use iris::footer::{fewer_workers, initial_workers, more_workers, parallel_tone, WorkerTone};
use iris::viewer::{
    frame_file_path, hint_button_label, hint_generating, input_image_path, matte_frame_path,
    mode_buttons, output_image_path, playback_tick, skip_back, skip_forward, step_back,
    step_forward, thumb_path, ViewMode,
};

#[test]
fn mode_labels_and_folders() {
    let labels: Vec<&str> = mode_buttons().iter().map(|m| m.label()).collect();
    assert_eq!(labels, vec!["IN", "FG", "MATTE", "COMP", "PROC"]);
    let dirs: Vec<&str> = mode_buttons().iter().map(|m| m.subdir()).collect();
    assert_eq!(dirs, vec!["Input", "Output/FG", "Output/Matte", "Output/Comp", "Output/Processed"]);
}

#[test]
fn image_paths() {
    assert_eq!(frame_file_path("/w", "Input", 1), "/w/Input/frame_000001.png");
    assert_eq!(thumb_path("/w"), "/w/thumb.png");
    assert_eq!(input_image_path("/w", 0, 10), "/w/Input/frame_000001.png");
    assert_eq!(input_image_path("/w", 9, 0), "/w/thumb.png");
    assert_eq!(matte_frame_path("/w", 41), "/w/Output/Matte/frame_000042.png");
    assert_eq!(output_image_path("/w", ViewMode::Comp, 2, 10, "", false), "/w/Output/Comp/frame_000003.png");
    assert_eq!(output_image_path("/w", ViewMode::Matte, 2, 10, "/h.png", false), "/h.png");
    assert_eq!(
        output_image_path("/w", ViewMode::Matte, 2, 10, "/h.png", true),
        "/w/Output/Matte/frame_000003.png"
    );
    assert_eq!(output_image_path("/w", ViewMode::Matte, 2, 10, "", true), "/w/Output/Matte/frame_000003.png");
    assert_eq!(output_image_path("/w", ViewMode::Fg, 2, 0, "/h.png", true), "/w/thumb.png");
}

#[test]
fn hint_button() {
    assert_eq!(hint_button_label("GENERATING..."), "GENERATING HINT...");
    assert_eq!(hint_button_label("✓ HINT SET"), "HINT SET — CLICK TO UPDATE");
    assert_eq!(hint_button_label(""), "USE AS ALPHA HINT →");
    assert_eq!(hint_button_label("ERROR"), "USE AS ALPHA HINT →");
    assert!(hint_generating("GENERATING..."));
    assert!(!hint_generating("ERROR"));
}

#[test]
fn transport_moves() {
    assert_eq!(skip_back(25), 15);
    assert_eq!(skip_back(4), 0);
    assert_eq!(step_back(0), 0);
    assert_eq!(step_back(3), 2);
    assert_eq!(step_forward(3, 10), 4);
    assert_eq!(step_forward(9, 10), 9);
    assert_eq!(step_forward(0, 0), 0);
    assert_eq!(skip_forward(3, 10), 9);
    assert_eq!(skip_forward(3, 100), 13);
    // Stepping forward then back returns to the frame.
    assert_eq!(step_back(step_forward(5, 10)), 5);
}

#[test]
fn playback_ticks() {
    assert_eq!(playback_tick(false, 3, 10), (false, 3));
    assert_eq!(playback_tick(true, 3, 0), (true, 3));
    assert_eq!(playback_tick(true, 3, 10), (true, 4));
    assert_eq!(playback_tick(true, 9, 10), (false, 9));
    assert_eq!(playback_tick(true, 50, 10), (false, 9));
    // A played clip never leaves its frames.
    let (mut playing, mut frame) = (true, 0u32);
    for _ in 0..25 {
        let (p, f) = playback_tick(playing, frame, 10);
        assert!(f < 10);
        playing = p;
        frame = f;
    }
}

#[test]
fn worker_control() {
    assert_eq!(initial_workers(), (1, 1, 2));
    assert_eq!(parallel_tone(1, 1, 2), WorkerTone::Success);
    assert_eq!(parallel_tone(2, 1, 2), WorkerTone::Warning);
    assert_eq!(parallel_tone(3, 1, 2), WorkerTone::Error);
    assert_eq!(fewer_workers(1), 1);
    assert_eq!(fewer_workers(3), 2);
    assert_eq!(more_workers(2, 2), 3);
    assert_eq!(more_workers(3, 2), 3);
    let mut v = 1;
    for _ in 0..10 {
        v = more_workers(v, 4);
        assert!(v >= 1 && v <= 5);
    }
    assert_eq!(v, 5);
}
