use iris::names::{extension_of, stem_of};
use iris::order::{sort_names, text_le_exec};
use iris::paths::{IrisPath, Platform};
use iris::queue::{
    add_clip, badge_color_of, becomes_active, clip_probe, count_png_frames, read_meta,
    restore_status, restore_update, thumbnail_command_args, video_extension_list, write_meta,
    BadgeColor, ClipStatus,
};
use iris::viewer::ViewMode;

#[test]
fn stems_and_extensions_follow_path() {
    for name in ["clip.mp4", ".hidden", "archive.tar.gz", "noext", "..", "a.", ".a.b", "x.PNG"] {
        let p = std::path::Path::new(name);
        let stem = p.file_stem().map(|s| s.to_string_lossy().to_string()).unwrap_or_default();
        let ext = p.extension().map(|s| s.to_string_lossy().to_string());
        if name != ".." {
            assert_eq!(stem_of(name), stem, "stem of {}", name);
        }
        assert_eq!(extension_of(name), ext, "extension of {}", name);
    }
    assert_eq!(stem_of(".."), "..");
}

#[test]
fn badges() {
    let labels: Vec<&str> = [
        ClipStatus::Extract,
        ClipStatus::Raw,
        ClipStatus::Alpha,
        ClipStatus::Ready,
        ClipStatus::Done,
        ClipStatus::Error,
    ]
    .iter()
    .map(|s| s.label())
    .collect();
    assert_eq!(labels, vec!["EXTRACT", "RAW", "ALPHA", "READY", "DONE", "ERROR"]);
    assert_eq!(badge_color_of(ClipStatus::Alpha), BadgeColor::Blue);
    assert_eq!(badge_color_of(ClipStatus::Ready), BadgeColor::Gold);
    assert_eq!(badge_color_of(ClipStatus::Done), BadgeColor::Success);
}

#[test]
fn counting_frames() {
    let names: Vec<String> = ["frame_000001.png", "frame_000002.png", "thumb.jpg", ".png", "notes", "a.png.bak"]
        .iter()
        .map(|s| s.to_string())
        .collect();
    assert_eq!(count_png_frames(&names), 2);
    assert_eq!(count_png_frames(&Vec::new()), 0);
}

#[test]
fn restored_badges() {
    assert_eq!(restore_status(true, true), ClipStatus::Done);
    assert_eq!(restore_status(false, true), ClipStatus::Ready);
    assert_eq!(restore_status(false, false), ClipStatus::Raw);
}

#[test]
fn meta_files() {
    let text = write_meta("shot \"1\".mp4", "/r/input/shot \"1\".mp4");
    assert_eq!(text, "{\n  \"filename\": \"shot \\\"1\\\".mp4\",\n  \"path\": \"/r/input/shot \\\"1\\\".mp4\"\n}");
    assert_eq!(
        read_meta(&text),
        Some(("shot \"1\".mp4".to_string(), "/r/input/shot \"1\".mp4".to_string()))
    );
    assert_eq!(read_meta("{\"filename\":\"a.mp4\"}"), Some(("a.mp4".to_string(), String::new())));
    assert_eq!(read_meta("{\"filename\":\"\",\"path\":\"p\"}"), None);
    assert_eq!(read_meta("{\"path\":\"p\"}"), None);
    assert_eq!(read_meta("garbage"), None);
}

#[test]
fn adding_a_clip() {
    let root = IrisPath::new("/r");
    let c = add_clip(&root, Platform::Unix, "shot1.mov");
    assert_eq!(c.name, "shot1.mov");
    assert_eq!(c.stem, "shot1");
    assert_eq!(c.work_dir, "/r/output/shot1");
    assert_eq!(c.stored_path, "/r/input/shot1.mov");
    assert_eq!(c.meta_path.render(Platform::Unix), "/r/output/shot1/meta.json");
    assert_eq!(c.thumb, "/r/output/shot1/thumb.png");
    assert_eq!(read_meta(&c.meta), Some(("shot1.mov".to_string(), "/r/input/shot1.mov".to_string())));
    assert_eq!(
        thumbnail_command_args(&c.stored_path, &c.thumb),
        vec!["-i", "/r/input/shot1.mov", "-frames:v", "1", "-q:v", "2", "/r/output/shot1/thumb.png", "-y"]
    );
    assert_eq!(video_extension_list(), vec!["mp4", "mov", "avi", "mkv", "webm"]);
    assert!(becomes_active(""));
    assert!(!becomes_active("/r/output/other"));
}

#[test]
fn restoring_the_first_clip() {
    let u = restore_update("", "/r/output/a", 12, Some("/r/output/a/AlphaHint/alpha_hint.png".to_string()));
    assert_eq!(u.active_work_dir.as_deref(), Some("/r/output/a"));
    assert_eq!(u.total_frames, Some(12));
    assert_eq!(u.hint_status.as_deref(), Some("✓ HINT SET"));
    assert_eq!(u.view_mode, Some(ViewMode::Matte));
    let u = restore_update("", "/r/output/a", 12, None);
    assert!(u.hint_path.is_none() && u.view_mode.is_none());
    let u = restore_update("/r/output/b", "/r/output/a", 12, None);
    assert!(u.active_work_dir.is_none() && u.total_frames.is_none());
    let probe = clip_probe(&IrisPath::new("/r").join("output").join("a"));
    assert_eq!(probe.matte_dir.render(Platform::Unix), "/r/output/a/Output/Matte");
    assert_eq!(probe.hint_file.render(Platform::Unix), "/r/output/a/AlphaHint/alpha_hint.png");
    assert_eq!(probe.input_dir.render(Platform::Unix), "/r/output/a/Input");
    assert_eq!(probe.thumb.render(Platform::Unix), "/r/output/a/thumb.png");
}

#[test]
fn sorting_folder_names() {
    let names: Vec<String> = ["shot10", "Shot2", "shot1", "b", "shot1", "ä", "a"].iter().map(|s| s.to_string()).collect();
    let mut expected = names.clone();
    expected.sort();
    assert_eq!(sort_names(&names), expected);
    assert!(text_le_exec("abc", "abd"));
    assert!(text_le_exec("ab", "abc"));
    assert!(!text_le_exec("b", "abc"));
    assert!(text_le_exec("", ""));
}
