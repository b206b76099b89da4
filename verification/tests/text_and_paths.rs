use iris::paths::{
    alpha_model_path, alpha_models_dir, bridge_script, corridor_models_dir, corridor_src_dir,
    input_dir, internal_dir, meta_path_for, models_dir, output_dir, python_binary, python_dir,
    runtime_dir, startup_dirs, venv_dir, venv_pip, venv_python, work_dir_for, IrisPath, Platform,
};
use iris::text::{
    concat2, contains, decimal_string, ends_with, same_text, split_words, starts_with, trim,
    zero_padded_string,
};

#[test]
fn decimal_text_matches_display() {
    assert_eq!(decimal_string(0), "0");
    assert_eq!(decimal_string(7), "7");
    assert_eq!(decimal_string(400), "400");
    assert_eq!(decimal_string(u64::MAX), u64::MAX.to_string());
}

#[test]
fn zero_padding_matches_format() {
    assert_eq!(zero_padded_string(1, 6), "000001");
    assert_eq!(zero_padded_string(123456, 6), "123456");
    assert_eq!(zero_padded_string(1234567, 6), "1234567");
    assert_eq!(zero_padded_string(42, 0), "42");
}

#[test]
fn searches_and_comparisons() {
    assert!(starts_with("Downloading x", "Downloading "));
    assert!(!starts_with("Down", "Downloading"));
    assert!(ends_with("folder/", "/"));
    assert!(contains("2.6 GB)", "GB)"));
    assert!(!contains("2.6 MB)", "GB)"));
    assert!(same_text("abc", "abc"));
    assert!(!same_text("abc", "abd"));
    assert_eq!(concat2("Bad JSON: ", "{"), "Bad JSON: {");
}

#[test]
fn trim_and_words_follow_std() {
    assert_eq!(trim("  True\r\n"), "True");
    assert_eq!(trim("\u{a0}x y\u{3000}"), "x y");
    assert_eq!(trim(" \t "), "");
    let line = "   ━━━━ 1.2/2.6 GB 45.2 MB/s eta 0:00:30  ";
    let expected: Vec<String> = line.split_whitespace().map(|s| s.to_string()).collect();
    assert_eq!(split_words(line), expected);
    assert!(split_words("  ").is_empty());
}

#[test]
fn layout_on_unix() {
    let root = IrisPath::new("/opt/iris");
    let u = Platform::Unix;
    assert_eq!(input_dir(&root).render(u), "/opt/iris/input");
    assert_eq!(output_dir(&root).render(u), "/opt/iris/output");
    assert_eq!(models_dir(&root).render(u), "/opt/iris/models");
    assert_eq!(alpha_models_dir(&root).render(u), "/opt/iris/models/alpha_models");
    assert_eq!(corridor_models_dir(&root).render(u), "/opt/iris/models/key_models");
    assert_eq!(work_dir_for(&root, "shot1").render(u), "/opt/iris/output/shot1");
    assert_eq!(meta_path_for(&root, "shot1").render(u), "/opt/iris/output/shot1/meta.json");
    assert_eq!(runtime_dir(&root).render(u), "/opt/iris/runtime");
    assert_eq!(internal_dir(&root).render(u), "/opt/iris/runtime");
    assert_eq!(bridge_script(&root).render(u), "/opt/iris/runtime/iris_bridge.py");
    assert_eq!(python_dir(&root).render(u), "/opt/iris/runtime/python");
    assert_eq!(venv_dir(&root).render(u), "/opt/iris/runtime/venv");
    assert_eq!(corridor_src_dir(&root).render(u), "/opt/iris/runtime/corridor");
    assert_eq!(venv_python(&root, u).render(u), "/opt/iris/runtime/venv/bin/python3");
    assert_eq!(venv_pip(&root, u).render(u), "/opt/iris/runtime/venv/bin/pip");
    assert_eq!(
        python_binary(&root, u).render(u),
        "/opt/iris/runtime/python/python/bin/python3"
    );
}

#[test]
fn layout_on_windows() {
    let root = IrisPath::new("C:\\Iris");
    let w = Platform::Windows;
    assert_eq!(
        venv_python(&root, w).render(w),
        "C:\\Iris\\runtime\\venv\\Scripts\\python.exe"
    );
    assert_eq!(venv_pip(&root, w).render(w), "C:\\Iris\\runtime\\venv\\Scripts\\pip.exe");
    assert_eq!(
        python_binary(&root, w).render(w),
        "C:\\Iris\\runtime\\python\\python\\python.exe"
    );
}

#[test]
fn render_matches_pathbuf_join() {
    let root = IrisPath::new("/tmp/x/");
    let p = venv_python(&root, Platform::Unix);
    let expected = std::path::PathBuf::from("/tmp/x/")
        .join("runtime")
        .join("venv")
        .join("bin")
        .join("python3");
    assert_eq!(p.render(Platform::Unix), expected.to_string_lossy());
    let empty = IrisPath::new("");
    assert_eq!(input_dir(&empty).render(Platform::Unix), "input");
}

#[test]
fn alpha_model_location() {
    let root = IrisPath::new("/r");
    let u = Platform::Unix;
    assert_eq!(alpha_model_path(&root, "BiRefNet", true).render(u), "/r/models/alpha_models/BiRefNet");
    assert_eq!(alpha_model_path(&root, "gmv", false).render(u), "/r/models/alpha_models/gmv.pth");
}

#[test]
fn startup_folders() {
    let root = IrisPath::new("/r");
    let dirs: Vec<String> = startup_dirs(&root).iter().map(|d| d.render(Platform::Unix)).collect();
    assert_eq!(
        dirs,
        vec![
            "/r/input",
            "/r/output",
            "/r/models/key_models",
            "/r/models/alpha_models",
            "/r/runtime/python",
            "/r/runtime/venv"
        ]
    );
    let p = input_dir(&root);
    assert_eq!(p.root(), "/r");
    assert_eq!(p.depth(), 1);
    assert_eq!(p.part(0), "input");
}
