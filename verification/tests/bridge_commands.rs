use iris::bridge::{
    alpha_command, alpha_model_arg, bridge_command, export_command, extract_command,
    gpu_info_command, hint_command, infer_command, preview_command, preview_request_line,
    preview_server_command, BridgeCommand, InferParams,
};
use iris::paths::{IrisPath, Platform};

fn env_of(c: &BridgeCommand) -> Vec<(String, String)> {
    c.env.clone()
}

fn offline() -> Vec<(String, String)> {
    vec![
        ("TRANSFORMERS_OFFLINE".to_string(), "1".to_string()),
        ("HF_HUB_OFFLINE".to_string(), "1".to_string()),
        ("HF_HUB_DISABLE_SYMLINKS_WARNING".to_string(), "1".to_string()),
    ]
}

fn params() -> InferParams {
    InferParams {
        despill: "0.7".to_string(),
        refiner: "1.2".to_string(),
        despeckle: 250,
        workers: 3,
    }
}

#[test]
fn default_params() {
    let p = InferParams::default();
    assert_eq!((p.despill.as_str(), p.refiner.as_str(), p.despeckle, p.workers), ("0.5", "1", 400, 2));
    // The default texts are what f32's Display prints for 0.5 and 1.0.
    assert_eq!(0.5f32.to_string(), p.despill);
    assert_eq!(1.0f32.to_string(), p.refiner);
}

#[test]
fn gpu_info_and_extract() {
    let root = IrisPath::new("/r");
    let c = gpu_info_command(&root, Platform::Unix);
    assert_eq!(c.program, "/r/runtime/venv/bin/python3");
    assert_eq!(c.args, vec!["/r/runtime/iris_bridge.py", "--action", "gpu_info", "--alpha-model", ""]);
    assert_eq!(env_of(&c), offline());
    let c = extract_command(&root, Platform::Unix, "/r/input/a.mp4", "/r/output/a");
    assert_eq!(
        c.args,
        vec![
            "/r/runtime/iris_bridge.py", "--action", "extract", "--input", "/r/input/a.mp4",
            "--work", "/r/output/a", "--alpha-model", ""
        ]
    );
}

#[test]
fn keying_commands() {
    let root = IrisPath::new("/r");
    let c = infer_command(&root, Platform::Unix, "", "/r/output/a", "/m/BiRefNet", &params());
    assert_eq!(
        c.args,
        vec![
            "/r/runtime/iris_bridge.py", "--action", "infer", "--input", "", "--work",
            "/r/output/a", "--ck-src", "/r/runtime/corridor", "--ck-model",
            "/r/models/key_models/CorridorKey_v1.0.pth", "--alpha-model", "/m/BiRefNet",
            "--despill", "0.7", "--refiner", "1.2", "--despeckle", "250", "--workers", "3"
        ]
    );
    let c = alpha_command(&root, Platform::Unix, "clip.mp4", "w", "m", &params());
    assert_eq!(c.args[2], "alpha");
    assert_eq!(c.args.len(), 21);
}

#[test]
fn hint_preview_export_server() {
    let root = IrisPath::new("/r");
    let c = hint_command(&root, Platform::Unix, "w", 17, "m");
    assert_eq!(
        c.args,
        vec!["/r/runtime/iris_bridge.py", "--action", "hint", "--work", "w", "--alpha-model", "m", "--frame", "17"]
    );
    let c = preview_command(&root, Platform::Unix, "w", 5, "m", &params());
    assert_eq!(
        c.args,
        vec![
            "/r/runtime/iris_bridge.py", "--action", "preview", "--work", "w", "--ck-src",
            "/r/runtime/corridor", "--ck-model", "/r/models/key_models/CorridorKey_v1.0.pth",
            "--alpha-model", "m", "--frame", "5", "--despill", "0.7", "--refiner", "1.2",
            "--despeckle", "250", "--workers", "1"
        ]
    );
    let c = export_command(&root, Platform::Unix, "w", "24");
    assert_eq!(
        c.args,
        vec!["/r/runtime/iris_bridge.py", "--action", "export", "--work", "w", "--fps", "24", "--alpha-model", ""]
    );
    let c = preview_server_command(&root, Platform::Unix, "w", "m");
    assert_eq!(
        c.args,
        vec![
            "/r/runtime/iris_bridge.py", "--action", "preview_server", "--work", "w", "--ck-src",
            "/r/runtime/corridor", "--ck-model", "/r/models/key_models/CorridorKey_v1.0.pth",
            "--alpha-model", "m"
        ]
    );
}

#[test]
fn windows_interpreter() {
    let root = IrisPath::new("C:\\Iris");
    let c = bridge_command(&root, Platform::Windows, vec!["--x".to_string()]);
    assert_eq!(c.program, "C:\\Iris\\runtime\\venv\\Scripts\\python.exe");
    assert_eq!(c.args, vec!["C:\\Iris\\runtime\\iris_bridge.py", "--x"]);
}

#[test]
fn preview_request() {
    assert_eq!(
        preview_request_line(3, &InferParams::default()),
        "{\"frame\":3,\"despill\":0.5,\"refiner\":1,\"despeckle\":400}\n"
    );
}

#[test]
fn alpha_model_argument() {
    let root = IrisPath::new("/r");
    assert_eq!(alpha_model_arg(&root, Platform::Unix, &None, true), "");
    assert_eq!(
        alpha_model_arg(&root, Platform::Unix, &Some("BiRefNet".to_string()), true),
        "/r/models/alpha_models/BiRefNet"
    );
    assert_eq!(
        alpha_model_arg(&root, Platform::Unix, &Some("gmv".to_string()), false),
        "/r/models/alpha_models/gmv.pth"
    );
}
