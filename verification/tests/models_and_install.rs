use iris::download::{
    birefnet_downloads, birefnet_weights, corridor_download, corridor_scripts_probe,
    corridor_scripts_url, download_attempts, download_ready, download_started,
    model_file_complete, platform_tag, python_download_url, python_messages,
    python_retry_report, server_refused, zip_entry_target, Target,
};
use iris::install::{
    create, create_env, cuda_reported, detect_vendor_linux, detect_vendor_windows,
    ensure_gpu_torch_plan, ffmpeg_path_from_output, ffmpeg_probe_args, gpu_check_action,
    gpu_probe, gpu_probe_args, install_ffmpeg, install_packages, install_uv, interpreters,
    torch_install_plan, GpuProbe, GpuVendor, SetupAction,
};
use iris::models::{
    after_download, alpha_model_option, available_alpha_models, download_label, initial_method,
    model_count_label, model_download_files, model_names, needs_download, rescan,
};
use iris::paths::{IrisPath, Platform};
use iris::pip::{parse_pip_line, pip_download_message, pip_failure};

fn strings(v: &[&str]) -> Vec<String> {
    v.iter().map(|s| s.to_string()).collect()
}

fn describe(plan: &[SetupAction]) -> Vec<String> {
    plan.iter()
        .map(|a| match a {
            SetupAction::Report { message, percent } => format!("report {} {}", percent, message),
            SetupAction::Run { program, args, streamed } => {
                format!("run{} {} {}", if *streamed { "*" } else { "" }, program, args.join(" "))
            }
        })
        .collect()
}

#[test]
fn alpha_model_downloads() {
    let models = available_alpha_models();
    assert_eq!(models.len(), 4);
    assert_eq!(models[1].0, "GMV Auto");
    let installed = strings(&["BiRefNet"]);
    assert!(!needs_download(&Some("BiRefNet".to_string()), &installed));
    assert!(needs_download(&Some("VideoMaMa".to_string()), &installed));
    assert!(!needs_download(&Some("custom".to_string()), &installed));
    assert!(!needs_download(&None, &installed));
    assert_eq!(download_label("VideoMaMa"), "↓ Download VideoMaMa");
    let files = model_download_files("VideoMaMa");
    assert_eq!(files[0], ("config.json".to_string(), "https://huggingface.co/ZhengPeng7/VideoMaMa/resolve/main/config.json".to_string()));
    assert_eq!(files[1].0, "pytorch_model.bin");
    let mut list = strings(&["BiRefNet"]);
    let sel = after_download(&mut list, "VideoMaMa");
    assert_eq!(list, strings(&["BiRefNet", "VideoMaMa"]));
    assert_eq!(sel.as_deref(), Some("VideoMaMa"));
}

#[test]
fn alpha_model_folder_entries() {
    assert_eq!(alpha_model_option("BiRefNet", true).as_deref(), Some("BiRefNet"));
    assert_eq!(alpha_model_option("gmv.pth", false).as_deref(), Some("gmv"));
    assert_eq!(alpha_model_option("notes.txt", false), None);
    assert_eq!(alpha_model_option(".cache", true), None);
    assert_eq!(alpha_model_option("CACHEDIR.TAG", false), None);
    assert_eq!(alpha_model_option("models--x", true), None);
    assert_eq!(initial_method(&strings(&["a", "b"])).as_deref(), Some("a"));
    assert_eq!(initial_method(&Vec::new()), None);
}

#[test]
fn model_selector_rescans() {
    assert_eq!(model_names(&strings(&["CorridorKey_v1.0.pth", "other.ckpt"])), strings(&["CorridorKey_v1.0", "other"]));
    let r = rescan(strings(&["a"]), &strings(&["a"]), true);
    assert!(r.options.is_none() && r.select.is_none());
    let r = rescan(strings(&["a", "b"]), &strings(&["a"]), true);
    assert_eq!(r.options, Some(strings(&["a", "b"])));
    assert_eq!(r.select.as_deref(), Some("a"));
    let r = rescan(strings(&["b"]), &strings(&["a"]), false);
    assert!(r.select.is_none());
    let r = rescan(Vec::new(), &strings(&["a"]), true);
    assert_eq!(r.options, Some(Vec::new()));
    assert!(r.select.is_none());
    assert_eq!(model_count_label(0), "No models found");
    assert_eq!(model_count_label(3), "3 models available");
}

#[test]
fn gpu_vendors() {
    assert_eq!(detect_vendor_windows(Some("NVIDIA GeForce RTX 4090")), GpuVendor::Nvidia);
    assert_eq!(detect_vendor_windows(Some("AMD Radeon RX 7900")), GpuVendor::Amd);
    assert_eq!(detect_vendor_windows(Some("Intel(R) Arc(TM) A770")), GpuVendor::Intel);
    assert_eq!(detect_vendor_windows(Some("Intel(R) UHD Graphics")), GpuVendor::Unknown);
    assert_eq!(detect_vendor_windows(None), GpuVendor::Unknown);
    assert_eq!(detect_vendor_linux(true, None), GpuVendor::Nvidia);
    assert_eq!(detect_vendor_linux(false, Some("VGA: Advanced Micro Devices [AMD/ATI]")), GpuVendor::Amd);
    assert_eq!(detect_vendor_linux(false, Some("VGA compatible controller: Intel Corporation")), GpuVendor::Intel);
    assert_eq!(detect_vendor_linux(false, Some("VGA: Matrox")), GpuVendor::Unknown);
    assert_eq!(gpu_probe(GpuVendor::Nvidia), Some(GpuProbe::Cuda));
    assert_eq!(gpu_probe(GpuVendor::Intel), Some(GpuProbe::DirectMl));
    assert_eq!(gpu_probe(GpuVendor::Unknown), None);
    assert_eq!(gpu_probe_args(GpuProbe::DirectMl), strings(&["-c", "import torch_directml"]));
    assert!(cuda_reported("True\n"));
    assert!(!cuda_reported("False\n"));
    assert_eq!(ffmpeg_probe_args()[1], "import imageio_ffmpeg; print(imageio_ffmpeg.get_ffmpeg_exe())");
    assert_eq!(ffmpeg_path_from_output("/x/ffmpeg\n"), "/x/ffmpeg");
}

#[test]
fn install_plans() {
    let i = interpreters(&IrisPath::new("/r"), Platform::Unix);
    assert_eq!(i.base, "/r/runtime/python/python/bin/python3");
    assert_eq!(i.venv_python, "/r/runtime/venv/bin/python3");
    assert_eq!(i.venv, "/r/runtime/venv");
    assert_eq!(describe(&create_env(&i, true)), vec!["report 100 Already exists"]);
    assert_eq!(
        describe(&create_env(&i, false)),
        vec![
            "report 0 Creating virtual environment...",
            "run /r/runtime/python/python/bin/python3 -m venv /r/runtime/venv",
            "report 100 Done"
        ]
    );
    let py = "/py";
    assert_eq!(
        describe(&torch_install_plan(py, GpuVendor::Amd)),
        vec![
            "report 50 Installing PyTorch + DirectML (AMD)...",
            "run /py -m uv pip install torch torchvision --quiet",
            "run /py -m pip install torch-directml --quiet"
        ]
    );
    let plan = describe(&install_packages(py, GpuVendor::Nvidia));
    assert_eq!(plan.len(), 8);
    assert_eq!(plan[2], "report 20 Detected GPU: nvidia — installing PyTorch...");
    assert_eq!(plan[4], "run* /py -m pip install torch torchvision --index-url https://download.pytorch.org/whl/cu124 --progress-bar on");
    assert_eq!(describe(&install_uv(py)), vec!["report 0 Installing uv...", "run /py -m pip install uv --quiet", "report 100 Done"]);
    assert_eq!(describe(&install_ffmpeg(py))[1], "run /py -m uv pip install safetensors torch torchvision opencv-python numpy Pillow kornia imageio-ffmpeg transformers --quiet einops timm setuptools");
    let plan = describe(&create(&i, GpuVendor::Unknown, false));
    assert_eq!(plan.len(), 12);
    assert_eq!(plan[5], "report 50 Installing PyTorch (CPU)...");
    assert_eq!(plan[11], "report 100 Environment ready");
    assert_eq!(describe(&create(&i, GpuVendor::Unknown, true)), vec!["report 100 Environment ready".replace("Environment ready", "Environment already ready")]);
}

#[test]
fn gpu_task_plans() {
    assert_eq!(describe(&[gpu_check_action(GpuVendor::Intel)]), vec!["report 0 Checking GPU support (detected: intel)..."]);
    assert_eq!(describe(&ensure_gpu_torch_plan("/py", GpuVendor::Nvidia, true)), vec!["report 100 CUDA torch already installed."]);
    assert_eq!(
        describe(&ensure_gpu_torch_plan("/py", GpuVendor::Nvidia, false)),
        vec![
            "report 0 Downloading CUDA torch for NVIDIA GPU...",
            "run* /py -m pip install torch torchvision --index-url https://download.pytorch.org/whl/cu124 --force-reinstall --progress-bar on",
            "report 100 CUDA torch installed."
        ]
    );
    assert_eq!(
        describe(&ensure_gpu_torch_plan("/py", GpuVendor::Intel, false))[0],
        "report 20 Installing torch-directml for INTEL GPU..."
    );
    assert_eq!(describe(&ensure_gpu_torch_plan("/py", GpuVendor::Unknown, false)), vec!["report 100 No dedicated GPU detected — using CPU."]);
}

#[test]
fn pip_progress_lines() {
    let l = parse_pip_line("  Downloading torch-2.4.0-cp311-cp311-win_amd64.whl (2.6 GB)");
    assert_eq!(l.total_text.as_deref(), Some("2.6"));
    assert!(!l.is_progress);
    let l = parse_pip_line("   ━━━━━━━━━━ 1.2/2.6 GB 45.2 MB/s eta 0:00:30");
    assert!(l.is_progress);
    assert_eq!(l.total_text, None);
    assert_eq!(l.ratios, vec![("1.2".to_string(), "2.6".to_string()), ("MB".to_string(), "s".to_string())]);
    assert_eq!(l.speed.as_deref(), Some("45.2 MB/s"));
    let l = parse_pip_line("MB/s 3/4");
    assert_eq!(l.speed, None);
    assert_eq!(l.ratios.len(), 2);
    let l = parse_pip_line("Collecting torch");
    assert!(!l.is_progress && l.total_text.is_none() && l.ratios.is_empty());
    assert_eq!(pip_download_message(Some(("1.2", "2.6")), Some("45.2 MB/s")), "Downloading CUDA torch... 1.2/2.6 GB  @ 45.2 MB/s");
    assert_eq!(pip_download_message(Some(("1.2", "2.6")), None), "Downloading CUDA torch... 1.2/2.6 GB");
    assert_eq!(pip_download_message(None, Some("1 GB/s")), "Downloading CUDA torch... @ 1 GB/s");
    assert_eq!(pip_download_message(None, None), "Downloading CUDA torch...");
    assert_eq!(pip_failure(), "pip install failed");
}

#[test]
fn downloads() {
    assert_eq!(platform_tag(Target::LinuxX64), "x86_64-unknown-linux-gnu");
    assert_eq!(
        python_download_url(Target::MacArm64),
        "https://github.com/indygreg/python-build-standalone/releases/download/20240713/cpython-3.11.9%2B20240713-aarch64-apple-darwin-install_only.tar.gz"
    );
    assert_eq!(download_attempts(), 3);
    assert_eq!(python_retry_report(0), None);
    assert_eq!(python_retry_report(2).as_deref(), Some("Retrying Python download (attempt 3)..."));
    assert_eq!(python_messages().1, "Downloading Python 3.11.9...");
    assert!(!model_file_complete(100 * 1024 * 1024));
    assert!(model_file_complete(100 * 1024 * 1024 + 1));
    let root = IrisPath::new("/r");
    let c = corridor_download(&root);
    assert_eq!(c.dest.render(Platform::Unix), "/r/models/key_models/CorridorKey_v1.0.pth");
    assert_eq!(c.label, "CorridorKey model");
    let b = birefnet_downloads(&root);
    assert_eq!(b.len(), 4);
    assert_eq!(b[0].url, "https://huggingface.co/ZhengPeng7/BiRefNet/resolve/main/birefnet.py");
    assert_eq!(b[3].label, "BiRefNet weights");
    assert_eq!(b[3].dest.render(Platform::Unix), "/r/models/alpha_models/BiRefNet/model.safetensors");
    assert_eq!(birefnet_weights(&root).render(Platform::Unix), "/r/models/alpha_models/BiRefNet/model.safetensors");
    assert_eq!(download_started("x"), "Downloading x...");
    assert_eq!(download_ready("x"), "x ready");
    assert_eq!(server_refused("404 Not Found", "x"), "Server returned 404 Not Found for x");
    assert!(corridor_scripts_url().ends_with("main.zip"));
    let (a, b) = corridor_scripts_probe(&root);
    assert_eq!(a.render(Platform::Unix), "/r/runtime/corridor/CorridorKeyModule/inference_engine.py");
    assert_eq!(b.render(Platform::Unix), "/r/runtime/corridor/CorridorKeyModule/core/model_transformer.py");
}

#[test]
fn scripts_archive_entries() {
    assert_eq!(zip_entry_target("CorridorKey-main/CorridorKeyModule/"), None);
    assert_eq!(zip_entry_target("CorridorKey-main/README.md"), None);
    assert_eq!(
        zip_entry_target("CorridorKey-main/CorridorKeyModule/core/"),
        Some(("core/".to_string(), true))
    );
    assert_eq!(
        zip_entry_target("CorridorKey-main/CorridorKeyModule/core/model_transformer.py"),
        Some(("core/model_transformer.py".to_string(), false))
    );
}
