//! First-run installation: what each setup task runs, in order, and what it
//! reports on the way.
//!
//! A task is a plan: a list of actions that the host carries out in order.
//! A `Report` shows a message and a progress percentage on the task's row;
//! a `Run` starts a program and waits for it, and the task stops with that
//! program's error if it fails.  Which GPU the machine has, and what the
//! probes for an existing install answered, are inputs.
use vstd::prelude::*;
use crate::paths::{IrisPath, PathView, Platform, python_binary, rendered, venv_dir, venv_python};
use crate::text::{concat3, has_infix, owned, contains, same_text};

verus! {

// ---------------------------------------------------------------------------
// The GPU
// ---------------------------------------------------------------------------

/// The GPU vendor, which decides the PyTorch build.
#[derive(Clone, Copy, Debug, PartialEq, Eq, Structural)]
pub enum GpuVendor {
    Nvidia,
    Amd,
    Intel,
    Unknown,
}

/// The vendor's name in messages.
pub open spec fn vendor_name(v: GpuVendor) -> Seq<char> {
    match v {
        GpuVendor::Nvidia => "nvidia"@,
        GpuVendor::Amd => "amd"@,
        GpuVendor::Intel => "intel"@,
        GpuVendor::Unknown => "unknown"@,
    }
}

/// The vendor's name in capitals (as `str::to_uppercase` gives it).
pub open spec fn vendor_upper(v: GpuVendor) -> Seq<char> {
    match v {
        GpuVendor::Nvidia => "NVIDIA"@,
        GpuVendor::Amd => "AMD"@,
        GpuVendor::Intel => "INTEL"@,
        GpuVendor::Unknown => "UNKNOWN"@,
    }
}

impl GpuVendor {
    /// The vendor's name.
    pub fn name(&self) -> (r: &'static str)
        ensures
            r@ == vendor_name(*self),
    {
        match self {
            GpuVendor::Nvidia => "nvidia",
            GpuVendor::Amd => "amd",
            GpuVendor::Intel => "intel",
            GpuVendor::Unknown => "unknown",
        }
    }

    /// The vendor's name in capitals.
    pub fn upper_name(&self) -> (r: &'static str)
        ensures
            r@ == vendor_upper(*self),
    {
        match self {
            GpuVendor::Nvidia => "NVIDIA",
            GpuVendor::Amd => "AMD",
            GpuVendor::Intel => "INTEL",
            GpuVendor::Unknown => "UNKNOWN",
        }
    }
}

/// What `str::to_lowercase` returns for `s`.
pub uninterp spec fn lowercase(s: Seq<char>) -> Seq<char>;

/// `str::to_lowercase`.
#[verifier::external_body]
fn to_lowercase(s: &str) -> (r: String)
    ensures
        r@ == lowercase(s@),
{
    s.to_lowercase()
}

/// The vendor named by a Windows video controller caption (already in lower
/// case): NVIDIA for nvidia/geforce/quadro, AMD for amd/radeon, Intel for an
/// Arc or Iris Xe part, unknown otherwise.
pub open spec fn vendor_of_caption(lower: Seq<char>) -> GpuVendor {
    if has_infix(lower, "nvidia"@) || has_infix(lower, "geforce"@) || has_infix(lower, "quadro"@) {
        GpuVendor::Nvidia
    } else if has_infix(lower, "amd"@) || has_infix(lower, "radeon"@) {
        GpuVendor::Amd
    } else if has_infix(lower, "intel"@) && (has_infix(lower, "arc"@) || has_infix(
        lower,
        "iris xe"@,
    )) {
        GpuVendor::Intel
    } else {
        GpuVendor::Unknown
    }
}

/// The vendor on Windows, from the caption of the first video controller
/// that is not a virtual one (`None` when the query failed).
pub fn detect_vendor_windows(caption: Option<&str>) -> (r: GpuVendor)
    ensures
        r == match caption {
            Some(c) => vendor_of_caption(lowercase(c@)),
            None => GpuVendor::Unknown,
        },
{
    match caption {
        Some(c) => {
            let lower = to_lowercase(c);
            let l = lower.as_str();
            if contains(l, "nvidia") || contains(l, "geforce") || contains(l, "quadro") {
                GpuVendor::Nvidia
            } else if contains(l, "amd") || contains(l, "radeon") {
                GpuVendor::Amd
            } else if contains(l, "intel") && (contains(l, "arc") || contains(l, "iris xe")) {
                GpuVendor::Intel
            } else {
                GpuVendor::Unknown
            }
        },
        None => GpuVendor::Unknown,
    }
}

/// The vendor on Linux: NVIDIA when `nvidia-smi` succeeds, else from the
/// `lspci` listing (already in lower case): AMD for amd/radeon, Intel for
/// intel, unknown otherwise.
pub open spec fn vendor_of_linux(nvidia_smi_ok: bool, lspci: Option<Seq<char>>) -> GpuVendor {
    if nvidia_smi_ok {
        GpuVendor::Nvidia
    } else {
        match lspci {
            Some(t) => if has_infix(t, "amd"@) || has_infix(t, "radeon"@) {
                GpuVendor::Amd
            } else if has_infix(t, "intel"@) {
                GpuVendor::Intel
            } else {
                GpuVendor::Unknown
            },
            None => GpuVendor::Unknown,
        }
    }
}

/// The vendor on Linux, from whether `nvidia-smi` ran successfully and the
/// `lspci` listing (`None` when it could not be run).
pub fn detect_vendor_linux(nvidia_smi_ok: bool, lspci: Option<&str>) -> (r: GpuVendor)
    ensures
        r == vendor_of_linux(
            nvidia_smi_ok,
            match lspci {
                Some(t) => Some(lowercase(t@)),
                None => None,
            },
        ),
{
    if nvidia_smi_ok {
        return GpuVendor::Nvidia;
    }
    match lspci {
        Some(t) => {
            let lower = to_lowercase(t);
            let l = lower.as_str();
            if contains(l, "amd") || contains(l, "radeon") {
                GpuVendor::Amd
            } else if contains(l, "intel") {
                GpuVendor::Intel
            } else {
                GpuVendor::Unknown
            }
        },
        None => GpuVendor::Unknown,
    }
}

/// Which probe tells whether GPU support is already installed.
#[derive(Clone, Copy, Debug, PartialEq, Eq, Structural)]
pub enum GpuProbe {
    /// `import torch; print(torch.cuda.is_available())` prints `True`.
    Cuda,
    /// `import torch_directml` succeeds.
    DirectMl,
}

/// The probe for a vendor: CUDA for NVIDIA, DirectML for AMD and Intel.
pub fn gpu_probe(v: GpuVendor) -> (r: Option<GpuProbe>)
    ensures
        r == match v {
            GpuVendor::Nvidia => Some(GpuProbe::Cuda),
            GpuVendor::Amd | GpuVendor::Intel => Some(GpuProbe::DirectMl),
            GpuVendor::Unknown => None::<GpuProbe>,
        },
{
    match v {
        GpuVendor::Nvidia => Some(GpuProbe::Cuda),
        GpuVendor::Amd | GpuVendor::Intel => Some(GpuProbe::DirectMl),
        GpuVendor::Unknown => None,
    }
}

/// The Python one-liners of the probes, in the venv interpreter's `-c`.
pub fn gpu_probe_args(p: GpuProbe) -> (r: Vec<String>)
    ensures
        r.deep_view() == match p {
            GpuProbe::Cuda => seq!["-c"@, "import torch; print(torch.cuda.is_available())"@],
            GpuProbe::DirectMl => seq!["-c"@, "import torch_directml"@],
        },
{
    let r = match p {
        GpuProbe::Cuda => vec![owned("-c"), owned("import torch; print(torch.cuda.is_available())")],
        GpuProbe::DirectMl => vec![owned("-c"), owned("import torch_directml")],
    };
    proof {
        match p {
            GpuProbe::Cuda => assert(r.deep_view() =~= seq![
                "-c"@,
                "import torch; print(torch.cuda.is_available())"@,
            ]),
            GpuProbe::DirectMl => assert(r.deep_view() =~= seq!["-c"@, "import torch_directml"@]),
        }
    }
    r
}

// ---------------------------------------------------------------------------
// Plans
// ---------------------------------------------------------------------------

/// One step of an installation task.
pub enum SetupAction {
    /// Show `message` on the task's row, with the bar at `percent` %.
    Report { message: String, percent: u32 },
    /// Run `program` with `args` and wait; with `streamed`, pip's download
    /// progress is followed on the row while it runs.
    Run { program: String, args: Vec<String>, streamed: bool },
}

/// The mathematical form of a setup action.
pub enum ActionView {
    Report { message: Seq<char>, percent: u32 },
    Run { program: Seq<char>, args: Seq<Seq<char>>, streamed: bool },
}

impl View for SetupAction {
    type V = ActionView;

    open spec fn view(&self) -> ActionView {
        match self {
            SetupAction::Report { message, percent } => ActionView::Report {
                message: message@,
                percent: *percent,
            },
            SetupAction::Run { program, args, streamed } => ActionView::Run {
                program: program@,
                args: args.deep_view(),
                streamed: *streamed,
            },
        }
    }
}

/// A plan in mathematical form.
pub open spec fn plan_view(p: Seq<SetupAction>) -> Seq<ActionView> {
    p.map_values(|a: SetupAction| a@)
}

/// A report.
pub open spec fn report(message: Seq<char>, percent: u32) -> ActionView {
    ActionView::Report { message, percent }
}

/// A run that is waited for without following its output.
pub open spec fn run(program: Seq<char>, args: Seq<Seq<char>>) -> ActionView {
    ActionView::Run { program, args, streamed: false }
}

/// A run whose download progress is followed.
pub open spec fn run_streamed(program: Seq<char>, args: Seq<Seq<char>>) -> ActionView {
    ActionView::Run { program, args, streamed: true }
}

/// The venv interpreter's text.
pub open spec fn venv_py(iris: PathView, platform: Platform) -> Seq<char> {
    rendered(platform, crate::bridge::venv_python_view(iris, platform))
}

/// `pip install uv`.
pub open spec fn uv_args() -> Seq<Seq<char>> {
    seq!["-m"@, "pip"@, "install"@, "uv"@, "--quiet"@]
}

/// The CUDA build of PyTorch (`force`: reinstall over a CPU build).
pub open spec fn cuda_torch_args(force: bool) -> Seq<Seq<char>> {
    let head = seq![
        "-m"@, "pip"@, "install"@, "torch"@, "torchvision"@,
        "--index-url"@, "https://download.pytorch.org/whl/cu124"@,
    ];
    if force {
        head + seq!["--force-reinstall"@, "--progress-bar"@, "on"@]
    } else {
        head + seq!["--progress-bar"@, "on"@]
    }
}

/// The default PyTorch build through uv.
pub open spec fn uv_torch_args() -> Seq<Seq<char>> {
    seq!["-m"@, "uv"@, "pip"@, "install"@, "torch"@, "torchvision"@, "--quiet"@]
}

/// The DirectML backend.
pub open spec fn directml_args() -> Seq<Seq<char>> {
    seq!["-m"@, "pip"@, "install"@, "torch-directml"@, "--quiet"@]
}

/// `python -m venv <venv>`.
pub open spec fn venv_args(venv: Seq<char>) -> Seq<Seq<char>> {
    seq!["-m"@, "venv"@, venv]
}

/// The PyTorch install for a vendor.
pub open spec fn torch_plan(py: Seq<char>, v: GpuVendor) -> Seq<ActionView> {
    match v {
        GpuVendor::Nvidia => seq![
            report("Installing PyTorch with CUDA (NVIDIA)..."@, 50),
            run_streamed(py, cuda_torch_args(false)),
        ],
        GpuVendor::Amd | GpuVendor::Intel => seq![
            report("Installing PyTorch + DirectML ("@ + vendor_upper(v) + ")..."@, 50),
            run(py, uv_torch_args()),
            run(py, directml_args()),
        ],
        GpuVendor::Unknown => seq![
            report("Installing PyTorch (CPU)..."@, 50),
            run(py, uv_torch_args()),
        ],
    }
}

fn report_action(message: String, percent: u32) -> (r: SetupAction)
    ensures
        r@ == report(message@, percent),
{
    SetupAction::Report { message, percent }
}

fn args_of(items: &[&str]) -> (r: Vec<String>)
    ensures
        r@.len() == items@.len(),
        forall|i: int| 0 <= i < items@.len() ==> #[trigger] r@[i]@ == items@[i]@,
{
    let mut out: Vec<String> = Vec::new();
    let mut i: usize = 0;
    while i < items.len()
        invariant
            i <= items@.len(),
            out@.len() == i,
            forall|j: int| 0 <= j < i ==> #[trigger] out@[j]@ == items@[j]@,
        decreases items@.len() - i,
    {
        out.push(owned(items[i]));
        i = i + 1;
    }
    out
}

fn uv_run(py: &str) -> (r: SetupAction)
    ensures
        r@ == run(py@, uv_args()),
{
    let args = args_of(&["-m", "pip", "install", "uv", "--quiet"]);
    assert(args.deep_view() =~= uv_args());
    SetupAction::Run { program: owned(py), args, streamed: false }
}

fn cuda_run(py: &str, force: bool) -> (r: SetupAction)
    ensures
        r@ == run_streamed(py@, cuda_torch_args(force)),
{
    let args = if force {
        args_of(
            &[
                "-m",
                "pip",
                "install",
                "torch",
                "torchvision",
                "--index-url",
                "https://download.pytorch.org/whl/cu124",
                "--force-reinstall",
                "--progress-bar",
                "on",
            ],
        )
    } else {
        args_of(
            &[
                "-m",
                "pip",
                "install",
                "torch",
                "torchvision",
                "--index-url",
                "https://download.pytorch.org/whl/cu124",
                "--progress-bar",
                "on",
            ],
        )
    };
    assert(args.deep_view() =~= cuda_torch_args(force));
    SetupAction::Run { program: owned(py), args, streamed: true }
}

fn uv_torch_run(py: &str) -> (r: SetupAction)
    ensures
        r@ == run(py@, uv_torch_args()),
{
    let args = args_of(&["-m", "uv", "pip", "install", "torch", "torchvision", "--quiet"]);
    assert(args.deep_view() =~= uv_torch_args());
    SetupAction::Run { program: owned(py), args, streamed: false }
}

fn directml_run(py: &str) -> (r: SetupAction)
    ensures
        r@ == run(py@, directml_args()),
{
    let args = args_of(&["-m", "pip", "install", "torch-directml", "--quiet"]);
    assert(args.deep_view() =~= directml_args());
    SetupAction::Run { program: owned(py), args, streamed: false }
}

/// Appends the actions of `more` to `plan`.
fn extend_plan(plan: &mut Vec<SetupAction>, more: Vec<SetupAction>)
    ensures
        plan_view(final(plan)@) == plan_view(old(plan)@) + plan_view(more@),
{
    let mut more = more;
    let ghost more_view = plan_view(more@);
    plan.append(&mut more);
    assert(plan_view(plan@) =~= plan_view(old(plan)@) + more_view);
}

/// The PyTorch install for a vendor, with the venv interpreter `py`.
pub fn torch_install_plan(py: &str, v: GpuVendor) -> (r: Vec<SetupAction>)
    ensures
        plan_view(r@) == torch_plan(py@, v),
{
    let mut plan: Vec<SetupAction> = Vec::new();
    match v {
        GpuVendor::Nvidia => {
            plan.push(report_action(owned("Installing PyTorch with CUDA (NVIDIA)..."), 50));
            plan.push(cuda_run(py, false));
        },
        GpuVendor::Amd | GpuVendor::Intel => {
            plan.push(
                report_action(concat3("Installing PyTorch + DirectML (", v.upper_name(), ")..."), 50),
            );
            plan.push(uv_torch_run(py));
            plan.push(directml_run(py));
        },
        GpuVendor::Unknown => {
            plan.push(report_action(owned("Installing PyTorch (CPU)..."), 50));
            plan.push(uv_torch_run(py));
        },
    }
    assert(plan_view(plan@) =~= torch_plan(py@, v));
    plan
}

/// The report that opens the GPU task.
pub open spec fn gpu_check_report(v: GpuVendor) -> ActionView {
    report("Checking GPU support (detected: "@ + vendor_name(v) + ")..."@, 0)
}

/// The GPU task after its opening report.  `already` is what the vendor's
/// probe answered (ignored for an unknown vendor).
pub open spec fn gpu_torch_plan(py: Seq<char>, v: GpuVendor, already: bool) -> Seq<ActionView> {
    match v {
        GpuVendor::Nvidia => if already {
            seq![report("CUDA torch already installed."@, 100)]
        } else {
            seq![
                report("Downloading CUDA torch for NVIDIA GPU..."@, 0),
                run_streamed(py, cuda_torch_args(true)),
                report("CUDA torch installed."@, 100),
            ]
        },
        GpuVendor::Amd | GpuVendor::Intel => if already {
            seq![report("DirectML already installed."@, 100)]
        } else {
            seq![
                report("Installing torch-directml for "@ + vendor_upper(v) + " GPU..."@, 20),
                run(py, directml_args()),
                report("DirectML installed."@, 100),
            ]
        },
        GpuVendor::Unknown => seq![report("No dedicated GPU detected — using CPU."@, 100)],
    }
}

/// The report that opens the GPU task.
pub fn gpu_check_action(v: GpuVendor) -> (r: SetupAction)
    ensures
        r@ == gpu_check_report(v),
{
    report_action(concat3("Checking GPU support (detected: ", v.name(), ")..."), 0)
}

/// The rest of the GPU task.
pub fn ensure_gpu_torch_plan(py: &str, v: GpuVendor, already: bool) -> (r: Vec<SetupAction>)
    ensures
        plan_view(r@) == gpu_torch_plan(py@, v, already),
{
    let mut plan: Vec<SetupAction> = Vec::new();
    match v {
        GpuVendor::Nvidia => {
            if already {
                plan.push(report_action(owned("CUDA torch already installed."), 100));
            } else {
                plan.push(report_action(owned("Downloading CUDA torch for NVIDIA GPU..."), 0));
                plan.push(cuda_run(py, true));
                plan.push(report_action(owned("CUDA torch installed."), 100));
            }
        },
        GpuVendor::Amd | GpuVendor::Intel => {
            if already {
                plan.push(report_action(owned("DirectML already installed."), 100));
            } else {
                plan.push(
                    report_action(concat3("Installing torch-directml for ", v.upper_name(), " GPU..."), 20),
                );
                plan.push(directml_run(py));
                plan.push(report_action(owned("DirectML installed."), 100));
            }
        },
        GpuVendor::Unknown => {
            plan.push(report_action(owned("No dedicated GPU detected — using CPU."), 100));
        },
    }
    assert(plan_view(plan@) =~= gpu_torch_plan(py@, v, already));
    plan
}

/// The virtual-environment task: nothing to do when pip is already in the
/// venv; otherwise create it with the standalone interpreter `base`.
pub open spec fn create_env_plan(base: Seq<char>, venv: Seq<char>, ready: bool) -> Seq<ActionView> {
    if ready {
        seq![report("Already exists"@, 100)]
    } else {
        seq![
            report("Creating virtual environment..."@, 0),
            run(base, venv_args(venv)),
            report("Done"@, 100),
        ]
    }
}

/// The texts of the interpreters and of the venv folder.
pub struct Interpreters {
    /// The standalone interpreter.
    pub base: String,
    /// The venv interpreter.
    pub venv_python: String,
    /// The venv folder.
    pub venv: String,
}

/// The interpreters of an installation.
pub fn interpreters(iris: &IrisPath, platform: Platform) -> (r: Interpreters)
    ensures
        r.base@ == rendered(platform, python_binary_view(iris@, platform)),
        r.venv_python@ == venv_py(iris@, platform),
        r.venv@ == rendered(platform, iris@.child2("runtime"@, "venv"@)),
{
    Interpreters {
        base: python_binary(iris, platform).render(platform),
        venv_python: venv_python(iris, platform).render(platform),
        venv: venv_dir(iris).render(platform),
    }
}

/// The standalone interpreter's location (as `paths::python_binary` gives it).
pub open spec fn python_binary_view(iris: PathView, platform: Platform) -> PathView {
    match platform {
        Platform::Windows => iris.child2("runtime"@, "python"@).child2("python"@, "python.exe"@),
        Platform::Unix => iris.child2("runtime"@, "python"@).child2("python"@, "bin"@).child(
            "python3"@,
        ),
    }
}

fn venv_run(base: &str, venv: &str) -> (r: SetupAction)
    ensures
        r@ == run(base@, venv_args(venv@)),
{
    let args = args_of(&["-m", "venv", venv]);
    assert(args.deep_view() =~= venv_args(venv@));
    SetupAction::Run { program: owned(base), args, streamed: false }
}

/// The virtual-environment task (`ready`: pip is already in the venv).
pub fn create_env(i: &Interpreters, ready: bool) -> (r: Vec<SetupAction>)
    ensures
        plan_view(r@) == create_env_plan(i.base@, i.venv@, ready),
{
    let mut plan: Vec<SetupAction> = Vec::new();
    if ready {
        plan.push(report_action(owned("Already exists"), 100));
    } else {
        plan.push(report_action(owned("Creating virtual environment..."), 0));
        plan.push(venv_run(i.base.as_str(), i.venv.as_str()));
        plan.push(report_action(owned("Done"), 100));
    }
    assert(plan_view(plan@) =~= create_env_plan(i.base@, i.venv@, ready));
    plan
}

/// The packages of the backend-packages task.
pub open spec fn backend_package_args() -> Seq<Seq<char>> {
    seq![
        "-m"@, "uv"@, "pip"@, "install"@,
        "opencv-python"@, "numpy"@, "Pillow"@, "kornia"@,
        "imageio-ffmpeg"@, "transformers"@, "--quiet"@, "einops"@, "timm"@, "safetensors"@,
        "setuptools"@,
    ]
}

/// The backend-packages task: uv, the PyTorch build for the vendor, then the
/// packages CorridorKey imports.
pub open spec fn install_packages_plan(py: Seq<char>, v: GpuVendor) -> Seq<ActionView> {
    seq![
        report("Installing uv..."@, 0),
        run(py, uv_args()),
        report("Detected GPU: "@ + vendor_name(v) + " — installing PyTorch..."@, 20),
    ] + torch_plan(py, v) + seq![
        report("Installing packages..."@, 70),
        run(py, backend_package_args()),
        report("Done"@, 100),
    ]
}

/// The backend-packages task.
pub fn install_packages(py: &str, v: GpuVendor) -> (r: Vec<SetupAction>)
    ensures
        plan_view(r@) == install_packages_plan(py@, v),
{
    let mut plan: Vec<SetupAction> = Vec::new();
    plan.push(report_action(owned("Installing uv..."), 0));
    plan.push(uv_run(py));
    plan.push(report_action(concat3("Detected GPU: ", v.name(), " — installing PyTorch..."), 20));
    let ghost head = plan_view(plan@);
    assert(head =~= seq![
        report("Installing uv..."@, 0),
        run(py@, uv_args()),
        report("Detected GPU: "@ + vendor_name(v) + " — installing PyTorch..."@, 20),
    ]);
    extend_plan(&mut plan, torch_install_plan(py, v));
    let ghost mid = plan_view(plan@);
    assert(mid == head + torch_plan(py@, v));
    plan.push(report_action(owned("Installing packages..."), 70));
    let args = args_of(
        &[
            "-m",
            "uv",
            "pip",
            "install",
            "opencv-python",
            "numpy",
            "Pillow",
            "kornia",
            "imageio-ffmpeg",
            "transformers",
            "--quiet",
            "einops",
            "timm",
            "safetensors",
            "setuptools",
        ],
    );
    assert(args.deep_view() =~= backend_package_args());
    plan.push(SetupAction::Run { program: owned(py), args, streamed: false });
    plan.push(report_action(owned("Done"), 100));
    assert(plan_view(plan@) =~= mid + seq![
        report("Installing packages..."@, 70),
        run(py@, backend_package_args()),
        report("Done"@, 100),
    ]);
    assert(plan_view(plan@) =~= install_packages_plan(py@, v));
    plan
}

/// Installs uv alone.
pub open spec fn install_uv_plan(py: Seq<char>) -> Seq<ActionView> {
    seq![report("Installing uv..."@, 0), run(py, uv_args()), report("Done"@, 100)]
}

/// The uv task.
pub fn install_uv(py: &str) -> (r: Vec<SetupAction>)
    ensures
        plan_view(r@) == install_uv_plan(py@),
{
    let mut plan: Vec<SetupAction> = Vec::new();
    plan.push(report_action(owned("Installing uv..."), 0));
    plan.push(uv_run(py));
    plan.push(report_action(owned("Done"), 100));
    assert(plan_view(plan@) =~= install_uv_plan(py@));
    plan
}

/// The packages of the FFmpeg task (everything again, with the FFmpeg
/// bindings).
pub open spec fn ffmpeg_package_args() -> Seq<Seq<char>> {
    seq![
        "-m"@, "uv"@, "pip"@, "install"@, "safetensors"@,
        "torch"@, "torchvision"@, "opencv-python"@, "numpy"@, "Pillow"@, "kornia"@,
        "imageio-ffmpeg"@, "transformers"@, "--quiet"@, "einops"@, "timm"@, "setuptools"@,
    ]
}

/// The FFmpeg task.
pub open spec fn install_ffmpeg_plan(py: Seq<char>) -> Seq<ActionView> {
    seq![
        report("Installing FFmpeg bindings..."@, 0),
        run(py, ffmpeg_package_args()),
        report("Done"@, 100),
    ]
}

/// The FFmpeg task.
pub fn install_ffmpeg(py: &str) -> (r: Vec<SetupAction>)
    ensures
        plan_view(r@) == install_ffmpeg_plan(py@),
{
    let mut plan: Vec<SetupAction> = Vec::new();
    plan.push(report_action(owned("Installing FFmpeg bindings..."), 0));
    let args = args_of(
        &[
            "-m",
            "uv",
            "pip",
            "install",
            "safetensors",
            "torch",
            "torchvision",
            "opencv-python",
            "numpy",
            "Pillow",
            "kornia",
            "imageio-ffmpeg",
            "transformers",
            "--quiet",
            "einops",
            "timm",
            "setuptools",
        ],
    );
    assert(args.deep_view() =~= ffmpeg_package_args());
    plan.push(SetupAction::Run { program: owned(py), args, streamed: false });
    plan.push(report_action(owned("Done"), 100));
    assert(plan_view(plan@) =~= install_ffmpeg_plan(py@));
    plan
}

/// The packages of the all-in-one environment install.
pub open spec fn corridor_package_args() -> Seq<Seq<char>> {
    seq![
        "-m"@, "uv"@, "pip"@, "install"@, "safetensors"@,
        "opencv-python"@, "numpy"@, "Pillow"@, "kornia"@, "timm"@, "einops"@, "setuptools"@,
        "--quiet"@,
    ]
}

/// The FFmpeg bindings of the all-in-one environment install.
pub open spec fn ffmpeg_binding_args() -> Seq<Seq<char>> {
    seq!["-m"@, "uv"@, "pip"@, "install"@, "imageio-ffmpeg"@, "transformers"@, "--quiet"@]
}

/// The all-in-one environment install: create the venv, install uv, the
/// PyTorch build for the vendor, the CorridorKey packages and the FFmpeg
/// bindings.  Nothing to do when the venv is ready.
pub open spec fn create_plan(base: Seq<char>, venv: Seq<char>, py: Seq<char>, v: GpuVendor, ready: bool) -> Seq<
    ActionView,
> {
    if ready {
        seq![report("Environment already ready"@, 100)]
    } else {
        seq![
            report("Creating virtual environment..."@, 0),
            run(base, venv_args(venv)),
            report("Installing uv..."@, 20),
            run(py, uv_args()),
            report("Detected GPU: "@ + vendor_name(v) + " — installing PyTorch..."@, 30),
        ] + torch_plan(py, v) + seq![
            report("Installing CorridorKey packages..."@, 70),
            run(py, corridor_package_args()),
            report("Installing FFmpeg bindings..."@, 85),
            run(py, ffmpeg_binding_args()),
            report("Environment ready"@, 100),
        ]
    }
}

/// The all-in-one environment install.
pub fn create(i: &Interpreters, v: GpuVendor, ready: bool) -> (r: Vec<SetupAction>)
    ensures
        plan_view(r@) == create_plan(i.base@, i.venv@, i.venv_python@, v, ready),
{
    let mut plan: Vec<SetupAction> = Vec::new();
    if ready {
        plan.push(report_action(owned("Environment already ready"), 100));
        assert(plan_view(plan@) =~= create_plan(i.base@, i.venv@, i.venv_python@, v, ready));
        return plan;
    }
    let py = i.venv_python.as_str();
    plan.push(report_action(owned("Creating virtual environment..."), 0));
    plan.push(venv_run(i.base.as_str(), i.venv.as_str()));
    plan.push(report_action(owned("Installing uv..."), 20));
    plan.push(uv_run(py));
    plan.push(report_action(concat3("Detected GPU: ", v.name(), " — installing PyTorch..."), 30));
    let ghost head = plan_view(plan@);
    assert(head =~= seq![
        report("Creating virtual environment..."@, 0),
        run(i.base@, venv_args(i.venv@)),
        report("Installing uv..."@, 20),
        run(py@, uv_args()),
        report("Detected GPU: "@ + vendor_name(v) + " — installing PyTorch..."@, 30),
    ]);
    extend_plan(&mut plan, torch_install_plan(py, v));
    let ghost mid = plan_view(plan@);
    assert(mid == head + torch_plan(py@, v));
    plan.push(report_action(owned("Installing CorridorKey packages..."), 70));
    let args = args_of(
        &[
            "-m",
            "uv",
            "pip",
            "install",
            "safetensors",
            "opencv-python",
            "numpy",
            "Pillow",
            "kornia",
            "timm",
            "einops",
            "setuptools",
            "--quiet",
        ],
    );
    assert(args.deep_view() =~= corridor_package_args());
    plan.push(SetupAction::Run { program: owned(py), args, streamed: false });
    plan.push(report_action(owned("Installing FFmpeg bindings..."), 85));
    let args2 = args_of(&["-m", "uv", "pip", "install", "imageio-ffmpeg", "transformers", "--quiet"]);
    assert(args2.deep_view() =~= ffmpeg_binding_args());
    plan.push(SetupAction::Run { program: owned(py), args: args2, streamed: false });
    plan.push(report_action(owned("Environment ready"), 100));
    assert(plan_view(plan@) =~= mid + seq![
        report("Installing CorridorKey packages..."@, 70),
        run(py@, corridor_package_args()),
        report("Installing FFmpeg bindings..."@, 85),
        run(py@, ffmpeg_binding_args()),
        report("Environment ready"@, 100),
    ]);
    assert(plan_view(plan@) =~= create_plan(i.base@, i.venv@, i.venv_python@, v, ready));
    plan
}

/// Whether the CUDA probe's output says CUDA is available: the output,
/// without surrounding white space, is exactly `True`.
pub fn cuda_reported(output: &str) -> (r: bool)
    ensures
        r == (crate::text::trim_ws(output@) == "True"@),
{
    let t = crate::text::trim(output);
    same_text(t.as_str(), "True")
}

/// The venv interpreter's one-liner that prints where `imageio_ffmpeg`
/// keeps its ffmpeg.
pub fn ffmpeg_probe_args() -> (r: Vec<String>)
    ensures
        r.deep_view() == seq![
            "-c"@,
            "import imageio_ffmpeg; print(imageio_ffmpeg.get_ffmpeg_exe())"@,
        ],
{
    let r = vec![owned("-c"), owned("import imageio_ffmpeg; print(imageio_ffmpeg.get_ffmpeg_exe())")];
    assert(r.deep_view() =~= seq![
        "-c"@,
        "import imageio_ffmpeg; print(imageio_ffmpeg.get_ffmpeg_exe())"@,
    ]);
    r
}

/// The ffmpeg path the probe printed: its output without surrounding white
/// space.
pub fn ffmpeg_path_from_output(output: &str) -> (r: String)
    ensures
        r@ == crate::text::trim_ws(output@),
{
    crate::text::trim(output)
}


/// On Linux a working `nvidia-smi` decides NVIDIA whatever `lspci` lists.
/// Otherwise an AMD or Radeon part in the listing decides AMD, even when the
/// listing also names Intel (an Intel CPU's host bridge, say); Intel is
/// chosen only when it is named and no AMD or Radeon part is; and without a
/// listing the vendor is unknown.
pub proof fn lemma_linux_vendor_priority(lspci: Option<Seq<char>>, t: Seq<char>)
    ensures
        vendor_of_linux(true, lspci) == GpuVendor::Nvidia,
        has_infix(t, "amd"@) || has_infix(t, "radeon"@) ==> vendor_of_linux(false, Some(t))
            == GpuVendor::Amd,
        vendor_of_linux(false, Some(t)) == GpuVendor::Intel <==> (has_infix(t, "intel"@)
            && !has_infix(t, "amd"@) && !has_infix(t, "radeon"@)),
        vendor_of_linux(false, Some(t)) != GpuVendor::Nvidia,
        vendor_of_linux(false, None) == GpuVendor::Unknown,
{
}

/// On Windows an NVIDIA name (nvidia, geforce, quadro) in the caption wins;
/// otherwise AMD or Radeon decides AMD; Intel needs both "intel" and an Arc
/// or Iris Xe part, and no NVIDIA or AMD name.
pub proof fn lemma_windows_vendor_priority(c: Seq<char>)
    ensures
        has_infix(c, "nvidia"@) || has_infix(c, "geforce"@) || has_infix(c, "quadro"@)
            ==> vendor_of_caption(c) == GpuVendor::Nvidia,
        !has_infix(c, "nvidia"@) && !has_infix(c, "geforce"@) && !has_infix(c, "quadro"@) && (
        has_infix(c, "amd"@) || has_infix(c, "radeon"@)) ==> vendor_of_caption(c)
            == GpuVendor::Amd,
        vendor_of_caption(c) == GpuVendor::Intel ==> has_infix(c, "intel"@) && (has_infix(
            c,
            "arc"@,
        ) || has_infix(c, "iris xe"@)) && !has_infix(c, "amd"@) && !has_infix(c, "radeon"@),
{
}

/// The GPU task never reports DirectML installed without installing it: a
/// plan that reports `DirectML installed.` runs `pip install torch-directml`
/// with the venv interpreter before that report; and for an AMD or Intel GPU
/// whose probe found no DirectML, the plan does end with that report.
/// Likewise a plan that reports `CUDA torch installed.` has run the forced
/// CUDA install of PyTorch before it.
pub proof fn lemma_gpu_install_before_report(py: Seq<char>, v: GpuVendor, already: bool)
    ensures
        (v == GpuVendor::Amd || v == GpuVendor::Intel) && !already ==> gpu_torch_plan(
            py,
            v,
            already,
        ).last() == (ActionView::Report { message: "DirectML installed."@, percent: 100u32 }),
        forall|j: int|
            0 <= j < gpu_torch_plan(py, v, already).len() && #[trigger] gpu_torch_plan(
                py,
                v,
                already,
            )[j] == (ActionView::Report { message: "DirectML installed."@, percent: 100u32 })
                ==> exists|k: int|
                0 <= k < j && gpu_torch_plan(py, v, already)[k] == (ActionView::Run {
                    program: py,
                    args: seq!["-m"@, "pip"@, "install"@, "torch-directml"@, "--quiet"@],
                    streamed: false,
                }),
        v == GpuVendor::Nvidia && !already ==> gpu_torch_plan(py, v, already).last() == (
        ActionView::Report { message: "CUDA torch installed."@, percent: 100u32 }),
        forall|j: int|
            0 <= j < gpu_torch_plan(py, v, already).len() && #[trigger] gpu_torch_plan(
                py,
                v,
                already,
            )[j] == (ActionView::Report { message: "CUDA torch installed."@, percent: 100u32 })
                ==> exists|k: int|
                0 <= k < j && gpu_torch_plan(py, v, already)[k] == (ActionView::Run {
                    program: py,
                    args: seq![
                        "-m"@, "pip"@, "install"@, "torch"@, "torchvision"@,
                        "--index-url"@, "https://download.pytorch.org/whl/cu124"@,
                        "--force-reinstall"@, "--progress-bar"@, "on"@,
                    ],
                    streamed: true,
                }),
{
    reveal_strlit("DirectML installed.");
    reveal_strlit("DirectML already installed.");
    reveal_strlit("CUDA torch installed.");
    reveal_strlit("CUDA torch already installed.");
    reveal_strlit("No dedicated GPU detected — using CPU.");
    let plan = gpu_torch_plan(py, v, already);
    let dml = ActionView::Run {
        program: py,
        args: seq!["-m"@, "pip"@, "install"@, "torch-directml"@, "--quiet"@],
        streamed: false,
    };
    let cuda_args = seq![
        "-m"@, "pip"@, "install"@, "torch"@, "torchvision"@,
        "--index-url"@, "https://download.pytorch.org/whl/cu124"@,
        "--force-reinstall"@, "--progress-bar"@, "on"@,
    ];
    let cuda = ActionView::Run { program: py, args: cuda_args, streamed: true };
    assert(directml_args() =~= seq!["-m"@, "pip"@, "install"@, "torch-directml"@, "--quiet"@]);
    assert(cuda_torch_args(true) =~= cuda_args);
    let dml_done = ActionView::Report { message: "DirectML installed."@, percent: 100u32 };
    let cuda_done = ActionView::Report { message: "CUDA torch installed."@, percent: 100u32 };
    assert("DirectML installed."@.len() == 19);
    assert("CUDA torch installed."@.len() == 21);
    assert("DirectML already installed."@.len() == 27);
    assert("CUDA torch already installed."@.len() == 29);
    assert("No dedicated GPU detected — using CPU."@.len() == 38);
    assert forall|j: int| 0 <= j < plan.len() && #[trigger] plan[j] == dml_done implies exists|
        k: int,
    | 0 <= k < j && plan[k] == dml by {
        if (v == GpuVendor::Amd || v == GpuVendor::Intel) && !already {
            assert(j == 2);
            assert(plan[1] == dml);
        } else {
            assert(plan[j] != dml_done);
        }
    }
    assert forall|j: int| 0 <= j < plan.len() && #[trigger] plan[j] == cuda_done implies exists|
        k: int,
    | 0 <= k < j && plan[k] == cuda by {
        if v == GpuVendor::Nvidia && !already {
            assert(j == 2);
            assert(plan[1] == cuda);
        } else {
            assert(plan[j] != cuda_done);
        }
    }
}

} // verus!
