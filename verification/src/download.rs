//! What first-run setup downloads, from where, and how it names it.
//!
//! Fetching and unpacking is the host's part; this module decides the
//! addresses, the files, the checks for an existing copy, which archive
//! entries are kept, and the messages on the way.
use vstd::prelude::*;
use crate::paths::{IrisPath, alpha_models_dir, corridor_model_file, corridor_src_dir};
use crate::text::{concat2, concat3, decimal, has_prefix, has_suffix, chars_of, ends_with, owned,
    push_decimal, slice_chars, starts_with, string_of};

verus! {

// ---------------------------------------------------------------------------
// The standalone Python runtime
// ---------------------------------------------------------------------------

/// The machines a Python runtime is published for.
#[derive(Clone, Copy, Debug, PartialEq, Eq, Structural)]
pub enum Target {
    WindowsX64,
    LinuxX64,
    MacArm64,
    MacX64,
}

/// The build tag of each target.
pub open spec fn target_tag(t: Target) -> Seq<char> {
    match t {
        Target::WindowsX64 => "x86_64-pc-windows-msvc-shared"@,
        Target::LinuxX64 => "x86_64-unknown-linux-gnu"@,
        Target::MacArm64 => "aarch64-apple-darwin"@,
        Target::MacX64 => "x86_64-apple-darwin"@,
    }
}

/// The build tag of `t`.
pub fn platform_tag(t: Target) -> (r: &'static str)
    ensures
        r@ == target_tag(t),
{
    match t {
        Target::WindowsX64 => "x86_64-pc-windows-msvc-shared",
        Target::LinuxX64 => "x86_64-unknown-linux-gnu",
        Target::MacArm64 => "aarch64-apple-darwin",
        Target::MacX64 => "x86_64-apple-darwin",
    }
}

/// The Python version installed.
pub open spec fn python_version() -> Seq<char> {
    "3.11.9"@
}

/// The address of the runtime archive for a build tag.
pub open spec fn python_url(tag: Seq<char>) -> Seq<char> {
    "https://github.com/indygreg/python-build-standalone/releases/download/20240713/cpython-3.11.9%2B20240713-"@
        + tag + "-install_only.tar.gz"@
}

/// The address of the runtime archive for `t`.
pub fn python_download_url(t: Target) -> (r: String)
    ensures
        r@ == python_url(target_tag(t)),
{
    concat3(
        "https://github.com/indygreg/python-build-standalone/releases/download/20240713/cpython-3.11.9%2B20240713-",
        platform_tag(t),
        "-install_only.tar.gz",
    )
}

/// How many times the runtime download is tried.
pub fn download_attempts() -> (r: u32)
    ensures
        r == 3,
{
    3
}

/// The report before attempt `attempt` (counting from zero): none before the
/// first, `Retrying Python download (attempt N)...` before the others, N
/// counting from one.
pub open spec fn retry_report(attempt: u32) -> Option<Seq<char>> {
    if attempt == 0 {
        None
    } else {
        Some("Retrying Python download (attempt "@ + decimal(attempt as nat + 1) + ")..."@)
    }
}

/// The report before an attempt.
pub fn python_retry_report(attempt: u32) -> (r: Option<String>)
    requires
        attempt < u32::MAX,
    ensures
        r.deep_view() == retry_report(attempt),
{
    if attempt == 0 {
        None
    } else {
        let mut out = owned("Retrying Python download (attempt ");
        push_decimal(&mut out, attempt as u64 + 1);
        out.append(")...");
        Some(out)
    }
}

/// What the runtime download does before attempt `attempt` (counting from
/// zero): try again, after a report for every attempt but the first, or give
/// up once three attempts have failed.
pub enum RetryStep {
    Attempt { report: Option<String> },
    GiveUp { message: String },
}

/// The mathematical form of a `RetryStep`.
pub enum RetryStepView {
    Attempt { report: Option<Seq<char>> },
    GiveUp { message: Seq<char> },
}

impl View for RetryStep {
    type V = RetryStepView;

    open spec fn view(&self) -> RetryStepView {
        match self {
            RetryStep::Attempt { report } => RetryStepView::Attempt { report: report.deep_view() },
            RetryStep::GiveUp { message } => RetryStepView::GiveUp { message: message@ },
        }
    }
}

/// The step before attempt `attempt`, all earlier attempts having failed.
pub open spec fn retry_step(attempt: u32) -> RetryStepView {
    if attempt < 3 {
        RetryStepView::Attempt { report: retry_report(attempt) }
    } else {
        RetryStepView::GiveUp { message: "Python download failed after 3 attempts"@ }
    }
}

/// Decides the step before attempt `attempt` of the runtime download.
pub fn python_download_step(attempt: u32) -> (r: RetryStep)
    ensures
        r@ == retry_step(attempt),
{
    if attempt < download_attempts() {
        RetryStep::Attempt { report: python_retry_report(attempt) }
    } else {
        RetryStep::GiveUp { message: owned("Python download failed after 3 attempts") }
    }
}

/// The messages of the runtime task.
pub fn python_messages() -> (r: (&'static str, &'static str, &'static str, &'static str, &'static str))
    ensures
        r.0@ == "Python already installed"@,
        r.1@ == "Downloading Python 3.11.9..."@,
        r.2@ == "Extracting Python..."@,
        r.3@ == "Python ready"@,
        r.4@ == "Python download failed after 3 attempts"@,
{
    (
        "Python already installed",
        "Downloading Python 3.11.9...",
        "Extracting Python...",
        "Python ready",
        "Python download failed after 3 attempts",
    )
}

// ---------------------------------------------------------------------------
// Model weights
// ---------------------------------------------------------------------------

/// A weights file counts as present only when larger than 100 MiB (a
/// smaller one is a broken download).
pub open spec fn weights_complete(len: u64) -> bool {
    len > 100 * 1024 * 1024
}

/// Whether a weights file of `len` bytes is complete.
pub fn model_file_complete(len: u64) -> (r: bool)
    ensures
        r == weights_complete(len),
{
    len > 100 * 1024 * 1024
}

/// One file to fetch.
pub struct Download {
    pub url: String,
    pub dest: IrisPath,
    pub label: String,
}

/// The CorridorKey weights: their address and where they go.
pub fn corridor_download(iris: &IrisPath) -> (r: Download)
    ensures
        r.url@ == "https://huggingface.co/nikopueringer/CorridorKey_v1.0/resolve/main/CorridorKey_v1.0.pth"@,
        r.dest@ == iris@.child2("models"@, "key_models"@).child("CorridorKey_v1.0.pth"@),
        r.label@ == "CorridorKey model"@,
{
    Download {
        url: owned("https://huggingface.co/nikopueringer/CorridorKey_v1.0/resolve/main/CorridorKey_v1.0.pth"),
        dest: corridor_model_file(iris),
        label: owned("CorridorKey model"),
    }
}

/// Where BiRefNet's files come from.
pub open spec fn birefnet_base() -> Seq<char> {
    "https://huggingface.co/ZhengPeng7/BiRefNet/resolve/main"@
}

/// BiRefNet's files, in the order fetched, with their labels: the three
/// code and config files (labelled by name), then the weights.
pub open spec fn birefnet_files() -> Seq<(Seq<char>, Seq<char>)> {
    seq![
        ("birefnet.py"@, "birefnet.py"@),
        ("BiRefNet_config.py"@, "BiRefNet_config.py"@),
        ("config.json"@, "config.json"@),
        ("model.safetensors"@, "BiRefNet weights"@),
    ]
}

/// The BiRefNet folder: `alpha_models/BiRefNet`.
pub fn birefnet_dir(iris: &IrisPath) -> (r: IrisPath)
    ensures
        r@ == iris@.child2("models"@, "alpha_models"@).child("BiRefNet"@),
{
    alpha_models_dir(iris).join("BiRefNet")
}

fn birefnet_file(dir: &IrisPath, file: &str, label: &str) -> (r: Download)
    ensures
        r.url@ == birefnet_base() + "/"@ + file@,
        r.dest@ == dir@.child(file@),
        r.label@ == label@,
{
    Download {
        url: concat3("https://huggingface.co/ZhengPeng7/BiRefNet/resolve/main", "/", file),
        dest: dir.join(file),
        label: owned(label),
    }
}

/// The BiRefNet downloads, in order.
pub fn birefnet_downloads(iris: &IrisPath) -> (r: Vec<Download>)
    ensures
        r@.len() == 4,
        forall|i: int|
            0 <= i < 4 ==> {
                &&& #[trigger] r@[i].url@ == birefnet_base() + "/"@ + birefnet_files()[i].0
                &&& r@[i].dest@ == iris@.child2("models"@, "alpha_models"@).child("BiRefNet"@).child(
                    birefnet_files()[i].0,
                )
                &&& r@[i].label@ == birefnet_files()[i].1
            },
{
    let dir = birefnet_dir(iris);
    let mut r: Vec<Download> = Vec::new();
    r.push(birefnet_file(&dir, "birefnet.py", "birefnet.py"));
    r.push(birefnet_file(&dir, "BiRefNet_config.py", "BiRefNet_config.py"));
    r.push(birefnet_file(&dir, "config.json", "config.json"));
    r.push(birefnet_file(&dir, "model.safetensors", "BiRefNet weights"));
    r
}

/// The file whose size tells whether BiRefNet is installed.
pub fn birefnet_weights(iris: &IrisPath) -> (r: IrisPath)
    ensures
        r@ == iris@.child2("models"@, "alpha_models"@).child2("BiRefNet"@, "model.safetensors"@),
{
    birefnet_dir(iris).join("model.safetensors")
}

/// The message when a file starts downloading.
pub fn download_started(label: &str) -> (r: String)
    ensures
        r@ == "Downloading "@ + label@ + "..."@,
{
    concat3("Downloading ", label, "...")
}

/// The message when a file is in place.
pub fn download_ready(label: &str) -> (r: String)
    ensures
        r@ == label@ + " ready"@,
{
    concat2(label, " ready")
}

/// The message of a refused download (`status` is the HTTP status as text).
pub fn server_refused(status: &str, label: &str) -> (r: String)
    ensures
        r@ == "Server returned "@ + status@ + " for "@ + label@,
{
    let mut out = concat2("Server returned ", status);
    out.append(" for ");
    out.append(label);
    out
}

// ---------------------------------------------------------------------------
// The CorridorKey scripts
// ---------------------------------------------------------------------------

/// The archive of the CorridorKey repository.
pub fn corridor_scripts_url() -> (r: &'static str)
    ensures
        r@ == "https://github.com/nikopueringer/CorridorKey/archive/refs/heads/main.zip"@,
{
    "https://github.com/nikopueringer/CorridorKey/archive/refs/heads/main.zip"
}

/// The folder of the archive that is kept.
pub open spec fn module_prefix() -> Seq<char> {
    "CorridorKey-main/CorridorKeyModule/"@
}

/// Where an archive entry goes: entries under `CorridorKeyModule/` are kept,
/// relative to the module folder (a name ending in `/` is a folder); the
/// folder itself and everything else are skipped.
pub open spec fn entry_target(name: Seq<char>) -> Option<(Seq<char>, bool)> {
    if !has_prefix(name, module_prefix()) {
        None
    } else {
        let relative = name.skip(module_prefix().len() as int);
        if relative.len() == 0 {
            None
        } else {
            Some((relative, has_suffix(name, "/"@)))
        }
    }
}

/// Where the archive entry `name` goes.
pub fn zip_entry_target(name: &str) -> (r: Option<(String, bool)>)
    ensures
        match r {
            Some((rel, is_dir)) => entry_target(name@) == Some((rel@, is_dir)),
            None => entry_target(name@) is None,
        },
{
    let prefix = "CorridorKey-main/CorridorKeyModule/";
    if !starts_with(name, prefix) {
        return None;
    }
    let nc = chars_of(name);
    let pc = chars_of(prefix);
    let rel = slice_chars(&nc, pc.len(), nc.len());
    assert(rel@ =~= name@.skip(module_prefix().len() as int));
    if rel.len() == 0 {
        return None;
    }
    Some((string_of(&rel), ends_with(name, "/")))
}

/// The module folder: `runtime/corridor/CorridorKeyModule`.
pub fn corridor_module_dir(iris: &IrisPath) -> (r: IrisPath)
    ensures
        r@ == iris@.child2("runtime"@, "corridor"@).child("CorridorKeyModule"@),
{
    corridor_src_dir(iris).join("CorridorKeyModule")
}

/// The two files whose presence means the scripts are installed.
pub fn corridor_scripts_probe(iris: &IrisPath) -> (r: (IrisPath, IrisPath))
    ensures
        r.0@ == iris@.child2("runtime"@, "corridor"@).child2("CorridorKeyModule"@, "inference_engine.py"@),
        r.1@ == iris@.child2("runtime"@, "corridor"@).child2("CorridorKeyModule"@, "core"@).child(
            "model_transformer.py"@,
        ),
{
    let module = corridor_module_dir(iris);
    (module.join("inference_engine.py"), module.join("core").join("model_transformer.py"))
}

} // verus!
