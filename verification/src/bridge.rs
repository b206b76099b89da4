//! The commands that start the Python bridge, and the requests sent to the
//! long-lived preview server.
//!
//! Every bridge run is the venv interpreter running `iris_bridge.py` with an
//! `--action` and its flags, offline, with piped output.  This module
//! computes those command lines; starting the process and reading its output
//! is the host's part.
use vstd::prelude::*;
use crate::paths::{
    IrisPath, PathView, Platform, alpha_model_path, bridge_script, corridor_model_file,
    corridor_src_dir, rendered, venv_python,
};
use crate::text::{decimal, decimal_string, owned, push_decimal};

verus! {

/// Inference settings as the bridge receives them.  `despill` and `refiner`
/// are the slider values in the decimal text that `f32`'s `Display` prints
/// (the host formats them).
pub struct InferParams {
    pub despill: String,
    pub refiner: String,
    pub despeckle: u32,
    pub workers: u32,
}

impl Default for InferParams {
    /// Despill 0.5, refiner 1.0, despeckle 400, two workers.
    fn default() -> (r: InferParams)
        ensures
            r.despill@ == "0.5"@,
            r.refiner@ == "1"@,
            r.despeckle == 400,
            r.workers == 2,
    {
        InferParams { despill: owned("0.5"), refiner: owned("1"), despeckle: 400, workers: 2 }
    }
}

/// A process to start: the program, its arguments and extra environment.
pub struct BridgeCommand {
    pub program: String,
    pub args: Vec<String>,
    pub env: Vec<(String, String)>,
}

/// The environment every bridge process gets: all model hubs offline.
pub open spec fn bridge_env() -> Seq<(Seq<char>, Seq<char>)> {
    seq![
        ("TRANSFORMERS_OFFLINE"@, "1"@),
        ("HF_HUB_OFFLINE"@, "1"@),
        ("HF_HUB_DISABLE_SYMLINKS_WARNING"@, "1"@),
    ]
}

/// The environment of a command, as text pairs.
pub open spec fn env_view(env: Seq<(String, String)>) -> Seq<(Seq<char>, Seq<char>)> {
    env.map_values(|p: (String, String)| (p.0@, p.1@))
}

/// The command that runs the bridge script with `action_args` on `platform`.
pub open spec fn bridge_command_spec(
    iris: PathView,
    platform: Platform,
    action_args: Seq<Seq<char>>,
) -> (Seq<char>, Seq<Seq<char>>) {
    (
        rendered(platform, venv_python_view(iris, platform)),
        seq![rendered(platform, iris.child2("runtime"@, "iris_bridge.py"@))] + action_args,
    )
}

/// The venv interpreter's location (as `paths::venv_python` gives it).
pub open spec fn venv_python_view(iris: PathView, platform: Platform) -> PathView {
    match platform {
        Platform::Windows => iris.child2("runtime"@, "venv"@).child2("Scripts"@, "python.exe"@),
        Platform::Unix => iris.child2("runtime"@, "venv"@).child2("bin"@, "python3"@),
    }
}

/// The text of the CorridorKey scripts folder.
pub open spec fn ck_src_text(iris: PathView, platform: Platform) -> Seq<char> {
    rendered(platform, iris.child2("runtime"@, "corridor"@))
}

/// The text of the CorridorKey weights file.
pub open spec fn ck_model_text(iris: PathView, platform: Platform) -> Seq<char> {
    rendered(platform, iris.child2("models"@, "key_models"@).child("CorridorKey_v1.0.pth"@))
}

/// Whether `c` is exactly the bridge run with `action_args`.
pub open spec fn is_bridge_command(
    c: BridgeCommand,
    iris: PathView,
    platform: Platform,
    action_args: Seq<Seq<char>>,
) -> bool {
    &&& c.program@ == bridge_command_spec(iris, platform, action_args).0
    &&& c.args.deep_view() == bridge_command_spec(iris, platform, action_args).1
    &&& env_view(c.env@) == bridge_env()
}

fn text_vec_push(v: &mut Vec<String>, s: &str)
    ensures
        final(v).deep_view() == old(v).deep_view().push(s@),
{
    v.push(owned(s));
    assert(final(v).deep_view() =~= old(v).deep_view().push(s@));
}

fn offline_env() -> (r: Vec<(String, String)>)
    ensures
        env_view(r@) == bridge_env(),
{
    let mut env: Vec<(String, String)> = Vec::new();
    env.push((owned("TRANSFORMERS_OFFLINE"), owned("1")));
    env.push((owned("HF_HUB_OFFLINE"), owned("1")));
    env.push((owned("HF_HUB_DISABLE_SYMLINKS_WARNING"), owned("1")));
    assert(env_view(env@) =~= bridge_env());
    env
}

/// The bridge run with `action_args`: the venv interpreter, the bridge
/// script, then the action's flags, with the model hubs offline.
pub fn bridge_command(iris: &IrisPath, platform: Platform, action_args: Vec<String>) -> (r:
    BridgeCommand)
    ensures
        is_bridge_command(r, iris@, platform, action_args.deep_view()),
{
    let program = venv_python(iris, platform).render(platform);
    let mut args: Vec<String> = Vec::new();
    let script = bridge_script(iris).render(platform);
    text_vec_push(&mut args, script.as_str());
    let mut i: usize = 0;
    while i < action_args.len()
        invariant
            i <= action_args.len(),
            args.deep_view() == seq![script@] + action_args.deep_view().take(i as int),
        decreases action_args.len() - i,
    {
        text_vec_push(&mut args, action_args[i].as_str());
        i = i + 1;
        assert(action_args.deep_view().take(i as int) =~= action_args.deep_view().take(
            i - 1,
        ).push(action_args.deep_view()[i - 1]));
    }
    assert(action_args.deep_view().take(action_args.len() as int) =~= action_args.deep_view());
    BridgeCommand { program, args, env: offline_env() }
}

// ---------------------------------------------------------------------------
// The actions
// ---------------------------------------------------------------------------

/// `--action gpu_info`: report the GPU and how many parallel workers fit.
pub open spec fn gpu_info_args() -> Seq<Seq<char>> {
    seq!["--action"@, "gpu_info"@, "--alpha-model"@, ""@]
}

/// `--action extract`: split the clip into numbered frames.
pub open spec fn extract_args(clip: Seq<char>, work: Seq<char>) -> Seq<Seq<char>> {
    seq!["--action"@, "extract"@, "--input"@, clip, "--work"@, work, "--alpha-model"@, ""@]
}

/// The flags shared by `alpha` and `infer`.
pub open spec fn keying_args(
    action: Seq<char>,
    clip: Seq<char>,
    work: Seq<char>,
    ck_src: Seq<char>,
    ck_model: Seq<char>,
    alpha_model: Seq<char>,
    despill: Seq<char>,
    refiner: Seq<char>,
    despeckle: u32,
    workers: u32,
) -> Seq<Seq<char>> {
    seq![
        "--action"@, action,
        "--input"@, clip,
        "--work"@, work,
        "--ck-src"@, ck_src,
        "--ck-model"@, ck_model,
        "--alpha-model"@, alpha_model,
        "--despill"@, despill,
        "--refiner"@, refiner,
        "--despeckle"@, decimal(despeckle as nat),
        "--workers"@, decimal(workers as nat),
    ]
}

/// `--action hint`: generate the alpha hint for one frame.
pub open spec fn hint_args(work: Seq<char>, frame: u32, alpha_model: Seq<char>) -> Seq<
    Seq<char>,
> {
    seq![
        "--action"@, "hint"@,
        "--work"@, work,
        "--alpha-model"@, alpha_model,
        "--frame"@, decimal(frame as nat),
    ]
}

/// `--action preview`: key one frame with a single worker.
pub open spec fn preview_args(
    work: Seq<char>,
    frame: u32,
    ck_src: Seq<char>,
    ck_model: Seq<char>,
    alpha_model: Seq<char>,
    despill: Seq<char>,
    refiner: Seq<char>,
    despeckle: u32,
) -> Seq<Seq<char>> {
    seq![
        "--action"@, "preview"@,
        "--work"@, work,
        "--ck-src"@, ck_src,
        "--ck-model"@, ck_model,
        "--alpha-model"@, alpha_model,
        "--frame"@, decimal(frame as nat),
        "--despill"@, despill,
        "--refiner"@, refiner,
        "--despeckle"@, decimal(despeckle as nat),
        "--workers"@, "1"@,
    ]
}

/// `--action export`: encode the outputs into videos at `fps`.
pub open spec fn export_args(work: Seq<char>, fps: Seq<char>) -> Seq<Seq<char>> {
    seq!["--action"@, "export"@, "--work"@, work, "--fps"@, fps, "--alpha-model"@, ""@]
}

/// `--action preview_server`: a long-lived process that keys frames on request.
pub open spec fn preview_server_args(
    work: Seq<char>,
    ck_src: Seq<char>,
    ck_model: Seq<char>,
    alpha_model: Seq<char>,
) -> Seq<Seq<char>> {
    seq![
        "--action"@, "preview_server"@,
        "--work"@, work,
        "--ck-src"@, ck_src,
        "--ck-model"@, ck_model,
        "--alpha-model"@, alpha_model,
    ]
}

fn args_of(items: &[&str]) -> (r: Vec<String>)
    ensures
        r@.len() == items@.len(),
        forall|i: int| 0 <= i < items@.len() ==> #[trigger] r@[i]@ == items@[i]@,
{
    let mut out: Vec<String> = Vec::new();
    let mut i: usize = 0;
    while i < items.len()
        invariant
            i <= items@.len(),
            out@.len() == i,
            forall|j: int| 0 <= j < i ==> #[trigger] out@[j]@ == items@[j]@,
        decreases items@.len() - i,
    {
        out.push(owned(items[i]));
        i = i + 1;
    }
    out
}

/// The bridge run that reports GPU information.
pub fn gpu_info_command(iris: &IrisPath, platform: Platform) -> (r: BridgeCommand)
    ensures
        is_bridge_command(r, iris@, platform, gpu_info_args()),
{
    let args = args_of(&["--action", "gpu_info", "--alpha-model", ""]);
    assert(args.deep_view() =~= gpu_info_args());
    bridge_command(iris, platform, args)
}

/// The bridge run that extracts the frames of `clip` into `work`.
pub fn extract_command(iris: &IrisPath, platform: Platform, clip: &str, work: &str) -> (r:
    BridgeCommand)
    ensures
        is_bridge_command(r, iris@, platform, extract_args(clip@, work@)),
{
    let args = args_of(&["--action", "extract", "--input", clip, "--work", work, "--alpha-model", ""]);
    assert(args.deep_view() =~= extract_args(clip@, work@));
    bridge_command(iris, platform, args)
}

fn keying_command(
    iris: &IrisPath,
    platform: Platform,
    action: &str,
    clip: &str,
    work: &str,
    alpha_model: &str,
    params: &InferParams,
) -> (r: BridgeCommand)
    ensures
        is_bridge_command(
            r,
            iris@,
            platform,
            keying_args(
                action@,
                clip@,
                work@,
                ck_src_text(iris@, platform),
                ck_model_text(iris@, platform),
                alpha_model@,
                params.despill@,
                params.refiner@,
                params.despeckle,
                params.workers,
            ),
        ),
{
    let ck_src = corridor_src_dir(iris).render(platform);
    let ck_model = corridor_model_file(iris).render(platform);
    let despeckle = decimal_string(params.despeckle as u64);
    let workers = decimal_string(params.workers as u64);
    let args = args_of(
        &[
            "--action",
            action,
            "--input",
            clip,
            "--work",
            work,
            "--ck-src",
            ck_src.as_str(),
            "--ck-model",
            ck_model.as_str(),
            "--alpha-model",
            alpha_model,
            "--despill",
            params.despill.as_str(),
            "--refiner",
            params.refiner.as_str(),
            "--despeckle",
            despeckle.as_str(),
            "--workers",
            workers.as_str(),
        ],
    );
    assert(args.deep_view() =~= keying_args(
        action@,
        clip@,
        work@,
        ck_src@,
        ck_model@,
        alpha_model@,
        params.despill@,
        params.refiner@,
        params.despeckle,
        params.workers,
    ));
    bridge_command(iris, platform, args)
}

/// The bridge run that generates alpha hints for the whole clip.
pub fn alpha_command(
    iris: &IrisPath,
    platform: Platform,
    clip: &str,
    work: &str,
    alpha_model: &str,
    params: &InferParams,
) -> (r: BridgeCommand)
    ensures
        is_bridge_command(
            r,
            iris@,
            platform,
            keying_args(
                "alpha"@,
                clip@,
                work@,
                ck_src_text(iris@, platform),
                ck_model_text(iris@, platform),
                alpha_model@,
                params.despill@,
                params.refiner@,
                params.despeckle,
                params.workers,
            ),
        ),
{
    keying_command(iris, platform, "alpha", clip, work, alpha_model, params)
}

/// The bridge run that keys the whole clip.
pub fn infer_command(
    iris: &IrisPath,
    platform: Platform,
    clip: &str,
    work: &str,
    alpha_model: &str,
    params: &InferParams,
) -> (r: BridgeCommand)
    ensures
        is_bridge_command(
            r,
            iris@,
            platform,
            keying_args(
                "infer"@,
                clip@,
                work@,
                ck_src_text(iris@, platform),
                ck_model_text(iris@, platform),
                alpha_model@,
                params.despill@,
                params.refiner@,
                params.despeckle,
                params.workers,
            ),
        ),
{
    keying_command(iris, platform, "infer", clip, work, alpha_model, params)
}

/// The bridge run that generates the alpha hint of one frame.
pub fn hint_command(
    iris: &IrisPath,
    platform: Platform,
    work: &str,
    frame: u32,
    alpha_model: &str,
) -> (r: BridgeCommand)
    ensures
        is_bridge_command(r, iris@, platform, hint_args(work@, frame, alpha_model@)),
{
    let frame_text = decimal_string(frame as u64);
    let args = args_of(
        &["--action", "hint", "--work", work, "--alpha-model", alpha_model, "--frame", frame_text.as_str()],
    );
    assert(args.deep_view() =~= hint_args(work@, frame, alpha_model@));
    bridge_command(iris, platform, args)
}

/// The bridge run that keys one frame for preview (one worker).
pub fn preview_command(
    iris: &IrisPath,
    platform: Platform,
    work: &str,
    frame: u32,
    alpha_model: &str,
    params: &InferParams,
) -> (r: BridgeCommand)
    ensures
        is_bridge_command(
            r,
            iris@,
            platform,
            preview_args(
                work@,
                frame,
                ck_src_text(iris@, platform),
                ck_model_text(iris@, platform),
                alpha_model@,
                params.despill@,
                params.refiner@,
                params.despeckle,
            ),
        ),
{
    let ck_src = corridor_src_dir(iris).render(platform);
    let ck_model = corridor_model_file(iris).render(platform);
    let frame_text = decimal_string(frame as u64);
    let despeckle = decimal_string(params.despeckle as u64);
    let args = args_of(
        &[
            "--action",
            "preview",
            "--work",
            work,
            "--ck-src",
            ck_src.as_str(),
            "--ck-model",
            ck_model.as_str(),
            "--alpha-model",
            alpha_model,
            "--frame",
            frame_text.as_str(),
            "--despill",
            params.despill.as_str(),
            "--refiner",
            params.refiner.as_str(),
            "--despeckle",
            despeckle.as_str(),
            "--workers",
            "1",
        ],
    );
    assert(args.deep_view() =~= preview_args(
        work@,
        frame,
        ck_src@,
        ck_model@,
        alpha_model@,
        params.despill@,
        params.refiner@,
        params.despeckle,
    ));
    bridge_command(iris, platform, args)
}

/// The bridge run that exports the outputs of `work` as videos at `fps`
/// (the frame rate in the text that `f32`'s `Display` prints).
pub fn export_command(iris: &IrisPath, platform: Platform, work: &str, fps: &str) -> (r:
    BridgeCommand)
    ensures
        is_bridge_command(r, iris@, platform, export_args(work@, fps@)),
{
    let args = args_of(&["--action", "export", "--work", work, "--fps", fps, "--alpha-model", ""]);
    assert(args.deep_view() =~= export_args(work@, fps@));
    bridge_command(iris, platform, args)
}

/// The long-lived preview server for the clip in `work`.
pub fn preview_server_command(
    iris: &IrisPath,
    platform: Platform,
    work: &str,
    alpha_model: &str,
) -> (r: BridgeCommand)
    ensures
        is_bridge_command(
            r,
            iris@,
            platform,
            preview_server_args(
                work@,
                ck_src_text(iris@, platform),
                ck_model_text(iris@, platform),
                alpha_model@,
            ),
        ),
{
    let ck_src = corridor_src_dir(iris).render(platform);
    let ck_model = corridor_model_file(iris).render(platform);
    let args = args_of(
        &[
            "--action",
            "preview_server",
            "--work",
            work,
            "--ck-src",
            ck_src.as_str(),
            "--ck-model",
            ck_model.as_str(),
            "--alpha-model",
            alpha_model,
        ],
    );
    assert(args.deep_view() =~= preview_server_args(work@, ck_src@, ck_model@, alpha_model@));
    bridge_command(iris, platform, args)
}

/// The request line the preview server reads for one frame:
/// `{"frame":F,"despill":D,"refiner":R,"despeckle":S}` and a newline.
pub open spec fn preview_request(frame: u32, despill: Seq<char>, refiner: Seq<char>, despeckle: u32) -> Seq<char> {
    "{\"frame\":"@ + decimal(frame as nat) + ",\"despill\":"@ + despill + ",\"refiner\":"@
        + refiner + ",\"despeckle\":"@ + decimal(despeckle as nat) + "}\n"@
}

/// Builds the request line for `frame` with `params`.
pub fn preview_request_line(frame: u32, params: &InferParams) -> (r: String)
    ensures
        r@ == preview_request(frame, params.despill@, params.refiner@, params.despeckle),
{
    let mut out = owned("{\"frame\":");
    push_decimal(&mut out, frame as u64);
    out.append(",\"despill\":");
    out.append(params.despill.as_str());
    out.append(",\"refiner\":");
    out.append(params.refiner.as_str());
    out.append(",\"despeckle\":");
    push_decimal(&mut out, params.despeckle as u64);
    out.append("}\n");
    out
}

/// Where the alpha model called `name` lives (as `paths::alpha_model_path`
/// gives it).
pub open spec fn alpha_model_view(iris: PathView, name: Seq<char>, dir_exists: bool) -> PathView {
    iris.child2("models"@, "alpha_models"@).child(
        if dir_exists {
            name
        } else {
            name + ".pth"@
        },
    )
}

/// The `--alpha-model` value for the selected method: the text of the
/// model's folder or weights file (`dir_exists`: the model has its own
/// folder), or empty when no method is selected.
pub open spec fn alpha_model_text(
    iris: PathView,
    platform: Platform,
    method: Option<Seq<char>>,
    dir_exists: bool,
) -> Seq<char> {
    match method {
        Some(n) => rendered(platform, alpha_model_view(iris, n, dir_exists)),
        None => Seq::empty(),
    }
}

/// The `--alpha-model` value for the selected method.
pub fn alpha_model_arg(
    iris: &IrisPath,
    platform: Platform,
    method: &Option<String>,
    dir_exists: bool,
) -> (r: String)
    ensures
        r@ == alpha_model_text(iris@, platform, method.deep_view(), dir_exists),
{
    match method {
        Some(n) => alpha_model_path(iris, n.as_str(), dir_exists).render(platform),
        None => String::new(),
    }
}

} // verus!
