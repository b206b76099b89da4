//! The on-disk layout of an Iris installation.
//!
//! A location is an `IrisPath`: the installation root (a directory named by
//! the host, beside the executable) followed by the names joined under it, in
//! order.  Each function below names one place of the layout:
//!
//! ```text
//! <root>/input/                 user clips copied in
//! <root>/output/<clip>/         per-clip work folder (meta.json inside)
//! <root>/models/key_models/     CorridorKey weights
//! <root>/models/alpha_models/   alpha hint generators
//! <root>/runtime/               app-owned runtime (python, venv, scripts)
//! ```
use vstd::prelude::*;
use crate::text::{chars_of, concat2, owned};

verus! {

/// The operating-system family whose file names the layout follows.
#[derive(Clone, Copy, Debug, PartialEq, Eq, Structural)]
pub enum Platform {
    Windows,
    Unix,
}

/// A location: a root directory and the names joined under it.
pub struct IrisPath {
    root: String,
    parts: Vec<String>,
}

/// The mathematical form of a location.
pub struct PathView {
    pub root: Seq<char>,
    pub parts: Seq<Seq<char>>,
}

impl PathView {
    /// This location with `name` joined at its end.
    pub open spec fn child(self, name: Seq<char>) -> PathView {
        PathView { root: self.root, parts: self.parts.push(name) }
    }

    /// This location with the names `a` and then `b` joined at its end.
    pub open spec fn child2(self, a: Seq<char>, b: Seq<char>) -> PathView {
        self.child(a).child(b)
    }
}

impl View for IrisPath {
    type V = PathView;

    closed spec fn view(&self) -> PathView {
        PathView { root: self.root@, parts: self.parts.deep_view() }
    }
}

/// A copy of a list of strings.
pub fn copy_strings(v: &Vec<String>) -> (r: Vec<String>)
    ensures
        r.deep_view() == v.deep_view(),
{
    let mut out: Vec<String> = Vec::new();
    let mut i: usize = 0;
    while i < v.len()
        invariant
            i <= v.len(),
            out@.len() == i,
            forall|j: int| 0 <= j < i ==> #[trigger] out@[j]@ == v@[j]@,
        decreases v.len() - i,
    {
        let item = owned(v[i].as_str());
        out.push(item);
        i = i + 1;
    }
    assert(out.deep_view() =~= v.deep_view());
    out
}

impl IrisPath {
    /// The location of the directory `root` itself.
    pub fn new(root: &str) -> (r: IrisPath)
        ensures
            r@ == (PathView { root: root@, parts: Seq::empty() }),
    {
        let r = IrisPath { root: owned(root), parts: Vec::new() };
        assert(r.parts.deep_view() =~= Seq::<Seq<char>>::empty());
        r
    }

    /// The root directory's name, as given to `new`.
    pub fn root(&self) -> (r: &str)
        ensures
            r@ == self@.root,
    {
        self.root.as_str()
    }

    /// How many names are joined under the root.
    pub fn depth(&self) -> (r: usize)
        ensures
            r == self@.parts.len(),
    {
        self.parts.len()
    }

    /// The `i`-th name joined under the root.
    pub fn part(&self, i: usize) -> (r: &str)
        requires
            i < self@.parts.len(),
        ensures
            r@ == self@.parts[i as int],
    {
        self.parts[i].as_str()
    }

    /// This location with `name` joined at its end (what `Path::join` does
    /// with a plain file name).
    pub fn join(&self, name: &str) -> (r: IrisPath)
        ensures
            r@ == self@.child(name@),
    {
        let mut parts = copy_strings(&self.parts);
        parts.push(owned(name));
        let r = IrisPath { root: owned(self.root.as_str()), parts };
        assert(r.parts.deep_view() =~= self.parts.deep_view().push(name@));
        r
    }
}

/// The separator a platform writes between names.
pub open spec fn separator(platform: Platform) -> char {
    match platform {
        Platform::Windows => '\\',
        Platform::Unix => '/',
    }
}

/// Whether `c` separates names on the platform (Windows accepts both
/// slashes).
pub open spec fn is_separator(platform: Platform, c: char) -> bool {
    match platform {
        Platform::Windows => c == '\\' || c == '/',
        Platform::Unix => c == '/',
    }
}

/// `text` with the relative name `name` pushed on, as `PathBuf::push` does:
/// a separator goes between them unless `text` is empty or already ends
/// with one.
pub open spec fn push_name(platform: Platform, text: Seq<char>, name: Seq<char>) -> Seq<char> {
    if text.len() == 0 || is_separator(platform, text.last()) {
        text + name
    } else {
        text.push(separator(platform)) + name
    }
}

/// The text of the root with the first `n` names pushed on, in order.
pub open spec fn rendered_prefix(platform: Platform, p: PathView, n: nat) -> Seq<char>
    decreases n,
{
    if n == 0 {
        p.root
    } else {
        push_name(platform, rendered_prefix(platform, p, (n - 1) as nat), p.parts[n - 1])
    }
}

/// The text of a whole location on the platform.
pub open spec fn rendered(platform: Platform, p: PathView) -> Seq<char> {
    rendered_prefix(platform, p, p.parts.len())
}

fn push_name_exec(platform: Platform, text: &mut String, name: &str)
    ensures
        final(text)@ == push_name(platform, old(text)@, name@),
{
    let cs = chars_of(text.as_str());
    let needs_separator = if cs.len() == 0 {
        false
    } else {
        let last = cs[cs.len() - 1];
        match platform {
            Platform::Windows => !(last == '\\' || last == '/'),
            Platform::Unix => last != '/',
        }
    };
    if needs_separator {
        match platform {
            Platform::Windows => text.push('\\'),
            Platform::Unix => text.push('/'),
        }
    }
    text.append(name);
}

impl IrisPath {
    /// The text of this location on `platform` (what
    /// `PathBuf::to_string_lossy` shows after joining the names onto the
    /// root).
    pub fn render(&self, platform: Platform) -> (r: String)
        ensures
            r@ == rendered(platform, self@),
    {
        let mut out = owned(self.root.as_str());
        let mut i: usize = 0;
        while i < self.parts.len()
            invariant
                i <= self.parts.len(),
                out@ == rendered_prefix(platform, self@, i as nat),
            decreases self.parts.len() - i,
        {
            push_name_exec(platform, &mut out, self.parts[i].as_str());
            i = i + 1;
        }
        out
    }
}

proof fn lemma_prefix_of_child(platform: Platform, p: PathView, name: Seq<char>, k: nat)
    requires
        k <= p.parts.len(),
    ensures
        rendered_prefix(platform, p.child(name), k) == rendered_prefix(platform, p, k),
    decreases k,
{
    if k > 0 {
        lemma_prefix_of_child(platform, p, name, (k - 1) as nat);
        assert(p.child(name).parts[k - 1] == p.parts[k - 1]);
    }
}

/// Joining a name onto a location writes it after the location's text,
/// with a separator between them when one is needed: the text of a joined
/// location is the text of its parent with the name pushed on.
pub proof fn lemma_render_join(platform: Platform, p: PathView, name: Seq<char>)
    ensures
        rendered(platform, p.child(name)) == push_name(platform, rendered(platform, p), name),
{
    lemma_prefix_of_child(platform, p, name, p.parts.len());
    assert(p.child(name).parts[p.parts.len() as int] == name);
}

// ---------------------------------------------------------------------------
// User-facing folders
// ---------------------------------------------------------------------------

/// `<root>/input`: clips copied in by the user.
pub fn input_dir(iris: &IrisPath) -> (r: IrisPath)
    ensures
        r@ == iris@.child("input"@),
{
    iris.join("input")
}

/// `<root>/output`: one work folder per clip.
pub fn output_dir(iris: &IrisPath) -> (r: IrisPath)
    ensures
        r@ == iris@.child("output"@),
{
    iris.join("output")
}

/// `<root>/models`.
pub fn models_dir(iris: &IrisPath) -> (r: IrisPath)
    ensures
        r@ == iris@.child("models"@),
{
    iris.join("models")
}

/// `<root>/models/alpha_models`: alpha hint generators.
pub fn alpha_models_dir(iris: &IrisPath) -> (r: IrisPath)
    ensures
        r@ == iris@.child2("models"@, "alpha_models"@),
{
    models_dir(iris).join("alpha_models")
}

/// `<root>/models/key_models`: CorridorKey weights.
pub fn corridor_models_dir(iris: &IrisPath) -> (r: IrisPath)
    ensures
        r@ == iris@.child2("models"@, "key_models"@),
{
    models_dir(iris).join("key_models")
}

/// `<root>/models/key_models/CorridorKey_v1.0.pth`: the keyer's weights.
pub fn corridor_model_file(iris: &IrisPath) -> (r: IrisPath)
    ensures
        r@ == iris@.child2("models"@, "key_models"@).child("CorridorKey_v1.0.pth"@),
{
    corridor_models_dir(iris).join("CorridorKey_v1.0.pth")
}

/// `<root>/output/<clip_stem>`: the work folder of one clip.
pub fn work_dir_for(iris: &IrisPath, clip_stem: &str) -> (r: IrisPath)
    ensures
        r@ == iris@.child2("output"@, clip_stem@),
{
    output_dir(iris).join(clip_stem)
}

/// `<root>/output/<clip_stem>/meta.json`: what is needed to restore the clip
/// into the queue on the next launch.
pub fn meta_path_for(iris: &IrisPath, clip_stem: &str) -> (r: IrisPath)
    ensures
        r@ == iris@.child2("output"@, clip_stem@).child("meta.json"@),
{
    work_dir_for(iris, clip_stem).join("meta.json")
}

// ---------------------------------------------------------------------------
// App-owned runtime folders
// ---------------------------------------------------------------------------

/// `<root>/runtime`.
pub fn runtime_dir(iris: &IrisPath) -> (r: IrisPath)
    ensures
        r@ == iris@.child("runtime"@),
{
    iris.join("runtime")
}

/// The runtime folder, under its older name.
pub fn internal_dir(iris: &IrisPath) -> (r: IrisPath)
    ensures
        r@ == iris@.child("runtime"@),
{
    runtime_dir(iris)
}

/// `<root>/runtime/iris_bridge.py`: the Python side of the bridge.
pub fn bridge_script(iris: &IrisPath) -> (r: IrisPath)
    ensures
        r@ == iris@.child2("runtime"@, "iris_bridge.py"@),
{
    runtime_dir(iris).join("iris_bridge.py")
}

/// `<root>/runtime/python`: the standalone Python runtime.
pub fn python_dir(iris: &IrisPath) -> (r: IrisPath)
    ensures
        r@ == iris@.child2("runtime"@, "python"@),
{
    runtime_dir(iris).join("python")
}

/// `<root>/runtime/venv`: the virtual environment.
pub fn venv_dir(iris: &IrisPath) -> (r: IrisPath)
    ensures
        r@ == iris@.child2("runtime"@, "venv"@),
{
    runtime_dir(iris).join("venv")
}

/// `<root>/runtime/corridor`: the CorridorKey scripts.
pub fn corridor_src_dir(iris: &IrisPath) -> (r: IrisPath)
    ensures
        r@ == iris@.child2("runtime"@, "corridor"@),
{
    runtime_dir(iris).join("corridor")
}

/// The interpreter inside the virtual environment:
/// `venv/Scripts/python.exe` on Windows, `venv/bin/python3` elsewhere.
pub fn venv_python(iris: &IrisPath, platform: Platform) -> (r: IrisPath)
    ensures
        r@ == match platform {
            Platform::Windows => iris@.child2("runtime"@, "venv"@).child2(
                "Scripts"@,
                "python.exe"@,
            ),
            Platform::Unix => iris@.child2("runtime"@, "venv"@).child2("bin"@, "python3"@),
        },
{
    match platform {
        Platform::Windows => venv_dir(iris).join("Scripts").join("python.exe"),
        Platform::Unix => venv_dir(iris).join("bin").join("python3"),
    }
}

/// pip inside the virtual environment (its presence means the environment
/// is ready): `venv/Scripts/pip.exe` on Windows, `venv/bin/pip` elsewhere.
pub fn venv_pip(iris: &IrisPath, platform: Platform) -> (r: IrisPath)
    ensures
        r@ == match platform {
            Platform::Windows => iris@.child2("runtime"@, "venv"@).child2(
                "Scripts"@,
                "pip.exe"@,
            ),
            Platform::Unix => iris@.child2("runtime"@, "venv"@).child2("bin"@, "pip"@),
        },
{
    match platform {
        Platform::Windows => venv_dir(iris).join("Scripts").join("pip.exe"),
        Platform::Unix => venv_dir(iris).join("bin").join("pip"),
    }
}

/// The standalone interpreter: `python/python/python.exe` on Windows,
/// `python/python/bin/python3` elsewhere.
pub fn python_binary(iris: &IrisPath, platform: Platform) -> (r: IrisPath)
    ensures
        r@ == match platform {
            Platform::Windows => iris@.child2("runtime"@, "python"@).child2(
                "python"@,
                "python.exe"@,
            ),
            Platform::Unix => iris@.child2("runtime"@, "python"@).child2("python"@, "bin"@).child(
                "python3"@,
            ),
        },
{
    match platform {
        Platform::Windows => python_dir(iris).join("python").join("python.exe"),
        Platform::Unix => python_dir(iris).join("python").join("bin").join("python3"),
    }
}

/// Where the alpha model called `name` lives: its own folder
/// `alpha_models/<name>` when that folder exists (`dir_exists`), otherwise the
/// single weights file `alpha_models/<name>.pth`.
pub fn alpha_model_path(iris: &IrisPath, name: &str, dir_exists: bool) -> (r: IrisPath)
    ensures
        r@ == iris@.child2("models"@, "alpha_models"@).child(
            if dir_exists {
                name@
            } else {
                name@ + ".pth"@
            },
        ),
{
    if dir_exists {
        alpha_models_dir(iris).join(name)
    } else {
        let file = concat2(name, ".pth");
        alpha_models_dir(iris).join(file.as_str())
    }
}

/// The folders created at start-up, in order: input, output, key models,
/// alpha models, the Python runtime and the virtual environment.
pub fn startup_dirs(iris: &IrisPath) -> (r: Vec<IrisPath>)
    ensures
        r@.len() == 6,
        r@[0]@ == iris@.child("input"@),
        r@[1]@ == iris@.child("output"@),
        r@[2]@ == iris@.child2("models"@, "key_models"@),
        r@[3]@ == iris@.child2("models"@, "alpha_models"@),
        r@[4]@ == iris@.child2("runtime"@, "python"@),
        r@[5]@ == iris@.child2("runtime"@, "venv"@),
{
    let mut r: Vec<IrisPath> = Vec::new();
    r.push(input_dir(iris));
    r.push(output_dir(iris));
    r.push(corridor_models_dir(iris));
    r.push(alpha_models_dir(iris));
    r.push(python_dir(iris));
    r.push(venv_dir(iris));
    r
}

} // verus!
