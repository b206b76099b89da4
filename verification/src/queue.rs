//! The clip queue: each clip's badge, how a clip is added, and how the queue
//! is restored from the work folders of earlier sessions.
use vstd::prelude::*;
use crate::json::{JsonDoc, json_member_str, json_parses, json_pretty_pair, pretty_pair};
use crate::names::{file_extension, file_stem, extension_of, stem_of};
use crate::paths::{IrisPath, Platform, input_dir, rendered, work_dir_for};
use crate::text::{chars_of, owned, same_text};

verus! {

/// Where a clip stands in the pipeline.
#[derive(Clone, Copy, Debug, PartialEq, Eq, Structural)]
pub enum ClipStatus {
    Extract,
    Raw,
    Alpha,
    Ready,
    Done,
    Error,
}

/// The badge text of a clip status.
pub open spec fn status_label(s: ClipStatus) -> Seq<char> {
    match s {
        ClipStatus::Extract => "EXTRACT"@,
        ClipStatus::Raw => "RAW"@,
        ClipStatus::Alpha => "ALPHA"@,
        ClipStatus::Ready => "READY"@,
        ClipStatus::Done => "DONE"@,
        ClipStatus::Error => "ERROR"@,
    }
}

impl ClipStatus {
    /// The badge text.
    pub fn label(&self) -> (r: &'static str)
        ensures
            r@ == status_label(*self),
    {
        match self {
            ClipStatus::Extract => "EXTRACT",
            ClipStatus::Raw => "RAW",
            ClipStatus::Alpha => "ALPHA",
            ClipStatus::Ready => "READY",
            ClipStatus::Done => "DONE",
            ClipStatus::Error => "ERROR",
        }
    }
}

/// The colour of a badge: a colour of the theme's palette or a fixed one.
#[derive(Clone, Copy, Debug, PartialEq, Eq, Structural)]
pub enum BadgeColor {
    Accent,
    Secondary,
    /// `#4A9EFF`.
    Blue,
    /// `#FFD700`.
    Gold,
    Success,
    Error,
}

/// The badge colour of each status.
pub open spec fn badge_color(s: ClipStatus) -> BadgeColor {
    match s {
        ClipStatus::Extract => BadgeColor::Accent,
        ClipStatus::Raw => BadgeColor::Secondary,
        ClipStatus::Alpha => BadgeColor::Blue,
        ClipStatus::Ready => BadgeColor::Gold,
        ClipStatus::Done => BadgeColor::Success,
        ClipStatus::Error => BadgeColor::Error,
    }
}

/// The badge colour of `s`.
pub fn badge_color_of(s: ClipStatus) -> (r: BadgeColor)
    ensures
        r == badge_color(s),
{
    match s {
        ClipStatus::Extract => BadgeColor::Accent,
        ClipStatus::Raw => BadgeColor::Secondary,
        ClipStatus::Alpha => BadgeColor::Blue,
        ClipStatus::Ready => BadgeColor::Gold,
        ClipStatus::Done => BadgeColor::Success,
        ClipStatus::Error => BadgeColor::Error,
    }
}

// ---------------------------------------------------------------------------
// Frame counting
// ---------------------------------------------------------------------------

/// Whether a file name has the extension `png`.
pub open spec fn is_png(name: Seq<char>) -> bool {
    file_extension(name) == Some("png"@)
}

/// How many of `names` are PNG files.
pub open spec fn png_count(names: Seq<Seq<char>>) -> nat
    decreases names.len(),
{
    if names.len() == 0 {
        0
    } else {
        png_count(names.drop_last()) + if is_png(names.last()) {
            1nat
        } else {
            0nat
        }
    }
}

proof fn lemma_png_count_bound(names: Seq<Seq<char>>)
    ensures
        png_count(names) <= names.len(),
    decreases names.len(),
{
    if names.len() > 0 {
        lemma_png_count_bound(names.drop_last());
    }
}

/// Counts the extracted frames among the file names of a clip's `Input`
/// folder (cut to 32 bits, as the count is stored).
pub fn count_png_frames(names: &Vec<String>) -> (r: u32)
    ensures
        r == png_count(names.deep_view()) as u32,
{
    let mut count: usize = 0;
    let mut i: usize = 0;
    while i < names.len()
        invariant
            i <= names.len(),
            count == png_count(names.deep_view().take(i as int)),
        decreases names.len() - i,
    {
        proof {
            lemma_png_count_bound(names.deep_view().take(i as int));
            assert(names.deep_view().take(i + 1).drop_last() =~= names.deep_view().take(i as int));
        }
        let ext = extension_of(names[i].as_str());
        let png = match &ext {
            Some(x) => same_text(x.as_str(), "png"),
            None => false,
        };
        if png {
            count = count + 1;
        }
        i = i + 1;
    }
    assert(names.deep_view().take(names.len() as int) =~= names.deep_view());
    count as u32
}

// ---------------------------------------------------------------------------
// Restoring the queue
// ---------------------------------------------------------------------------

/// The badge a restored clip gets from what its work folder holds: Done once
/// inference has written mattes, Ready once a hint exists, Raw otherwise.
pub open spec fn restored_status(output_has_frames: bool, hint_exists: bool) -> ClipStatus {
    if output_has_frames {
        ClipStatus::Done
    } else if hint_exists {
        ClipStatus::Ready
    } else {
        ClipStatus::Raw
    }
}

/// The badge of a restored clip.  (Extracted input frames do not change it:
/// a clip with frames but no hint is still Raw.)
pub fn restore_status(output_has_frames: bool, hint_exists: bool) -> (r: ClipStatus)
    ensures
        r == restored_status(output_has_frames, hint_exists),
{
    if output_has_frames {
        ClipStatus::Done
    } else if hint_exists {
        ClipStatus::Ready
    } else {
        ClipStatus::Raw
    }
}

/// What a clip's `meta.json` restores: its file name and stored path, when
/// the text is JSON and names a file (a missing or non-text `path` reads as
/// empty).
pub open spec fn restored_meta(text: Seq<char>) -> Option<(Seq<char>, Seq<char>)> {
    if !json_parses(text) {
        None
    } else {
        let filename = match json_member_str(text, "filename"@) {
            Some(f) => f,
            None => Seq::empty(),
        };
        let path = match json_member_str(text, "path"@) {
            Some(p) => p,
            None => Seq::empty(),
        };
        if filename.len() == 0 {
            None
        } else {
            Some((filename, path))
        }
    }
}

/// Reads a clip's `meta.json`.
pub fn read_meta(text: &str) -> (r: Option<(String, String)>)
    ensures
        match r {
            Some((f, p)) => restored_meta(text@) == Some((f@, p@)),
            None => restored_meta(text@) is None,
        },
{
    let doc = match JsonDoc::parse(text) {
        Some(d) => d,
        None => return None,
    };
    let filename = match doc.member_str("filename") {
        Some(f) => f,
        None => String::new(),
    };
    let path = match doc.member_str("path") {
        Some(p) => p,
        None => String::new(),
    };
    if chars_of(filename.as_str()).len() == 0 {
        None
    } else {
        Some((filename, path))
    }
}

/// The `meta.json` text written when a clip is added: its file name and the
/// path of its copy in `input/`.
pub open spec fn meta_text(filename: Seq<char>, path: Seq<char>) -> Seq<char> {
    json_pretty_pair("filename"@, filename, "path"@, path)
}

/// Prints a clip's `meta.json`.
pub fn write_meta(filename: &str, path: &str) -> (r: String)
    ensures
        r@ == meta_text(filename@, path@),
        json_parses(r@),
        json_member_str(r@, "filename"@) == Some(filename@),
        json_member_str(r@, "path"@) == Some(path@),
{
    let r = pretty_pair("filename", filename, "path", path);
    proof {
        reveal_strlit("filename");
        reveal_strlit("path");
        assert("filename"@[0] != "path"@[0]);
    }
    r
}

/// What a restored queue shows of a clip, given its `meta.json`: a clip
/// written when it was added comes back with the same name and path.
pub proof fn lemma_meta_round_trip(filename: Seq<char>, path: Seq<char>, text: Seq<char>)
    requires
        filename.len() > 0,
        json_parses(text),
        json_member_str(text, "filename"@) == Some(filename),
        json_member_str(text, "path"@) == Some(path),
    ensures
        restored_meta(text) == Some((filename, path)),
{
}

// ---------------------------------------------------------------------------
// Adding a clip
// ---------------------------------------------------------------------------

/// Everything that adding a picked video file decides.
pub struct AddedClip {
    /// The video's file name, shown on the card.
    pub name: String,
    /// The file name without its extension: the clip's folder name.
    pub stem: String,
    /// `output/<stem>` as text.
    pub work_dir: String,
    /// `input/<name>` as text: where the video is copied to.
    pub stored_path: String,
    /// `output/<stem>/meta.json`.
    pub meta_path: IrisPath,
    /// The text written to `meta.json`.
    pub meta: String,
    /// `<work_dir>/thumb.png`.
    pub thumb: String,
}

/// Decides where a picked video goes.  `name` is the picked file's name.
pub fn add_clip(iris: &IrisPath, platform: Platform, name: &str) -> (r: AddedClip)
    ensures
        r.name@ == name@,
        r.stem@ == file_stem(name@),
        r.work_dir@ == rendered(platform, iris@.child2("output"@, file_stem(name@))),
        r.stored_path@ == rendered(platform, iris@.child2("input"@, name@)),
        r.meta_path@ == iris@.child2("output"@, file_stem(name@)).child("meta.json"@),
        r.meta@ == meta_text(name@, r.stored_path@),
        r.thumb@ == r.work_dir@ + "/thumb.png"@,
{
    let stem = stem_of(name);
    let work = work_dir_for(iris, stem.as_str());
    let work_dir = work.render(platform);
    let stored_path = input_dir(iris).join(name).render(platform);
    let meta_path = work.join("meta.json");
    let meta = write_meta(name, stored_path.as_str());
    let thumb = crate::viewer::thumb_path(work_dir.as_str());
    AddedClip { name: owned(name), stem, work_dir, stored_path, meta_path, meta, thumb }
}

/// The ffmpeg arguments that grab the first frame of `video` as `thumb`.
pub open spec fn thumbnail_args(video: Seq<char>, thumb: Seq<char>) -> Seq<Seq<char>> {
    seq!["-i"@, video, "-frames:v"@, "1"@, "-q:v"@, "2"@, thumb, "-y"@]
}

/// The ffmpeg arguments for a clip's thumbnail.
pub fn thumbnail_command_args(video: &str, thumb: &str) -> (r: Vec<String>)
    ensures
        r.deep_view() == thumbnail_args(video@, thumb@),
{
    let r = vec![
        owned("-i"),
        owned(video),
        owned("-frames:v"),
        owned("1"),
        owned("-q:v"),
        owned("2"),
        owned(thumb),
        owned("-y"),
    ];
    assert(r.deep_view() =~= thumbnail_args(video@, thumb@));
    r
}

/// The file-name filter of the add-clip dialog.
pub open spec fn video_extensions() -> Seq<Seq<char>> {
    seq!["mp4"@, "mov"@, "avi"@, "mkv"@, "webm"@]
}

/// The extensions the add-clip dialog offers.
pub fn video_extension_list() -> (r: Vec<&'static str>)
    ensures
        r@.len() == 5,
        forall|i: int| 0 <= i < 5 ==> #[trigger] r@[i]@ == video_extensions()[i],
{
    let r = vec!["mp4", "mov", "avi", "mkv", "webm"];
    r
}

/// The first clip of a session becomes the active one: the active work
/// folder is only taken when none is set.
pub open spec fn takes_active(active: Seq<char>) -> bool {
    active.len() == 0
}

/// Whether a clip added or restored now becomes the active one.
pub fn becomes_active(active: &str) -> (r: bool)
    ensures
        r == takes_active(active@),
{
    chars_of(active).len() == 0
}

/// Paths inside a restored clip's work folder that decide its badge.
pub struct ClipProbe {
    /// `Output/Matte`: holds mattes once inference has run.
    pub matte_dir: IrisPath,
    /// `AlphaHint/alpha_hint.png`: the hint, once generated.
    pub hint_file: IrisPath,
    /// `Input`: the extracted frames.
    pub input_dir: IrisPath,
    /// `thumb.png`.
    pub thumb: IrisPath,
}

/// The probe paths of the work folder `work`.
pub fn clip_probe(work: &IrisPath) -> (r: ClipProbe)
    ensures
        r.matte_dir@ == work@.child2("Output"@, "Matte"@),
        r.hint_file@ == work@.child2("AlphaHint"@, "alpha_hint.png"@),
        r.input_dir@ == work@.child("Input"@),
        r.thumb@ == work@.child("thumb.png"@),
{
    ClipProbe {
        matte_dir: work.join("Output").join("Matte"),
        hint_file: work.join("AlphaHint").join("alpha_hint.png"),
        input_dir: work.join("Input"),
        thumb: work.join("thumb.png"),
    }
}

/// What restoring the first clip of a session sets in the viewer: the clip
/// becomes active with its frame count, and an existing hint is shown in
/// Matte mode.
pub open spec fn first_restore(
    work: Seq<char>,
    input_frames: u32,
    hint: Option<Seq<char>>,
) -> crate::panel::UpdateView {
    match hint {
        Some(h) => crate::panel::UpdateView {
            active_work_dir: Some(work),
            total_frames: Some(input_frames),
            hint_path: Some(h),
            hint_status: Some("✓ HINT SET"@),
            view_mode: Some(crate::viewer::ViewMode::Matte),
            ..crate::panel::unchanged()
        },
        None => crate::panel::UpdateView {
            active_work_dir: Some(work),
            total_frames: Some(input_frames),
            ..crate::panel::unchanged()
        },
    }
}

/// The update for a restored clip: only the first clip of the session
/// (while no clip is active) touches the viewer.  `hint` is the text of the
/// clip's hint file when it exists.
pub fn restore_update(active: &str, work: &str, input_frames: u32, hint: Option<String>) -> (r:
    crate::panel::PanelUpdate)
    ensures
        r@ == if takes_active(active@) {
            first_restore(work@, input_frames, hint.deep_view())
        } else {
            crate::panel::unchanged()
        },
{
    if !becomes_active(active) {
        return crate::panel::PanelUpdate::none();
    }
    match hint {
        Some(h) => crate::panel::PanelUpdate {
            active_work_dir: Some(owned(work)),
            total_frames: Some(input_frames),
            hint_path: Some(h),
            hint_status: Some(owned("✓ HINT SET")),
            view_mode: Some(crate::viewer::ViewMode::Matte),
            ..crate::panel::PanelUpdate::none()
        },
        None => crate::panel::PanelUpdate {
            active_work_dir: Some(owned(work)),
            total_frames: Some(input_frames),
            ..crate::panel::PanelUpdate::none()
        },
    }
}

} // verus!
