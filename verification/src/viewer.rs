//! The frame viewer: which images it shows and how its transport moves.
//!
//! Frames are numbered from zero in the viewer and from one on disk
//! (`frame_000001.png` is frame 0).  While a clip has frames, every move of
//! the transport keeps the current frame inside the clip.
use vstd::prelude::*;
use crate::text::{
    chars_of, concat2, has_prefix, owned, same_text, starts_with, zero_padded,
    zero_padded_string,
};

verus! {

/// Which pass the right-hand pane shows.
#[derive(Clone, Copy, Debug, PartialEq, Eq, Structural)]
pub enum ViewMode {
    In,
    Fg,
    Matte,
    Comp,
    Proc,
}

/// The button label of a view mode.
pub open spec fn mode_label(m: ViewMode) -> Seq<char> {
    match m {
        ViewMode::In => "IN"@,
        ViewMode::Fg => "FG"@,
        ViewMode::Matte => "MATTE"@,
        ViewMode::Comp => "COMP"@,
        ViewMode::Proc => "PROC"@,
    }
}

/// The folder of the clip's work folder that holds a view mode's frames.
pub open spec fn mode_subdir(m: ViewMode) -> Seq<char> {
    match m {
        ViewMode::In => "Input"@,
        ViewMode::Fg => "Output/FG"@,
        ViewMode::Matte => "Output/Matte"@,
        ViewMode::Comp => "Output/Comp"@,
        ViewMode::Proc => "Output/Processed"@,
    }
}

impl ViewMode {
    /// The button label.
    pub fn label(&self) -> (r: &'static str)
        ensures
            r@ == mode_label(*self),
    {
        match self {
            ViewMode::In => "IN",
            ViewMode::Fg => "FG",
            ViewMode::Matte => "MATTE",
            ViewMode::Comp => "COMP",
            ViewMode::Proc => "PROC",
        }
    }

    /// The frames folder, relative to the clip's work folder.
    pub fn subdir(&self) -> (r: &'static str)
        ensures
            r@ == mode_subdir(*self),
    {
        match self {
            ViewMode::In => "Input",
            ViewMode::Fg => "Output/FG",
            ViewMode::Matte => "Output/Matte",
            ViewMode::Comp => "Output/Comp",
            ViewMode::Proc => "Output/Processed",
        }
    }
}

/// The buttons of the mode bar, in order.
pub open spec fn mode_order() -> Seq<ViewMode> {
    seq![ViewMode::In, ViewMode::Fg, ViewMode::Matte, ViewMode::Comp, ViewMode::Proc]
}

/// The modes in the order the mode bar shows them.
pub fn mode_buttons() -> (r: Vec<ViewMode>)
    ensures
        r@ == mode_order(),
{
    let r = vec![ViewMode::In, ViewMode::Fg, ViewMode::Matte, ViewMode::Comp, ViewMode::Proc];
    assert(r@ =~= mode_order());
    r
}

// ---------------------------------------------------------------------------
// Image paths
// ---------------------------------------------------------------------------

/// `<work>/<folder>/frame_NNNNNN.png` for the on-disk frame number `n`
/// (six digits at least).
pub open spec fn frame_file(work: Seq<char>, folder: Seq<char>, n: nat) -> Seq<char> {
    work + "/"@ + folder + "/frame_"@ + zero_padded(n, 6) + ".png"@
}

/// `<work>/thumb.png`: the clip's thumbnail.
pub open spec fn thumb_file(work: Seq<char>) -> Seq<char> {
    work + "/thumb.png"@
}

/// The path of the frame file numbered `n` in `folder` of `work`.
pub fn frame_file_path(work: &str, folder: &str, n: u64) -> (r: String)
    ensures
        r@ == frame_file(work@, folder@, n as nat),
{
    let mut out = owned(work);
    out.append("/");
    out.append(folder);
    out.append("/frame_");
    out.append(zero_padded_string(n, 6).as_str());
    out.append(".png");
    out
}

/// The path of the clip's thumbnail.
pub fn thumb_path(work: &str) -> (r: String)
    ensures
        r@ == thumb_file(work@),
{
    concat2(work, "/thumb.png")
}

/// What the left pane shows: the current input frame, or the thumbnail
/// while the clip has no frames.
pub open spec fn input_image(work: Seq<char>, frame: u32, total: u32) -> Seq<char> {
    if total > 0 {
        frame_file(work, "Input"@, frame as nat + 1)
    } else {
        thumb_file(work)
    }
}

/// The left pane's image.
pub fn input_image_path(work: &str, frame: u32, total: u32) -> (r: String)
    requires
        total > 0 ==> frame < u32::MAX,
    ensures
        r@ == input_image(work@, frame, total),
{
    if total > 0 {
        frame_file_path(work, "Input", frame as u64 + 1)
    } else {
        thumb_path(work)
    }
}

/// The inference matte of the current frame (the right pane prefers it to
/// the hint in Matte mode once it exists).
pub fn matte_frame_path(work: &str, frame: u32) -> (r: String)
    requires
        frame < u32::MAX,
    ensures
        r@ == frame_file(work@, "Output/Matte"@, frame as nat + 1),
{
    frame_file_path(work, "Output/Matte", frame as u64 + 1)
}

/// What the right pane shows.  With frames: in Matte mode with a hint set,
/// the inference matte of the frame if it exists (`matte_exists`), else the
/// hint image; otherwise the frame of the mode's folder.  Without frames: the
/// thumbnail.
pub open spec fn output_image(
    work: Seq<char>,
    mode: ViewMode,
    frame: u32,
    total: u32,
    hint: Seq<char>,
    matte_exists: bool,
) -> Seq<char> {
    if total > 0 {
        if mode == ViewMode::Matte && hint.len() > 0 {
            if matte_exists {
                frame_file(work, "Output/Matte"@, frame as nat + 1)
            } else {
                hint
            }
        } else {
            frame_file(work, mode_subdir(mode), frame as nat + 1)
        }
    } else {
        thumb_file(work)
    }
}

/// The right pane's image.
pub fn output_image_path(
    work: &str,
    mode: ViewMode,
    frame: u32,
    total: u32,
    hint: &str,
    matte_exists: bool,
) -> (r: String)
    requires
        total > 0 ==> frame < u32::MAX,
    ensures
        r@ == output_image(work@, mode, frame, total, hint@, matte_exists),
{
    if total > 0 {
        if mode == ViewMode::Matte && chars_of(hint).len() > 0 {
            if matte_exists {
                matte_frame_path(work, frame)
            } else {
                owned(hint)
            }
        } else {
            frame_file_path(work, mode.subdir(), frame as u64 + 1)
        }
    } else {
        thumb_path(work)
    }
}

// ---------------------------------------------------------------------------
// The hint button
// ---------------------------------------------------------------------------

/// The hint button's label for the current hint status.
pub open spec fn hint_label(status: Seq<char>) -> Seq<char> {
    if status == "GENERATING..."@ {
        "GENERATING HINT..."@
    } else if has_prefix(status, "✓"@) {
        "HINT SET — CLICK TO UPDATE"@
    } else {
        "USE AS ALPHA HINT →"@
    }
}

/// The hint button's label.
pub fn hint_button_label(status: &str) -> (r: &'static str)
    ensures
        r@ == hint_label(status@),
{
    if same_text(status, "GENERATING...") {
        "GENERATING HINT..."
    } else if starts_with(status, "✓") {
        "HINT SET — CLICK TO UPDATE"
    } else {
        "USE AS ALPHA HINT →"
    }
}

/// Whether a hint is being generated (the button is dimmed).
pub fn hint_generating(status: &str) -> (r: bool)
    ensures
        r == (status@ == "GENERATING..."@),
{
    same_text(status, "GENERATING...")
}

// ---------------------------------------------------------------------------
// Transport
// ---------------------------------------------------------------------------

/// The last frame of a clip of `total` frames (zero for an empty clip).
pub open spec fn last_frame(total: u32) -> u32 {
    if total > 0 {
        (total - 1) as u32
    } else {
        0
    }
}

/// Ten frames back, stopping at the first frame.
pub fn skip_back(frame: u32) -> (r: u32)
    ensures
        r == if frame >= 10 {
            (frame - 10) as u32
        } else {
            0
        },
{
    frame.saturating_sub(10)
}

/// One frame back, stopping at the first frame.
pub fn step_back(frame: u32) -> (r: u32)
    ensures
        r == if frame >= 1 {
            (frame - 1) as u32
        } else {
            0
        },
{
    frame.saturating_sub(1)
}

/// One frame forward, stopping at the last frame.
pub fn step_forward(frame: u32, total: u32) -> (r: u32)
    requires
        frame < u32::MAX,
    ensures
        r == if frame + 1 <= last_frame(total) {
            (frame + 1) as u32
        } else {
            last_frame(total)
        },
{
    let last = total.saturating_sub(1);
    let next = frame + 1;
    if next <= last {
        next
    } else {
        last
    }
}

/// Ten frames forward, stopping at the last frame.
pub fn skip_forward(frame: u32, total: u32) -> (r: u32)
    requires
        frame <= u32::MAX - 10,
    ensures
        r == if frame + 10 <= last_frame(total) {
            (frame + 10) as u32
        } else {
            last_frame(total)
        },
{
    let last = total.saturating_sub(1);
    let next = frame + 10;
    if next <= last {
        next
    } else {
        last
    }
}

/// One tick of playback (about 24 per second): nothing while stopped or
/// without frames; on (or past) the last frame, playback stops there, on the
/// last frame; otherwise the next frame.  Returns the new playing flag and frame.
pub open spec fn playback(playing: bool, frame: u32, total: u32) -> (bool, u32) {
    if !playing || total == 0 {
        (playing, frame)
    } else if frame >= last_frame(total) {
        (false, last_frame(total))
    } else {
        (true, (frame + 1) as u32)
    }
}

/// Advances playback by one tick.
pub fn playback_tick(playing: bool, frame: u32, total: u32) -> (r: (bool, u32))
    ensures
        r == playback(playing, frame, total),
{
    if !playing {
        return (playing, frame);
    }
    if total == 0 {
        return (playing, frame);
    }
    let last = total.saturating_sub(1);
    if frame >= last {
        (false, last)
    } else {
        (true, frame + 1)
    }
}

/// Every move of the transport keeps a frame that lies inside a clip with
/// frames inside that clip.
pub proof fn lemma_transport_stays_in_clip(frame: u32, total: u32)
    requires
        frame < total,
    ensures
        (if frame >= 10 { (frame - 10) as u32 } else { 0u32 }) < total,
        (if frame >= 1 { (frame - 1) as u32 } else { 0u32 }) < total,
        (if frame + 1 <= last_frame(total) { (frame + 1) as u32 } else { last_frame(total) })
            < total,
        (if frame + 10 <= last_frame(total) { (frame + 10) as u32 } else { last_frame(total) })
            < total,
        playback(true, frame, total).1 < total,
{
}

/// Stepping forward and then back returns to the same frame, unless the
/// step forward was stopped by the end of the clip.
pub proof fn lemma_step_back_undoes_step_forward(frame: u32, total: u32)
    requires
        frame + 1 < total,
    ensures
        ({
            let fwd = if frame + 1 <= last_frame(total) {
                (frame + 1) as u32
            } else {
                last_frame(total)
            };
            (if fwd >= 1 { (fwd - 1) as u32 } else { 0u32 }) == frame
        }),
{
}

/// Playback never runs past the end: from any frame of a playing clip, it
/// either moves to the next frame or stops on the last.
pub proof fn lemma_playback_stops_at_last_frame(frame: u32, total: u32)
    requires
        total > 0,
    ensures
        playback(true, frame, total) == (true, (frame + 1) as u32) || playback(
            true,
            frame,
            total,
        ) == (false, (total - 1) as u32),
        playback(true, frame, total).0 ==> playback(true, frame, total).1 == frame + 1
            && frame + 1 < total,
{
}

} // verus!
