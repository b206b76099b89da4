//! How the panels react to bridge events and button presses.
//!
//! The screen's shared state (footer status and progress, the viewer's frame
//! count and hint, the selected clip's badge, ...) lives in the host.  Each
//! reaction here says which of those values an event sets and to what; a
//! `PanelUpdate` lists them, and every value it leaves `None` is untouched.
use vstd::prelude::*;
use crate::event::{BridgeEvent, EventView};
use crate::queue::ClipStatus;
use crate::text::{concat2, owned};
use crate::viewer::ViewMode;

verus! {

/// A progress-bar position: empty, full, or `current / total`.
#[derive(Clone, Copy, Debug, PartialEq, Eq, Structural)]
pub enum Fraction {
    Zero,
    Complete,
    Ratio { current: u32, total: u32 },
}

/// The values of the screen that one reaction sets.
pub struct PanelUpdate {
    /// The footer's status line.
    pub status: Option<String>,
    /// The footer's progress bar.
    pub progress: Option<Fraction>,
    /// Whether an inference run is in progress.
    pub running: Option<bool>,
    /// The badge of the clip the event belongs to.
    pub clip_status: Option<ClipStatus>,
    /// The number of frames the viewer can scrub through.
    pub total_frames: Option<u32>,
    /// Whether frames are being extracted.
    pub extracting: Option<bool>,
    /// The alpha hint image shown in Matte mode.
    pub hint_path: Option<String>,
    /// The hint button's status text.
    pub hint_status: Option<String>,
    /// The right pane's view mode.
    pub view_mode: Option<ViewMode>,
    /// The clip whose work folder the viewer and the footer act on.
    pub active_work_dir: Option<String>,
    /// The GPU's parallel-worker limits (green, yellow).
    pub limits: Option<(u32, u32)>,
    /// Whether the alpha hint of frame 0 is to be generated now.
    pub start_auto_hint: bool,
}

/// The mathematical form of a `PanelUpdate`.
pub struct UpdateView {
    pub status: Option<Seq<char>>,
    pub progress: Option<Fraction>,
    pub running: Option<bool>,
    pub clip_status: Option<ClipStatus>,
    pub total_frames: Option<u32>,
    pub extracting: Option<bool>,
    pub hint_path: Option<Seq<char>>,
    pub hint_status: Option<Seq<char>>,
    pub view_mode: Option<ViewMode>,
    pub active_work_dir: Option<Seq<char>>,
    pub limits: Option<(u32, u32)>,
    pub start_auto_hint: bool,
}

impl View for PanelUpdate {
    type V = UpdateView;

    open spec fn view(&self) -> UpdateView {
        UpdateView {
            status: self.status.deep_view(),
            progress: self.progress,
            running: self.running,
            clip_status: self.clip_status,
            total_frames: self.total_frames,
            extracting: self.extracting,
            hint_path: self.hint_path.deep_view(),
            hint_status: self.hint_status.deep_view(),
            view_mode: self.view_mode,
            active_work_dir: self.active_work_dir.deep_view(),
            limits: self.limits,
            start_auto_hint: self.start_auto_hint,
        }
    }
}

/// The update that changes nothing.
pub open spec fn unchanged() -> UpdateView {
    UpdateView {
        status: None,
        progress: None,
        running: None,
        clip_status: None,
        total_frames: None,
        extracting: None,
        hint_path: None,
        hint_status: None,
        view_mode: None,
        active_work_dir: None,
        limits: None,
        start_auto_hint: false,
    }
}

impl PanelUpdate {
    /// The update that changes nothing.
    pub fn none() -> (r: PanelUpdate)
        ensures
            r@ == unchanged(),
    {
        PanelUpdate {
            status: None,
            progress: None,
            running: None,
            clip_status: None,
            total_frames: None,
            extracting: None,
            hint_path: None,
            hint_status: None,
            view_mode: None,
            active_work_dir: None,
            limits: None,
            start_auto_hint: false,
        }
    }

    /// Only the status line changes.
    pub fn status_only(s: String) -> (r: PanelUpdate)
        ensures
            r@ == (UpdateView { status: Some(s@), ..unchanged() }),
    {
        PanelUpdate { status: Some(s), ..PanelUpdate::none() }
    }
}

/// The status line and progress bar follow a progress report.
pub open spec fn progress_report(current: u32, total: u32, message: Seq<char>) -> UpdateView {
    UpdateView {
        status: Some(message),
        progress: Some(Fraction::Ratio { current, total }),
        ..unchanged()
    }
}

// ---------------------------------------------------------------------------
// Export (the controls panel's EXPORT VIDEOS button)
// ---------------------------------------------------------------------------

/// How the footer follows an export run.
pub open spec fn export_reaction(e: EventView) -> UpdateView {
    match e {
        EventView::Status(m) => UpdateView { status: Some(m), ..unchanged() },
        EventView::Progress { current, total, message } => progress_report(current, total, message),
        EventView::Done => UpdateView {
            status: Some("✓ Saved to Export/"@),
            progress: Some(Fraction::Complete),
            ..unchanged()
        },
        EventView::Error(m) => UpdateView {
            status: Some("Export error: "@ + m),
            progress: Some(Fraction::Zero),
            ..unchanged()
        },
        _ => unchanged(),
    }
}

/// Reacts to one event of an export run.
pub fn on_export_event(e: &BridgeEvent) -> (r: PanelUpdate)
    ensures
        r@ == export_reaction(e@),
{
    match e {
        BridgeEvent::Status(m) => PanelUpdate::status_only(owned(m.as_str())),
        BridgeEvent::Progress { current, total, message } => PanelUpdate {
            status: Some(owned(message.as_str())),
            progress: Some(Fraction::Ratio { current: *current, total: *total }),
            ..PanelUpdate::none()
        },
        BridgeEvent::Done => PanelUpdate {
            status: Some(owned("✓ Saved to Export/")),
            progress: Some(Fraction::Complete),
            ..PanelUpdate::none()
        },
        BridgeEvent::Error(m) => PanelUpdate {
            status: Some(concat2("Export error: ", m.as_str())),
            progress: Some(Fraction::Zero),
            ..PanelUpdate::none()
        },
        _ => PanelUpdate::none(),
    }
}

/// What pressing EXPORT VIDEOS does: without a selected clip only the status
/// line changes; otherwise an export starts (at 24 frames per second) with
/// the progress bar emptied.
pub open spec fn export_press(work: Seq<char>) -> UpdateView {
    if work.len() == 0 {
        UpdateView { status: Some("No clip selected"@), ..unchanged() }
    } else {
        UpdateView {
            status: Some("Exporting..."@),
            progress: Some(Fraction::Zero),
            ..unchanged()
        }
    }
}

/// The frame rate exports are encoded at, as the bridge receives it.
pub open spec fn export_fps() -> Seq<char> {
    "24"@
}

/// Presses EXPORT VIDEOS for the clip in `work` (empty when none is
/// selected).  Returns the update and whether the export is to be started
/// (with `bridge::export_command` and the frame rate `export_fps_text`).
pub fn on_export_press(work: &str) -> (r: (PanelUpdate, bool))
    ensures
        r.0@ == export_press(work@),
        r.1 == (work@.len() > 0),
{
    if crate::text::chars_of(work).len() == 0 {
        (PanelUpdate::status_only(owned("No clip selected")), false)
    } else {
        (
            PanelUpdate {
                status: Some(owned("Exporting...")),
                progress: Some(Fraction::Zero),
                ..PanelUpdate::none()
            },
            true,
        )
    }
}

/// The frame rate handed to an export run.
pub fn export_fps_text() -> (r: &'static str)
    ensures
        r@ == export_fps(),
{
    "24"
}

// ---------------------------------------------------------------------------
// Inference (the footer's RUN INFERENCE / CANCEL button)
// ---------------------------------------------------------------------------

/// How the footer follows an inference run.
pub open spec fn infer_reaction(e: EventView) -> UpdateView {
    match e {
        EventView::Status(m) => UpdateView { status: Some(m), ..unchanged() },
        EventView::Progress { current, total, message } => progress_report(current, total, message),
        EventView::Done => UpdateView {
            running: Some(false),
            status: Some("Done — switch to COMP or FG to preview"@),
            progress: Some(Fraction::Complete),
            ..unchanged()
        },
        EventView::Error(m) => UpdateView {
            running: Some(false),
            status: Some("Error: "@ + m),
            progress: Some(Fraction::Zero),
            ..unchanged()
        },
        _ => unchanged(),
    }
}

/// Reacts to one event of an inference run.
pub fn on_infer_event(e: &BridgeEvent) -> (r: PanelUpdate)
    ensures
        r@ == infer_reaction(e@),
{
    match e {
        BridgeEvent::Status(m) => PanelUpdate::status_only(owned(m.as_str())),
        BridgeEvent::Progress { current, total, message } => PanelUpdate {
            status: Some(owned(message.as_str())),
            progress: Some(Fraction::Ratio { current: *current, total: *total }),
            ..PanelUpdate::none()
        },
        BridgeEvent::Done => PanelUpdate {
            running: Some(false),
            status: Some(owned("Done — switch to COMP or FG to preview")),
            progress: Some(Fraction::Complete),
            ..PanelUpdate::none()
        },
        BridgeEvent::Error(m) => PanelUpdate {
            running: Some(false),
            status: Some(concat2("Error: ", m.as_str())),
            progress: Some(Fraction::Zero),
            ..PanelUpdate::none()
        },
        _ => PanelUpdate::none(),
    }
}

/// What the footer's run button does.
#[derive(Clone, Copy, Debug, PartialEq, Eq, Structural)]
pub enum InferPress {
    /// A run is in progress: it is marked cancelled.
    Cancel,
    /// No clip is selected: nothing happens.
    NoClip,
    /// A run starts on the selected clip.
    Start,
}

/// The run button's decision.
pub open spec fn infer_press(running: bool, work: Seq<char>) -> InferPress {
    if running {
        InferPress::Cancel
    } else if work.len() == 0 {
        InferPress::NoClip
    } else {
        InferPress::Start
    }
}

/// The update a press of the run button makes.
pub open spec fn infer_press_update(p: InferPress) -> UpdateView {
    match p {
        InferPress::Cancel => UpdateView {
            running: Some(false),
            status: Some("Cancelled"@),
            progress: Some(Fraction::Zero),
            ..unchanged()
        },
        InferPress::NoClip => unchanged(),
        InferPress::Start => UpdateView {
            running: Some(true),
            status: Some("Running inference..."@),
            progress: Some(Fraction::Zero),
            ..unchanged()
        },
    }
}

/// Presses the run button.  On `Start` the host starts
/// `bridge::infer_command` on the selected clip.
pub fn on_infer_press(running: bool, work: &str) -> (r: (InferPress, PanelUpdate))
    ensures
        r.0 == infer_press(running, work@),
        r.1@ == infer_press_update(r.0),
{
    if running {
        (
            InferPress::Cancel,
            PanelUpdate {
                running: Some(false),
                status: Some(owned("Cancelled")),
                progress: Some(Fraction::Zero),
                ..PanelUpdate::none()
            },
        )
    } else if crate::text::chars_of(work).len() == 0 {
        (InferPress::NoClip, PanelUpdate::none())
    } else {
        (
            InferPress::Start,
            PanelUpdate {
                running: Some(true),
                status: Some(owned("Running inference...")),
                progress: Some(Fraction::Zero),
                ..PanelUpdate::none()
            },
        )
    }
}

/// The run button's label.
pub fn run_button_label(running: bool) -> (r: &'static str)
    ensures
        r@ == if running {
            "CANCEL"@
        } else {
            "RUN INFERENCE"@
        },
{
    if running {
        "CANCEL"
    } else {
        "RUN INFERENCE"
    }
}

/// The footer takes the worker limits from a GPU report.
pub open spec fn gpu_reaction(e: EventView) -> UpdateView {
    match e {
        EventView::GpuInfo { green_max, yellow_max, .. } => UpdateView {
            limits: Some((green_max, yellow_max)),
            ..unchanged()
        },
        _ => unchanged(),
    }
}

/// Reacts to one event of the GPU report.
pub fn on_gpu_event(e: &BridgeEvent) -> (r: PanelUpdate)
    ensures
        r@ == gpu_reaction(e@),
{
    match e {
        BridgeEvent::GpuInfo { green_max, yellow_max, .. } => PanelUpdate {
            limits: Some((*green_max, *yellow_max)),
            ..PanelUpdate::none()
        },
        _ => PanelUpdate::none(),
    }
}

// ---------------------------------------------------------------------------
// Adding a clip: extraction, then the automatic hint on frame 0
// ---------------------------------------------------------------------------

/// How the queue, viewer and footer follow the extraction of a new clip.
/// When extraction ends, the clip moves on to alpha generation and the hint
/// of frame 0 is started.
pub open spec fn extract_reaction(e: EventView) -> UpdateView {
    match e {
        EventView::Status(m) => UpdateView { status: Some(m), ..unchanged() },
        EventView::FrameCount(c) => UpdateView { total_frames: Some(c), ..unchanged() },
        EventView::Progress { current, total, message } => UpdateView {
            clip_status: Some(ClipStatus::Extract),
            ..progress_report(current, total, message)
        },
        EventView::Done => UpdateView {
            extracting: Some(false),
            clip_status: Some(ClipStatus::Alpha),
            status: Some("Generating alpha hint..."@),
            progress: Some(Fraction::Zero),
            hint_status: Some("GENERATING..."@),
            start_auto_hint: true,
            ..unchanged()
        },
        EventView::Error(_) => UpdateView {
            extracting: Some(false),
            clip_status: Some(ClipStatus::Error),
            status: Some("Extraction failed"@),
            progress: Some(Fraction::Zero),
            ..unchanged()
        },
        _ => unchanged(),
    }
}

/// Reacts to one event of an extraction run.
pub fn on_extract_event(e: &BridgeEvent) -> (r: PanelUpdate)
    ensures
        r@ == extract_reaction(e@),
{
    match e {
        BridgeEvent::Status(m) => PanelUpdate::status_only(owned(m.as_str())),
        BridgeEvent::FrameCount(c) => PanelUpdate { total_frames: Some(*c), ..PanelUpdate::none() },
        BridgeEvent::Progress { current, total, message } => PanelUpdate {
            clip_status: Some(ClipStatus::Extract),
            status: Some(owned(message.as_str())),
            progress: Some(Fraction::Ratio { current: *current, total: *total }),
            ..PanelUpdate::none()
        },
        BridgeEvent::Done => PanelUpdate {
            extracting: Some(false),
            clip_status: Some(ClipStatus::Alpha),
            status: Some(owned("Generating alpha hint...")),
            progress: Some(Fraction::Zero),
            hint_status: Some(owned("GENERATING...")),
            start_auto_hint: true,
            ..PanelUpdate::none()
        },
        BridgeEvent::Error(_) => PanelUpdate {
            extracting: Some(false),
            clip_status: Some(ClipStatus::Error),
            status: Some(owned("Extraction failed")),
            progress: Some(Fraction::Zero),
            ..PanelUpdate::none()
        },
        _ => PanelUpdate::none(),
    }
}

/// How the screen follows the automatic hint of a new clip: once the hint
/// is ready the clip is ready for inference and the viewer shows the matte.
pub open spec fn auto_hint_reaction(e: EventView) -> UpdateView {
    match e {
        EventView::HintReady(p) => UpdateView {
            hint_path: Some(p),
            hint_status: Some("✓ HINT SET"@),
            view_mode: Some(ViewMode::Matte),
            clip_status: Some(ClipStatus::Ready),
            status: Some("Ready — adjust settings and run inference"@),
            progress: Some(Fraction::Complete),
            ..unchanged()
        },
        EventView::Status(m) => UpdateView { status: Some(m), ..unchanged() },
        EventView::Error(_) => UpdateView {
            hint_status: Some("ERROR"@),
            status: Some("Hint generation failed"@),
            ..unchanged()
        },
        _ => unchanged(),
    }
}

/// Reacts to one event of the automatic hint run.
pub fn on_auto_hint_event(e: &BridgeEvent) -> (r: PanelUpdate)
    ensures
        r@ == auto_hint_reaction(e@),
{
    match e {
        BridgeEvent::HintReady(p) => PanelUpdate {
            hint_path: Some(owned(p.as_str())),
            hint_status: Some(owned("✓ HINT SET")),
            view_mode: Some(ViewMode::Matte),
            clip_status: Some(ClipStatus::Ready),
            status: Some(owned("Ready — adjust settings and run inference")),
            progress: Some(Fraction::Complete),
            ..PanelUpdate::none()
        },
        BridgeEvent::Status(m) => PanelUpdate::status_only(owned(m.as_str())),
        BridgeEvent::Error(_) => PanelUpdate {
            hint_status: Some(owned("ERROR")),
            status: Some(owned("Hint generation failed")),
            ..PanelUpdate::none()
        },
        _ => PanelUpdate::none(),
    }
}

// ---------------------------------------------------------------------------
// The viewer's hint button
// ---------------------------------------------------------------------------

/// How the viewer follows a hint requested with its button.
pub open spec fn manual_hint_reaction(e: EventView) -> UpdateView {
    match e {
        EventView::HintReady(p) => UpdateView {
            hint_path: Some(p),
            hint_status: Some("✓ HINT SET"@),
            ..unchanged()
        },
        EventView::Error(_) => UpdateView { hint_status: Some("ERROR"@), ..unchanged() },
        _ => unchanged(),
    }
}

/// Reacts to one event of a hint requested with the viewer's button.
pub fn on_manual_hint_event(e: &BridgeEvent) -> (r: PanelUpdate)
    ensures
        r@ == manual_hint_reaction(e@),
{
    match e {
        BridgeEvent::HintReady(p) => PanelUpdate {
            hint_path: Some(owned(p.as_str())),
            hint_status: Some(owned("✓ HINT SET")),
            ..PanelUpdate::none()
        },
        BridgeEvent::Error(_) => PanelUpdate {
            hint_status: Some(owned("ERROR")),
            ..PanelUpdate::none()
        },
        _ => PanelUpdate::none(),
    }
}

/// Pressing the hint button marks the hint as being generated (the host then
/// starts `bridge::hint_command` for the current frame).
pub fn on_hint_press() -> (r: PanelUpdate)
    ensures
        r@ == (UpdateView { hint_status: Some("GENERATING..."@), ..unchanged() }),
{
    PanelUpdate { hint_status: Some(owned("GENERATING...")), ..PanelUpdate::none() }
}

/// A run never stays marked as running once the bridge reports its end:
/// after `Done` or `Error`, the footer's run flag is cleared.
pub proof fn lemma_infer_run_ends(e: EventView)
    requires
        e is Done || e is Error,
    ensures
        infer_reaction(e).running == Some(false),
{
}

/// Extraction always ends with the extracting flag cleared, whether it
/// succeeded (the clip then awaits its hint) or failed (the clip shows an
/// error).
pub proof fn lemma_extraction_ends(e: EventView)
    requires
        e is Done || e is Error,
    ensures
        extract_reaction(e).extracting == Some(false),
        e is Done ==> extract_reaction(e).clip_status == Some(ClipStatus::Alpha)
            && extract_reaction(e).start_auto_hint,
        e is Error ==> extract_reaction(e).clip_status == Some(ClipStatus::Error)
            && !extract_reaction(e).start_auto_hint,
{
}


/// Every run follows the bridge's progress reports: a `Progress` event of an
/// export, of an inference or of a frame extraction puts its message on the
/// status line and sets the bar to `current` of `total` (an inference stays
/// running); during extraction the clip's badge also shows `Extract`.  A `Status` event of any of these
/// runs puts its message on the status line and leaves the bar alone.
pub proof fn lemma_progress_is_shown(current: u32, total: u32, message: Seq<char>)
    ensures
        ({
            let e = EventView::Progress { current, total, message };
            &&& export_reaction(e).status == Some(message)
            &&& export_reaction(e).progress == Some(Fraction::Ratio { current, total })
            &&& infer_reaction(e).status == Some(message)
            &&& infer_reaction(e).progress == Some(Fraction::Ratio { current, total })
            &&& infer_reaction(e).running is None
            &&& extract_reaction(e).status == Some(message)
            &&& extract_reaction(e).progress == Some(Fraction::Ratio { current, total })
            &&& extract_reaction(e).clip_status == Some(ClipStatus::Extract)
        }),
        ({
            let e = EventView::Status(message);
            &&& export_reaction(e).status == Some(message)
            &&& export_reaction(e).progress is None
            &&& infer_reaction(e).status == Some(message)
            &&& infer_reaction(e).progress is None
            &&& extract_reaction(e).status == Some(message)
            &&& extract_reaction(e).progress is None
        }),
{
}

} // verus!
