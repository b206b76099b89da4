//! First-run setup: the list of steps, how each step's row changes while its
//! task runs, and what the setup screen shows.
//!
//! A step's progress fraction is whatever the task reports; the library only
//! stores and moves it, so its type is a parameter.
use vstd::prelude::*;
use crate::text::{owned};

verus! {

/// Where a setup step stands.
#[derive(Clone, Copy, Debug, PartialEq, Eq, Structural)]
pub enum StepState {
    Waiting,
    Active,
    Completed,
    Failed,
}

/// The pages of the application.
#[derive(Clone, Copy, Debug, PartialEq, Eq, Structural)]
pub enum Page {
    Setup,
    Main,
}

/// One row of the setup screen.
pub struct SetupStep<P> {
    pub title: String,
    pub state: StepState,
    pub status: String,
    pub progress: Option<P>,
}

/// The mathematical form of a setup step.
pub struct StepView<P> {
    pub title: Seq<char>,
    pub state: StepState,
    pub status: Seq<char>,
    pub progress: Option<P>,
}

impl<P> View for SetupStep<P> {
    type V = StepView<P>;

    open spec fn view(&self) -> StepView<P> {
        StepView {
            title: self.title@,
            state: self.state,
            status: self.status@,
            progress: self.progress,
        }
    }
}

/// The steps of a list, each in mathematical form.
pub open spec fn steps_view<P>(v: Seq<SetupStep<P>>) -> Seq<StepView<P>> {
    v.map_values(|s: SetupStep<P>| s@)
}

/// The titles of the setup steps, in the order the tasks run.
pub open spec fn step_titles() -> Seq<Seq<char>> {
    seq![
        "Python Runtime"@,
        "Virtual Environment"@,
        "Backend Packages"@,
        "GPU Support"@,
        "FFmpeg"@,
        "CorridorKey Scripts"@,
        "CorridorKey Model"@,
        "BiRefNet Alpha Model"@,
    ]
}

/// A step that has not started.
pub open spec fn waiting_step<P>(title: Seq<char>) -> StepView<P> {
    StepView { title, state: StepState::Waiting, status: Seq::empty(), progress: None }
}

fn waiting<P>(title: &str) -> (r: SetupStep<P>)
    ensures
        r@ == waiting_step::<P>(title@),
{
    let r = SetupStep { title: owned(title), state: StepState::Waiting, status: String::new(), progress: None };
    r
}

/// The eight setup steps, all waiting.
pub fn default_steps<P>() -> (r: Vec<SetupStep<P>>)
    ensures
        r@.len() == 8,
        forall|i: int| 0 <= i < 8 ==> #[trigger] r@[i]@ == waiting_step::<P>(step_titles()[i]),
{
    let mut r: Vec<SetupStep<P>> = Vec::new();
    r.push(waiting("Python Runtime"));
    r.push(waiting("Virtual Environment"));
    r.push(waiting("Backend Packages"));
    r.push(waiting("GPU Support"));
    r.push(waiting("FFmpeg"));
    r.push(waiting("CorridorKey Scripts"));
    r.push(waiting("CorridorKey Model"));
    r.push(waiting("BiRefNet Alpha Model"));
    r
}

/// Step `index` with a new state, status and progress; its title stays.
pub open spec fn updated<P>(
    steps: Seq<StepView<P>>,
    index: int,
    state: StepState,
    status: Seq<char>,
    progress: Option<P>,
) -> Seq<StepView<P>> {
    steps.update(index, StepView { title: steps[index].title, state, status, progress })
}

/// Sets the state, status and progress of step `index`.
pub fn update_step<P>(
    steps: &mut Vec<SetupStep<P>>,
    index: usize,
    state: StepState,
    status: String,
    progress: Option<P>,
)
    requires
        index < old(steps)@.len(),
    ensures
        steps_view(final(steps)@) == updated(
            steps_view(old(steps)@),
            index as int,
            state,
            status@,
            progress,
        ),
{
    let title = owned(steps[index].title.as_str());
    let step = SetupStep { title, state, status, progress };
    steps.set(index, step);
    assert(steps_view(steps@) =~= updated(
        steps_view(old(steps)@),
        index as int,
        state,
        status@,
        progress,
    ));
}

/// A task starts: its step becomes active with "Starting..." and the
/// progress `start` (the empty bar).
pub fn start_step<P>(steps: &mut Vec<SetupStep<P>>, index: usize, start: P)
    requires
        index < old(steps)@.len(),
    ensures
        steps_view(final(steps)@) == updated(
            steps_view(old(steps)@),
            index as int,
            StepState::Active,
            "Starting..."@,
            Some(start),
        ),
{
    update_step(steps, index, StepState::Active, owned("Starting..."), Some(start));
}

/// A running task reports progress: its step stays active with the message
/// and fraction reported.
pub fn report_step<P>(steps: &mut Vec<SetupStep<P>>, index: usize, message: String, fraction: Option<P>)
    requires
        index < old(steps)@.len(),
    ensures
        steps_view(final(steps)@) == updated(
            steps_view(old(steps)@),
            index as int,
            StepState::Active,
            message@,
            fraction,
        ),
{
    update_step(steps, index, StepState::Active, message, fraction);
}

/// How a finished task leaves its step: completed with "Done" and the full
/// bar `full`, or failed with the task's error and no bar.
pub open spec fn finished<P>(
    steps: Seq<StepView<P>>,
    index: int,
    outcome: Result<(), Seq<char>>,
    full: P,
) -> Seq<StepView<P>> {
    match outcome {
        Ok(_) => updated(steps, index, StepState::Completed, "Done"@, Some(full)),
        Err(e) => updated(steps, index, StepState::Failed, e, None),
    }
}

/// A task has finished with `outcome`.
pub fn finish_step<P>(steps: &mut Vec<SetupStep<P>>, index: usize, outcome: Result<(), String>, full: P)
    requires
        index < old(steps)@.len(),
    ensures
        steps_view(final(steps)@) == finished(
            steps_view(old(steps)@),
            index as int,
            match outcome {
                Ok(_) => Ok(()),
                Err(e) => Err(e@),
            },
            full,
        ),
{
    match outcome {
        Ok(_) => update_step(steps, index, StepState::Completed, owned("Done"), Some(full)),
        Err(e) => update_step(steps, index, StepState::Failed, e, None),
    }
}

// ---------------------------------------------------------------------------
// The setup screen
// ---------------------------------------------------------------------------

/// How many steps are completed.
pub open spec fn completed_count<P>(steps: Seq<StepView<P>>) -> nat
    decreases steps.len(),
{
    if steps.len() == 0 {
        0
    } else {
        completed_count(steps.drop_last()) + if steps.last().state == StepState::Completed {
            1nat
        } else {
            0nat
        }
    }
}

/// Setup is done when every step is completed.
pub open spec fn all_completed<P>(steps: Seq<StepView<P>>) -> bool {
    forall|i: int| 0 <= i < steps.len() ==> #[trigger] steps[i].state == StepState::Completed
}

/// The first active step, if any.
pub open spec fn first_active<P>(steps: Seq<StepView<P>>) -> Option<int>
    decreases steps.len(),
{
    if steps.len() == 0 {
        None
    } else {
        match first_active(steps.drop_last()) {
            Some(i) => Some(i),
            None => if steps.last().state == StepState::Active {
                Some(steps.len() - 1)
            } else {
                None
            },
        }
    }
}

/// The line in the screen's header: the title of the step being worked on,
/// else "Ready to launch" when all are completed, else "Starting...".
pub open spec fn current_step_label<P>(steps: Seq<StepView<P>>) -> Seq<char> {
    match first_active(steps) {
        Some(i) => steps[i].title,
        None => if completed_count(steps) == steps.len() {
            "Ready to launch"@
        } else {
            "Starting..."@
        },
    }
}

proof fn lemma_completed_count_bound<P>(steps: Seq<StepView<P>>)
    ensures
        completed_count(steps) <= steps.len(),
    decreases steps.len(),
{
    if steps.len() > 0 {
        lemma_completed_count_bound(steps.drop_last());
    }
}

proof fn lemma_first_active_facts<P>(steps: Seq<StepView<P>>)
    ensures
        match first_active(steps) {
            Some(i) => 0 <= i < steps.len() && steps[i].state == StepState::Active && forall|j: int|
                0 <= j < i ==> steps[j].state != StepState::Active,
            None => forall|j: int| 0 <= j < steps.len() ==> steps[j].state != StepState::Active,
        },
    decreases steps.len(),
{
    if steps.len() > 0 {
        lemma_first_active_facts(steps.drop_last());
        assert forall|j: int| 0 <= j < steps.len() - 1 implies steps.drop_last()[j] == steps[j] by {
        }
    }
}

/// Setup is done exactly when the completed count reaches the number of
/// steps, that is, when every step is completed.
pub proof fn lemma_done_iff_all_completed<P>(steps: Seq<StepView<P>>)
    ensures
        (completed_count(steps) == steps.len()) <==> all_completed(steps),
    decreases steps.len(),
{
    if steps.len() > 0 {
        let rest = steps.drop_last();
        lemma_done_iff_all_completed(rest);
        lemma_completed_count_bound(rest);
        assert forall|j: int| 0 <= j < rest.len() implies rest[j] == steps[j] by {}
        if all_completed(steps) {
            assert(all_completed(rest)) by {
                assert forall|j: int| 0 <= j < rest.len() implies #[trigger] rest[j].state
                    == StepState::Completed by {
                    assert(steps[j].state == StepState::Completed);
                }
            }
            assert(steps[steps.len() - 1].state == StepState::Completed);
        }
        if completed_count(steps) == steps.len() {
            assert(steps.last().state == StepState::Completed);
            assert(completed_count(rest) == rest.len());
            assert forall|j: int| 0 <= j < steps.len() implies #[trigger] steps[j].state
                == StepState::Completed by {
                if j < rest.len() {
                    assert(rest[j].state == StepState::Completed);
                }
            }
        }
    } else {
    }
}

/// The number of completed steps.
pub fn count_completed<P>(steps: &Vec<SetupStep<P>>) -> (r: usize)
    ensures
        r == completed_count(steps_view(steps@)),
{
    let mut count: usize = 0;
    let mut i: usize = 0;
    while i < steps.len()
        invariant
            i <= steps.len(),
            count == completed_count(steps_view(steps@).take(i as int)),
        decreases steps.len() - i,
    {
        proof {
            lemma_completed_count_bound(steps_view(steps@).take(i as int));
            assert(steps_view(steps@).take(i + 1).drop_last() =~= steps_view(steps@).take(
                i as int,
            ));
        }
        if steps[i].state == StepState::Completed {
            count = count + 1;
        }
        i = i + 1;
    }
    assert(steps_view(steps@).take(steps.len() as int) =~= steps_view(steps@));
    count
}

/// Whether setup is done (every step completed).
pub fn setup_done<P>(steps: &Vec<SetupStep<P>>) -> (r: bool)
    ensures
        r == all_completed(steps_view(steps@)),
{
    proof {
        lemma_done_iff_all_completed(steps_view(steps@));
    }
    count_completed(steps) == steps.len()
}

/// The line in the setup screen's header.
pub fn current_step<P>(steps: &Vec<SetupStep<P>>) -> (r: String)
    ensures
        r@ == current_step_label(steps_view(steps@)),
{
    let ghost sv = steps_view(steps@);
    let mut i: usize = 0;
    while i < steps.len()
        invariant
            i <= steps.len(),
            sv == steps_view(steps@),
            first_active(sv.take(i as int)) is None,
        decreases steps.len() - i,
    {
        proof {
            assert(sv.take(i + 1).drop_last() =~= sv.take(i as int));
        }
        if steps[i].state == StepState::Active {
            proof {
                lemma_first_active_prefix(sv, i as int + 1);
            }
            return owned(steps[i].title.as_str());
        }
        i = i + 1;
    }
    assert(sv.take(steps.len() as int) =~= sv);
    if count_completed(steps) == steps.len() {
        owned("Ready to launch")
    } else {
        owned("Starting...")
    }
}

proof fn lemma_first_active_prefix<P>(steps: Seq<StepView<P>>, k: int)
    requires
        0 < k <= steps.len(),
        first_active(steps.take(k)) is Some,
    ensures
        first_active(steps) == first_active(steps.take(k)),
    decreases steps.len() - k,
{
    if k < steps.len() {
        assert(steps.drop_last().take(k) =~= steps.take(k));
        lemma_first_active_prefix(steps.drop_last(), k);
    } else {
        assert(steps.take(k) =~= steps);
    }
}

/// The caption over the progress bar.
pub fn progress_caption(done: bool) -> (r: &'static str)
    ensures
        r@ == if done {
            "All done - ready to launch"@
        } else {
            "Setting up your environment"@
        },
{
    if done {
        "All done - ready to launch"
    } else {
        "Setting up your environment"
    }
}

/// The label of the button that leaves setup.
pub fn open_button_label(done: bool) -> (r: &'static str)
    ensures
        r@ == if done {
            "Open Iris ->"@
        } else {
            "Setting up..."@
        },
{
    if done {
        "Open Iris ->"
    } else {
        "Setting up..."
    }
}

/// The page a press of that button leads to: the main page once setup is
/// done, nowhere before.
pub fn open_pressed(done: bool) -> (r: Option<Page>)
    ensures
        r == if done {
            Some(Page::Main)
        } else {
            None::<Page>
        },
{
    if done {
        Some(Page::Main)
    } else {
        None
    }
}

// ---------------------------------------------------------------------------
// One step's row
// ---------------------------------------------------------------------------

/// The mark at the start of a step's row.
#[derive(Clone, Copy, Debug, PartialEq, Eq, Structural)]
pub enum StepMark {
    Spinner,
    Circle,
    Check,
    Cross,
}

/// The colour of a step's status line.
#[derive(Clone, Copy, Debug, PartialEq, Eq, Structural)]
pub enum StatusTone {
    Success,
    Error,
    Secondary,
}

/// How a step's row looks.
pub struct StepRowView {
    pub mark: StepMark,
    pub tone: StatusTone,
    /// Whether the status line is shown (it is when not empty).
    pub show_status: bool,
    /// Whether the progress bar is shown (only for the active step, and only
    /// when it has a fraction).
    pub show_progress: bool,
}

/// The look of the row of `step`.
pub open spec fn row_view<P>(step: StepView<P>) -> (StepMark, StatusTone, bool, bool) {
    (
        match step.state {
            StepState::Active => StepMark::Spinner,
            StepState::Waiting => StepMark::Circle,
            StepState::Completed => StepMark::Check,
            StepState::Failed => StepMark::Cross,
        },
        match step.state {
            StepState::Completed => StatusTone::Success,
            StepState::Failed => StatusTone::Error,
            _ => StatusTone::Secondary,
        },
        step.status.len() > 0,
        step.state == StepState::Active && step.progress is Some,
    )
}

/// Decides the look of a step's row.
pub fn step_row<P>(step: &SetupStep<P>) -> (r: StepRowView)
    ensures
        (r.mark, r.tone, r.show_status, r.show_progress) == row_view(step@),
{
    let mark = match step.state {
        StepState::Active => StepMark::Spinner,
        StepState::Waiting => StepMark::Circle,
        StepState::Completed => StepMark::Check,
        StepState::Failed => StepMark::Cross,
    };
    let tone = match step.state {
        StepState::Completed => StatusTone::Success,
        StepState::Failed => StatusTone::Error,
        _ => StatusTone::Secondary,
    };
    let show_status = crate::text::chars_of(step.status.as_str()).len() > 0;
    let show_progress = step.state == StepState::Active && step.progress.is_some();
    StepRowView { mark, tone, show_status, show_progress }
}

/// A task's step ends either completed or failed, and every other step is
/// left as it was.
pub proof fn lemma_finish_touches_one_step<P>(
    steps: Seq<StepView<P>>,
    index: int,
    outcome: Result<(), Seq<char>>,
    full: P,
)
    requires
        0 <= index < steps.len(),
    ensures
        finished(steps, index, outcome, full).len() == steps.len(),
        finished(steps, index, outcome, full)[index].state == (if outcome is Ok {
            StepState::Completed
        } else {
            StepState::Failed
        }),
        finished(steps, index, outcome, full)[index].title == steps[index].title,
        forall|j: int|
            0 <= j < steps.len() && j != index ==> #[trigger] finished(
                steps,
                index,
                outcome,
                full,
            )[j] == steps[j],
{
}

/// When one step is active, the header names it.
pub proof fn lemma_header_names_active_step<P>(steps: Seq<StepView<P>>, index: int)
    requires
        0 <= index < steps.len(),
        steps[index].state == StepState::Active,
        forall|j: int| 0 <= j < steps.len() && j != index ==> #[trigger] steps[j].state
            != StepState::Active,
    ensures
        current_step_label(steps) == steps[index].title,
{
    lemma_first_active_facts(steps);
}

} // verus!
