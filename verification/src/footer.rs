//! The footer's worker control: how many frames are keyed in parallel, and
//! how that number is coloured against what the GPU can hold.
//!
//! The GPU report gives two limits: up to `green_max` workers fit easily, up
//! to `yellow_max` fit tightly, more risk running out of memory.  The control
//! lets the count range from one to one above `yellow_max`.
use vstd::prelude::*;

verus! {

/// The colour of the worker count.
#[derive(Clone, Copy, Debug, PartialEq, Eq, Structural)]
pub enum WorkerTone {
    Success,
    Warning,
    Error,
}

/// Green up to `green_max`, yellow up to `yellow_max`, red beyond.
pub open spec fn worker_tone(parallel: u32, green_max: u32, yellow_max: u32) -> WorkerTone {
    if parallel <= green_max {
        WorkerTone::Success
    } else if parallel <= yellow_max {
        WorkerTone::Warning
    } else {
        WorkerTone::Error
    }
}

/// The colour of the worker count.
pub fn parallel_tone(parallel: u32, green_max: u32, yellow_max: u32) -> (r: WorkerTone)
    ensures
        r == worker_tone(parallel, green_max, yellow_max),
{
    if parallel <= green_max {
        WorkerTone::Success
    } else if parallel <= yellow_max {
        WorkerTone::Warning
    } else {
        WorkerTone::Error
    }
}

/// The largest worker count the control offers.
pub open spec fn max_workers(yellow_max: u32) -> int {
    yellow_max + 1
}

/// One worker fewer, never below one.
pub fn fewer_workers(parallel: u32) -> (r: u32)
    ensures
        r == if parallel > 1 {
            (parallel - 1) as u32
        } else {
            parallel
        },
{
    if parallel > 1 {
        parallel - 1
    } else {
        parallel
    }
}

/// One worker more, never above one beyond `yellow_max`.
pub fn more_workers(parallel: u32, yellow_max: u32) -> (r: u32)
    requires
        yellow_max < u32::MAX,
    ensures
        r == if parallel < max_workers(yellow_max) {
            (parallel + 1) as u32
        } else {
            parallel
        },
{
    let max_parallel = yellow_max + 1;
    if parallel < max_parallel {
        parallel + 1
    } else {
        parallel
    }
}

/// The footer's starting values: one worker, and the limits assumed until
/// the GPU has been asked (one green, two yellow).
pub fn initial_workers() -> (r: (u32, u32, u32))
    ensures
        r == (1u32, 1u32, 2u32),
{
    (1, 1, 2)
}

/// The worker count stays between one and the control's maximum whatever
/// the buttons do.
pub proof fn lemma_workers_stay_in_range(parallel: u32, yellow_max: u32)
    requires
        yellow_max < u32::MAX,
        1 <= parallel <= max_workers(yellow_max),
    ensures
        ({
            let fewer = if parallel > 1 {
                (parallel - 1) as u32
            } else {
                parallel
            };
            let more = if parallel < max_workers(yellow_max) {
                (parallel + 1) as u32
            } else {
                parallel
            };
            &&& 1 <= fewer <= max_workers(yellow_max)
            &&& 1 <= more <= max_workers(yellow_max)
        }),
{
}

/// With the limits ordered (`green_max <= yellow_max`), the colours come in
/// order as the count grows: once red, more workers stay red; while green,
/// fewer workers stay green.
pub proof fn lemma_tone_monotone(a: u32, b: u32, green_max: u32, yellow_max: u32)
    requires
        a <= b,
        green_max <= yellow_max,
    ensures
        worker_tone(a, green_max, yellow_max) == WorkerTone::Error ==> worker_tone(
            b,
            green_max,
            yellow_max,
        ) == WorkerTone::Error,
        worker_tone(b, green_max, yellow_max) == WorkerTone::Success ==> worker_tone(
            a,
            green_max,
            yellow_max,
        ) == WorkerTone::Success,
{
}

} // verus!
