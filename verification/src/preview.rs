//! Live preview: a long-lived preview server keys the current frame again
//! whenever a slider or the frame changes.
//!
//! The host polls the controls every 50 ms (a tick) and forwards the
//! server's events; both go through this state machine.  At most one request
//! is in flight: a change made while the server is busy is parked, newer
//! changes replace the parked one, and it is sent when the server reports
//! the current frame done.
use vstd::prelude::*;
use crate::event::{BridgeEvent, EventView};
use crate::text::{concat2, decimal, owned, push_decimal};

verus! {

/// The values a preview depends on.  The three sliders are carried as the
/// bit patterns of their `f32` values (`f32::to_bits`) and compared as
/// `f32`s do (`knobs_same`); the frame is the viewer's current frame.
#[derive(Clone, Copy, Debug, PartialEq, Eq, Structural)]
pub struct Knobs {
    pub despill: u32,
    pub despeckle: u32,
    pub refiner: u32,
    pub frame: u32,
}

/// Whether the `f32` with bit pattern `x` is a NaN: all exponent bits set and
/// a nonzero fraction.
pub open spec fn is_nan_bits(x: u32) -> bool {
    (x & 0x7f80_0000u32) == 0x7f80_0000u32 && (x & 0x007f_ffffu32) != 0
}

/// Whether the `f32` values with bit patterns `a` and `b` compare equal with
/// `==`: a NaN equals nothing, the two zeros equal each other, and other
/// values are equal exactly when their bits are.
pub open spec fn float_bits_eq(a: u32, b: u32) -> bool {
    !is_nan_bits(a) && !is_nan_bits(b) && (a == b || ((a & 0x7fff_ffffu32) == 0 && (b
        & 0x7fff_ffffu32) == 0))
}

/// Whether two sets of values are the same: each slider compares equal as an
/// `f32` and the frame is the same.
pub open spec fn knobs_same(a: Knobs, b: Knobs) -> bool {
    float_bits_eq(a.despill, b.despill) && float_bits_eq(a.despeckle, b.despeckle)
        && float_bits_eq(a.refiner, b.refiner) && a.frame == b.frame
}

/// `float_bits_eq`, computed.
pub fn same_float(a: u32, b: u32) -> (r: bool)
    ensures
        r == float_bits_eq(a, b),
{
    let a_nan = (a & 0x7f80_0000u32) == 0x7f80_0000u32 && (a & 0x007f_ffffu32) != 0;
    let b_nan = (b & 0x7f80_0000u32) == 0x7f80_0000u32 && (b & 0x007f_ffffu32) != 0;
    !a_nan && !b_nan && (a == b || ((a & 0x7fff_ffffu32) == 0 && (b & 0x7fff_ffffu32) == 0))
}

/// `knobs_same`, computed.
pub fn same_knobs(a: &Knobs, b: &Knobs) -> (r: bool)
    ensures
        r == knobs_same(*a, *b),
{
    same_float(a.despill, b.despill) && same_float(a.despeckle, b.despeckle) && same_float(
        a.refiner,
        b.refiner,
    ) && a.frame == b.frame
}

/// What the preview loop remembers between ticks.
#[derive(Clone, Copy, Debug, PartialEq, Eq, Structural)]
pub struct PreviewState {
    /// Whether a preview server is running.
    pub server_running: bool,
    /// Whether a request is in flight.
    pub processing: bool,
    /// The request parked while another was in flight.
    pub pending: Option<Knobs>,
    /// The values last seen.
    pub last: Knobs,
}

/// What the host observes at a tick.
#[derive(Clone, Copy, Debug, PartialEq, Eq, Structural)]
pub struct TickInputs {
    /// The LIVE PREVIEW toggle.
    pub enabled: bool,
    /// Whether a clip is selected.
    pub has_work: bool,
    /// Whether the clip has an alpha hint.
    pub has_hint: bool,
    /// The current values.
    pub knobs: Knobs,
}

/// What a tick or an event asks the host to do.
pub struct PreviewOutcome {
    /// Drop the running server.
    pub stop_server: bool,
    /// Start a server for the selected clip and alpha model.
    pub start_server: bool,
    /// Send a request for these values.
    pub send: Option<Knobs>,
    /// The new footer status, if it changes.
    pub status: Option<String>,
}

/// The mathematical form of an outcome.
pub struct OutcomeView {
    pub stop_server: bool,
    pub start_server: bool,
    pub send: Option<Knobs>,
    pub status: Option<Seq<char>>,
}

impl View for PreviewOutcome {
    type V = OutcomeView;

    open spec fn view(&self) -> OutcomeView {
        OutcomeView {
            stop_server: self.stop_server,
            start_server: self.start_server,
            send: self.send,
            status: self.status.deep_view(),
        }
    }
}

/// An outcome that asks for nothing but possibly a new status.
pub open spec fn quiet(status: Option<Seq<char>>) -> OutcomeView {
    OutcomeView { stop_server: false, start_server: false, send: None, status }
}

/// The status shown while a frame is keyed: `Preview frame N...`, N counting
/// from one.
pub open spec fn frame_status(frame: u32) -> Seq<char> {
    "Preview frame "@ + decimal(frame as nat + 1) + "..."@
}

/// The state before the first tick: no server, nothing in flight, and the
/// controls' values at start.
pub open spec fn initial(knobs: Knobs) -> PreviewState {
    PreviewState { server_running: false, processing: false, pending: None, last: knobs }
}

/// One tick.  With the preview off, a running server is dropped.  Without a
/// clip or a hint, nothing happens.  Otherwise a server is started if none
/// runs (taking the current values as seen), and a change of the values is
/// sent at once when nothing is in flight, or parked otherwise.
pub open spec fn tick(s: PreviewState, i: TickInputs) -> (PreviewState, OutcomeView) {
    if !i.enabled {
        if s.server_running {
            (
                PreviewState { server_running: false, ..s },
                OutcomeView { stop_server: true, ..quiet(Some("Live preview off"@)) },
            )
        } else {
            (s, quiet(None))
        }
    } else if !i.has_work || !i.has_hint {
        (s, quiet(None))
    } else {
        let start = !s.server_running;
        let s1 = if start {
            PreviewState { server_running: true, last: i.knobs, ..s }
        } else {
            s
        };
        let loading = if start {
            Some("Loading preview server..."@)
        } else {
            None
        };
        if knobs_same(i.knobs, s1.last) {
            (s1, OutcomeView { start_server: start, ..quiet(loading) })
        } else if s1.processing {
            (
                PreviewState { last: i.knobs, pending: Some(i.knobs), ..s1 },
                OutcomeView { start_server: start, ..quiet(loading) },
            )
        } else {
            (
                PreviewState { last: i.knobs, processing: true, ..s1 },
                OutcomeView {
                    start_server: start,
                    send: Some(i.knobs),
                    ..quiet(Some(frame_status(i.knobs.frame)))
                },
            )
        }
    }
}

/// One event from the preview server.  `Done` ends the request in flight and
/// sends the parked one, if any, while the server runs; `Error` ends it too.
pub open spec fn on_event(s: PreviewState, e: EventView) -> (PreviewState, OutcomeView) {
    match e {
        EventView::ServerReady => (s, quiet(Some("Preview server ready"@))),
        EventView::Status(m) => (s, quiet(Some(m))),
        EventView::Done => match s.pending {
            Some(k) => if s.server_running {
                (
                    PreviewState { processing: true, pending: None, ..s },
                    OutcomeView { send: Some(k), ..quiet(Some("Preview ready"@)) },
                )
            } else {
                (
                    PreviewState { processing: false, pending: None, ..s },
                    quiet(Some("Preview ready"@)),
                )
            },
            None => (PreviewState { processing: false, ..s }, quiet(Some("Preview ready"@))),
        },
        EventView::Error(m) => (
            PreviewState { processing: false, ..s },
            quiet(Some("Preview error: "@ + m)),
        ),
        _ => (s, quiet(None)),
    }
}

impl PreviewState {
    /// The state before the first tick.
    pub fn new(knobs: Knobs) -> (r: PreviewState)
        ensures
            r == initial(knobs),
    {
        PreviewState { server_running: false, processing: false, pending: None, last: knobs }
    }

    /// Runs one tick.
    pub fn tick(&mut self, i: TickInputs) -> (r: PreviewOutcome)
        requires
            i.knobs.frame < u32::MAX,
        ensures
            (*final(self), r@) == tick(*old(self), i),
    {
        if !i.enabled {
            if self.server_running {
                self.server_running = false;
                return PreviewOutcome {
                    stop_server: true,
                    start_server: false,
                    send: None,
                    status: Some(owned("Live preview off")),
                };
            }
            return PreviewOutcome { stop_server: false, start_server: false, send: None, status: None };
        }
        if !i.has_work || !i.has_hint {
            return PreviewOutcome { stop_server: false, start_server: false, send: None, status: None };
        }
        let start = !self.server_running;
        if start {
            self.server_running = true;
            self.last = i.knobs;
        }
        let loading = if start {
            Some(owned("Loading preview server..."))
        } else {
            None
        };
        if same_knobs(&i.knobs, &self.last) {
            PreviewOutcome { stop_server: false, start_server: start, send: None, status: loading }
        } else if self.processing {
            self.last = i.knobs;
            self.pending = Some(i.knobs);
            PreviewOutcome { stop_server: false, start_server: start, send: None, status: loading }
        } else {
            self.last = i.knobs;
            self.processing = true;
            let mut status = owned("Preview frame ");
            push_decimal(&mut status, i.knobs.frame as u64 + 1);
            status.append("...");
            PreviewOutcome {
                stop_server: false,
                start_server: start,
                send: Some(i.knobs),
                status: Some(status),
            }
        }
    }

    /// Handles one event from the preview server.
    pub fn on_event(&mut self, e: &BridgeEvent) -> (r: PreviewOutcome)
        ensures
            (*final(self), r@) == on_event(*old(self), e@),
    {
        match e {
            BridgeEvent::ServerReady => PreviewOutcome {
                stop_server: false,
                start_server: false,
                send: None,
                status: Some(owned("Preview server ready")),
            },
            BridgeEvent::Status(m) => PreviewOutcome {
                stop_server: false,
                start_server: false,
                send: None,
                status: Some(owned(m.as_str())),
            },
            BridgeEvent::Done => {
                let parked = self.pending;
                self.pending = None;
                self.processing = false;
                let mut send = None;
                if let Some(k) = parked {
                    if self.server_running {
                        self.processing = true;
                        send = Some(k);
                    }
                }
                PreviewOutcome {
                    stop_server: false,
                    start_server: false,
                    send,
                    status: Some(owned("Preview ready")),
                }
            },
            BridgeEvent::Error(m) => {
                self.processing = false;
                PreviewOutcome {
                    stop_server: false,
                    start_server: false,
                    send: None,
                    status: Some(concat2("Preview error: ", m.as_str())),
                }
            },
            _ => PreviewOutcome { stop_server: false, start_server: false, send: None, status: None },
        }
    }
}

/// At most one request is in flight: a tick sends only when nothing is in
/// flight, and an event sends only when the previous request is done; after
/// any send, a request is marked in flight.
pub proof fn lemma_single_flight(s: PreviewState, i: TickInputs, e: EventView)
    ensures
        tick(s, i).1.send is Some ==> !s.processing && tick(s, i).0.processing,
        on_event(s, e).1.send is Some ==> e is Done && on_event(s, e).0.processing,
{
}

/// A change made while a request is in flight is parked, replacing any
/// older parked change, and nothing is sent.
pub proof fn lemma_latest_change_wins(s: PreviewState, i: TickInputs)
    requires
        i.enabled,
        i.has_work,
        i.has_hint,
        s.server_running,
        s.processing,
        !knobs_same(i.knobs, s.last),
    ensures
        tick(s, i).0.pending == Some(i.knobs),
        tick(s, i).1.send is None,
{
}

/// A parked change is not lost: when the request in flight is done and the
/// server still runs, the parked change is sent and nothing stays parked.
pub proof fn lemma_parked_change_is_sent(s: PreviewState, k: Knobs)
    requires
        s.pending == Some(k),
        s.server_running,
    ensures
        on_event(s, EventView::Done).1.send == Some(k),
        on_event(s, EventView::Done).0.pending is None,
        on_event(s, EventView::Done).0.processing,
{
}

/// Turning the preview off leaves no server running.
pub proof fn lemma_off_stops_server(s: PreviewState, i: TickInputs)
    requires
        !i.enabled,
    ensures
        !tick(s, i).0.server_running,
        tick(s, i).1.stop_server == s.server_running,
        tick(s, i).1.send is None,
{
}

/// Whatever a tick sends is what it has just recorded as the values last
/// seen, and, with a server already running, it differs from the values seen
/// before; so values that compare the same are never sent twice in a row by
/// ticks.
pub proof fn lemma_sent_values_recorded(s: PreviewState, i: TickInputs)
    ensures
        tick(s, i).1.send matches Some(k) ==> tick(s, i).0.last == k && k == i.knobs && (
        s.server_running ==> !knobs_same(k, s.last)),
{
}


/// The sliders compare as `f32` values do: a NaN equals nothing, not even
/// itself; the two zeros (`0.0` and `-0.0`) are equal; any other two values
/// are equal exactly when their bit patterns are.
pub proof fn lemma_sliders_compare_as_f32(a: u32, b: u32)
    ensures
        is_nan_bits(a) || is_nan_bits(b) ==> !float_bits_eq(a, b),
        float_bits_eq(0u32, 0x8000_0000u32) && float_bits_eq(0x8000_0000u32, 0u32),
        !is_nan_bits(a) && !is_nan_bits(b) && (a & 0x7fff_ffffu32) != 0 ==> (float_bits_eq(a, b)
            <==> a == b),
        !is_nan_bits(a) ==> float_bits_eq(a, a),
{
    assert((0u32 & 0x7f80_0000u32) == 0u32) by (bit_vector);
    assert((0x8000_0000u32 & 0x7f80_0000u32) == 0u32) by (bit_vector);
    assert((0u32 & 0x7fff_ffffu32) == 0u32) by (bit_vector);
    assert((0x8000_0000u32 & 0x7fff_ffffu32) == 0u32) by (bit_vector);
}

/// Every control takes part in the change test: with a clip and its hint,
/// a running server and nothing in flight, a tick whose despill, despeckle or
/// refiner value compares unequal (as an `f32`) to the one last seen, or
/// whose frame differs, sends exactly the ticked values, announces the frame
/// (`Preview frame N...`, N counting from one) and marks the request in
/// flight.  When every control compares equal, nothing is sent.
pub proof fn lemma_any_control_change_is_sent(s: PreviewState, i: TickInputs)
    requires
        i.enabled,
        i.has_work,
        i.has_hint,
        s.server_running,
        !s.processing,
    ensures
        (!float_bits_eq(i.knobs.despill, s.last.despill) || !float_bits_eq(
            i.knobs.despeckle,
            s.last.despeckle,
        ) || !float_bits_eq(i.knobs.refiner, s.last.refiner) || i.knobs.frame != s.last.frame)
            ==> {
            &&& tick(s, i).1.send == Some(i.knobs)
            &&& tick(s, i).1.status == Some(
                "Preview frame "@ + decimal(i.knobs.frame as nat + 1) + "..."@,
            )
            &&& tick(s, i).0.processing
            &&& tick(s, i).0.last == i.knobs
        },
        (float_bits_eq(i.knobs.despill, s.last.despill) && float_bits_eq(
            i.knobs.despeckle,
            s.last.despeckle,
        ) && float_bits_eq(i.knobs.refiner, s.last.refiner) && i.knobs.frame == s.last.frame)
            ==> tick(s, i).1.send is None && !tick(s, i).0.processing,
{
}

} // verus!
