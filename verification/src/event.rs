//! Events that the Python bridge reports, one JSON object per line.
//!
//! A line such as `{"kind":"progress","current":3,"total":10,"message":"..."}`
//! becomes one `BridgeEvent`.  Missing members take fixed defaults; a line
//! that is not JSON, or whose `kind` is unknown, becomes an `Error` event that
//! quotes the line.
use vstd::prelude::*;
use crate::json::{JsonDoc, json_parses, json_member_str, json_member_u64};
use crate::text::{concat2, owned, same_text};

verus! {

/// One event reported by the bridge.
#[derive(Debug)]
pub enum BridgeEvent {
    Status(String),
    Progress { current: u32, total: u32, message: String },
    Done,
    HintReady(String),
    FrameCount(u32),
    GpuInfo { name: String, green_max: u32, yellow_max: u32 },
    ServerReady,
    Error(String),
}

/// The mathematical form of a `BridgeEvent`.
pub enum EventView {
    Status(Seq<char>),
    Progress { current: u32, total: u32, message: Seq<char> },
    Done,
    HintReady(Seq<char>),
    FrameCount(u32),
    GpuInfo { name: Seq<char>, green_max: u32, yellow_max: u32 },
    ServerReady,
    Error(Seq<char>),
}

impl View for BridgeEvent {
    type V = EventView;

    open spec fn view(&self) -> EventView {
        match self {
            BridgeEvent::Status(m) => EventView::Status(m@),
            BridgeEvent::Progress { current, total, message } => EventView::Progress {
                current: *current,
                total: *total,
                message: message@,
            },
            BridgeEvent::Done => EventView::Done,
            BridgeEvent::HintReady(p) => EventView::HintReady(p@),
            BridgeEvent::FrameCount(c) => EventView::FrameCount(*c),
            BridgeEvent::GpuInfo { name, green_max, yellow_max } => EventView::GpuInfo {
                name: name@,
                green_max: *green_max,
                yellow_max: *yellow_max,
            },
            BridgeEvent::ServerReady => EventView::ServerReady,
            BridgeEvent::Error(m) => EventView::Error(m@),
        }
    }
}

/// The members of an event line that decide the event.
pub struct EventFields {
    pub kind: Option<String>,
    pub message: Option<String>,
    pub current: Option<u64>,
    pub total: Option<u64>,
    pub path: Option<String>,
    pub count: Option<u64>,
    pub name: Option<String>,
    pub green_max: Option<u64>,
    pub yellow_max: Option<u64>,
}

/// The mathematical form of `EventFields`.
pub struct FieldsView {
    pub kind: Option<Seq<char>>,
    pub message: Option<Seq<char>>,
    pub current: Option<u64>,
    pub total: Option<u64>,
    pub path: Option<Seq<char>>,
    pub count: Option<u64>,
    pub name: Option<Seq<char>>,
    pub green_max: Option<u64>,
    pub yellow_max: Option<u64>,
}

impl View for EventFields {
    type V = FieldsView;

    open spec fn view(&self) -> FieldsView {
        FieldsView {
            kind: self.kind.deep_view(),
            message: self.message.deep_view(),
            current: self.current,
            total: self.total,
            path: self.path.deep_view(),
            count: self.count,
            name: self.name.deep_view(),
            green_max: self.green_max,
            yellow_max: self.yellow_max,
        }
    }
}

/// The text, or the empty text when absent.
pub open spec fn text_or_empty(t: Option<Seq<char>>) -> Seq<char> {
    match t {
        Some(s) => s,
        None => Seq::empty(),
    }
}

/// The number, or `default` when absent.
pub open spec fn number_or(n: Option<u64>, default: u64) -> u64 {
    match n {
        Some(v) => v,
        None => default,
    }
}

/// The event a line decodes to, given the members read from it (`None` when
/// the line is not JSON).  Numbers are cut to 32 bits as `as u32` does.
pub open spec fn decoded_event(line: Seq<char>, fields: Option<FieldsView>) -> EventView {
    match fields {
        None => EventView::Error("Bad JSON: "@ + line),
        Some(f) => if f.kind == Some("status"@) {
            EventView::Status(text_or_empty(f.message))
        } else if f.kind == Some("progress"@) {
            EventView::Progress {
                current: number_or(f.current, 0) as u32,
                total: number_or(f.total, 1) as u32,
                message: text_or_empty(f.message),
            }
        } else if f.kind == Some("done"@) {
            EventView::Done
        } else if f.kind == Some("hint_ready"@) {
            EventView::HintReady(text_or_empty(f.path))
        } else if f.kind == Some("frame_count"@) {
            EventView::FrameCount(number_or(f.count, 0) as u32)
        } else if f.kind == Some("gpu_info"@) {
            EventView::GpuInfo {
                name: text_or_empty(f.name),
                green_max: number_or(f.green_max, 1) as u32,
                yellow_max: number_or(f.yellow_max, 2) as u32,
            }
        } else if f.kind == Some("server_ready"@) {
            EventView::ServerReady
        } else if f.kind == Some("error"@) {
            EventView::Error(text_or_empty(f.message))
        } else {
            EventView::Error("Unknown event: "@ + line)
        },
    }
}

/// The members that `serde_json` reads out of `line`, or `None` when it does
/// not parse.
pub open spec fn line_fields(line: Seq<char>) -> Option<FieldsView> {
    if json_parses(line) {
        Some(
            FieldsView {
                kind: json_member_str(line, "kind"@),
                message: json_member_str(line, "message"@),
                current: json_member_u64(line, "current"@),
                total: json_member_u64(line, "total"@),
                path: json_member_str(line, "path"@),
                count: json_member_u64(line, "count"@),
                name: json_member_str(line, "name"@),
                green_max: json_member_u64(line, "green_max"@),
                yellow_max: json_member_u64(line, "yellow_max"@),
            },
        )
    } else {
        None
    }
}

fn text_or_empty_exec(t: &Option<String>) -> (r: String)
    ensures
        r@ == text_or_empty(t.deep_view()),
{
    match t {
        Some(s) => owned(s.as_str()),
        None => String::new(),
    }
}

fn number_or_exec(n: Option<u64>, default: u64) -> (r: u64)
    ensures
        r == number_or(n, default),
{
    match n {
        Some(v) => v,
        None => default,
    }
}

fn kind_is(kind: &Option<String>, name: &str) -> (r: bool)
    ensures
        r == (kind.deep_view() == Some(name@)),
{
    match kind {
        Some(k) => same_text(k.as_str(), name),
        None => false,
    }
}

/// Decides the event of `line` from the members read out of it (`None` when
/// the line is not JSON).
pub fn event_from_fields(line: &str, fields: &Option<EventFields>) -> (r: BridgeEvent)
    ensures
        r@ == decoded_event(
            line@,
            match fields {
                Some(f) => Some(f@),
                None => None,
            },
        ),
{
    match fields {
        None => BridgeEvent::Error(concat2("Bad JSON: ", line)),
        Some(f) => {
            if kind_is(&f.kind, "status") {
                BridgeEvent::Status(text_or_empty_exec(&f.message))
            } else if kind_is(&f.kind, "progress") {
                BridgeEvent::Progress {
                    current: number_or_exec(f.current, 0) as u32,
                    total: number_or_exec(f.total, 1) as u32,
                    message: text_or_empty_exec(&f.message),
                }
            } else if kind_is(&f.kind, "done") {
                BridgeEvent::Done
            } else if kind_is(&f.kind, "hint_ready") {
                BridgeEvent::HintReady(text_or_empty_exec(&f.path))
            } else if kind_is(&f.kind, "frame_count") {
                BridgeEvent::FrameCount(number_or_exec(f.count, 0) as u32)
            } else if kind_is(&f.kind, "gpu_info") {
                BridgeEvent::GpuInfo {
                    name: text_or_empty_exec(&f.name),
                    green_max: number_or_exec(f.green_max, 1) as u32,
                    yellow_max: number_or_exec(f.yellow_max, 2) as u32,
                }
            } else if kind_is(&f.kind, "server_ready") {
                BridgeEvent::ServerReady
            } else if kind_is(&f.kind, "error") {
                BridgeEvent::Error(text_or_empty_exec(&f.message))
            } else {
                BridgeEvent::Error(concat2("Unknown event: ", line))
            }
        },
    }
}

/// Reads the deciding members out of a parsed line.
pub fn read_fields(doc: &JsonDoc) -> (r: EventFields)
    ensures
        line_fields(doc.source()) == Some(r@) || !json_parses(doc.source()),
        r@.kind == json_member_str(doc.source(), "kind"@),
        r@.message == json_member_str(doc.source(), "message"@),
        r@.current == json_member_u64(doc.source(), "current"@),
        r@.total == json_member_u64(doc.source(), "total"@),
        r@.path == json_member_str(doc.source(), "path"@),
        r@.count == json_member_u64(doc.source(), "count"@),
        r@.name == json_member_str(doc.source(), "name"@),
        r@.green_max == json_member_u64(doc.source(), "green_max"@),
        r@.yellow_max == json_member_u64(doc.source(), "yellow_max"@),
{
    EventFields {
        kind: doc.member_str("kind"),
        message: doc.member_str("message"),
        current: doc.member_u64("current"),
        total: doc.member_u64("total"),
        path: doc.member_str("path"),
        count: doc.member_u64("count"),
        name: doc.member_str("name"),
        green_max: doc.member_u64("green_max"),
        yellow_max: doc.member_u64("yellow_max"),
    }
}

/// Decodes one line printed by the bridge.
pub fn parse_event(line: &str) -> (r: BridgeEvent)
    ensures
        r@ == decoded_event(line@, line_fields(line@)),
{
    let fields = match JsonDoc::parse(line) {
        Some(doc) => Some(read_fields(&doc)),
        None => None,
    };
    event_from_fields(line, &fields)
}

} // verus!
