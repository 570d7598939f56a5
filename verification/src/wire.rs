//! What travels between the admin and its agents, and what the admin hands
//! to the user interface.

use crate::json::{clone_opt_value, value_clone};
use crate::records::{
    ActivityEvent, ActivityEventView, DeviceRecord, DeviceRecordView, DevicesSnapshot,
    DevicesSnapshotView, LogEvent, LogEventView, NetworkFactsPayload, NetworkFactsPayloadView,
    ServerStatus, TaskRecord, TaskRecordView, TopologySnapshot, TopologySnapshotView,
};
use crate::text::{clone_opt_text, clone_texts, opt_text, text_eq, texts, Text};
use vstd::prelude::*;

verus! {

/// What an agent sends to register: who it is, the shared secret, and its
/// network facts.
#[derive(Debug, PartialEq, Eq)]
pub struct RegisterPayload {
    pub agent_id: String,
    pub secret: String,
    pub hostname: String,
    pub ips: Vec<String>,
    pub os: String,
    pub version: String,
    pub network: NetworkFactsPayload,
}

/// The value of a `RegisterPayload`.
pub struct RegisterPayloadView {
    pub agent_id: Text,
    pub secret: Text,
    pub hostname: Text,
    pub ips: Seq<Text>,
    pub os: Text,
    pub version: Text,
    pub network: NetworkFactsPayloadView,
}

impl View for RegisterPayload {
    type V = RegisterPayloadView;

    open spec fn view(&self) -> RegisterPayloadView {
        RegisterPayloadView {
            agent_id: self.agent_id@,
            secret: self.secret@,
            hostname: self.hostname@,
            ips: texts(self.ips@),
            os: self.os@,
            version: self.version@,
            network: self.network@,
        }
    }
}

impl Clone for RegisterPayload {
    fn clone(&self) -> (r: Self)
        ensures
            r@ == self@,
    {
        RegisterPayload {
            agent_id: self.agent_id.clone(),
            secret: self.secret.clone(),
            hostname: self.hostname.clone(),
            ips: clone_texts(&self.ips),
            os: self.os.clone(),
            version: self.version.clone(),
            network: self.network.clone(),
        }
    }
}
/// What an agent sends to say that it is alive.
#[derive(Debug, PartialEq, Eq)]
pub struct HeartbeatPayload {
    /// The status the agent claims; blank to leave it as it is.
    pub status: String,
    /// The agent's own clock; zero or less to take the admin's.
    pub last_seen: i64,
    /// A JSON object with any of `internet_reachable`, `dns_ok`, `gateway_reachable` and `latency_ms`.
    pub metrics: Option<serde_json::Value>,
    pub network: NetworkFactsPayload,
}

/// The value of a `HeartbeatPayload`.
pub struct HeartbeatPayloadView {
    pub status: Text,
    pub last_seen: i64,
    pub metrics: Option<serde_json::Value>,
    pub network: NetworkFactsPayloadView,
}

impl View for HeartbeatPayload {
    type V = HeartbeatPayloadView;

    open spec fn view(&self) -> HeartbeatPayloadView {
        HeartbeatPayloadView {
            status: self.status@,
            last_seen: self.last_seen,
            metrics: self.metrics,
            network: self.network@,
        }
    }
}

impl Clone for HeartbeatPayload {
    fn clone(&self) -> (r: Self)
        ensures
            r@ == self@,
    {
        HeartbeatPayload {
            status: self.status.clone(),
            last_seen: self.last_seen,
            metrics: clone_opt_value(&self.metrics),
            network: self.network.clone(),
        }
    }
}
/// What an agent reports of a task.
#[derive(Debug, PartialEq, Eq)]
pub struct TaskResultPayload {
    pub task_id: String,
    pub ok: bool,
    pub result: serde_json::Value,
    pub error: Option<String>,
}

/// The value of a `TaskResultPayload`.
pub struct TaskResultPayloadView {
    pub task_id: Text,
    pub ok: bool,
    pub result: serde_json::Value,
    pub error: Option<Text>,
}

impl View for TaskResultPayload {
    type V = TaskResultPayloadView;

    open spec fn view(&self) -> TaskResultPayloadView {
        TaskResultPayloadView {
            task_id: self.task_id@,
            ok: self.ok,
            result: self.result,
            error: opt_text(self.error),
        }
    }
}

impl Clone for TaskResultPayload {
    fn clone(&self) -> (r: Self)
        ensures
            r@ == self@,
    {
        TaskResultPayload {
            task_id: self.task_id.clone(),
            ok: self.ok,
            result: value_clone(&self.result),
            error: clone_opt_text(&self.error),
        }
    }
}
/// What the admin sends to an agent to have a task done.
#[derive(Debug, PartialEq, Eq)]
pub struct TaskDispatchPayload {
    pub task_id: String,
    pub kind: String,
    pub params: serde_json::Value,
}

/// The value of a `TaskDispatchPayload`.
pub struct TaskDispatchPayloadView {
    pub task_id: Text,
    pub kind: Text,
    pub params: serde_json::Value,
}

impl View for TaskDispatchPayload {
    type V = TaskDispatchPayloadView;

    open spec fn view(&self) -> TaskDispatchPayloadView {
        TaskDispatchPayloadView {
            task_id: self.task_id@,
            kind: self.kind@,
            params: self.params,
        }
    }
}

impl Clone for TaskDispatchPayload {
    fn clone(&self) -> (r: Self)
        ensures
            r@ == self@,
    {
        TaskDispatchPayload {
            task_id: self.task_id.clone(),
            kind: self.kind.clone(),
            params: value_clone(&self.params),
        }
    }
}
/// The admin's answer to a register.
#[derive(Debug, PartialEq, Eq)]
pub struct RegisteredReply {
    pub agent_id: String,
    pub ok: bool,
    /// Why the register was refused.
    pub error: Option<String>,
    pub server_time: i64,
    pub ts: i64,
}

/// The value of a `RegisteredReply`.
pub struct RegisteredReplyView {
    pub agent_id: Text,
    pub ok: bool,
    pub error: Option<Text>,
    pub server_time: i64,
    pub ts: i64,
}

impl View for RegisteredReply {
    type V = RegisteredReplyView;

    open spec fn view(&self) -> RegisteredReplyView {
        RegisteredReplyView {
            agent_id: self.agent_id@,
            ok: self.ok,
            error: opt_text(self.error),
            server_time: self.server_time,
            ts: self.ts,
        }
    }
}

impl Clone for RegisteredReply {
    fn clone(&self) -> (r: Self)
        ensures
            r@ == self@,
    {
        RegisteredReply {
            agent_id: self.agent_id.clone(),
            ok: self.ok,
            error: clone_opt_text(&self.error),
            server_time: self.server_time,
            ts: self.ts,
        }
    }
}
/// A task frame on its way to one agent.
#[derive(Debug, PartialEq, Eq)]
pub struct OutboundTask {
    pub agent_id: String,
    pub ts: i64,
    pub payload: TaskDispatchPayload,
}

/// The value of an `OutboundTask`.
pub struct OutboundTaskView {
    pub agent_id: Text,
    pub ts: i64,
    pub payload: TaskDispatchPayloadView,
}

impl View for OutboundTask {
    type V = OutboundTaskView;

    open spec fn view(&self) -> OutboundTaskView {
        OutboundTaskView {
            agent_id: self.agent_id@,
            ts: self.ts,
            payload: self.payload@,
        }
    }
}

impl Clone for OutboundTask {
    fn clone(&self) -> (r: Self)
        ensures
            r@ == self@,
    {
        OutboundTask {
            agent_id: self.agent_id.clone(),
            ts: self.ts,
            payload: self.payload.clone(),
        }
    }
}
/// Something for the user interface to show.
#[derive(Debug, PartialEq, Eq)]
pub enum UiEvent {
    ServerStatus(ServerStatus),
    DevicesSnapshot(DevicesSnapshot),
    DeviceUpsert(DeviceRecord),
    DeviceRemove(String),
    Log(LogEvent),
    TaskUpdate(TaskRecord),
    Activity(ActivityEvent),
    TopologySnapshot(TopologySnapshot),
    TopologyChanged(TopologySnapshot),
}

/// The value of a `UiEvent`.
pub enum UiEventView {
    ServerStatus(ServerStatus),
    DevicesSnapshot(DevicesSnapshotView),
    DeviceUpsert(DeviceRecordView),
    DeviceRemove(Text),
    Log(LogEventView),
    TaskUpdate(TaskRecordView),
    Activity(ActivityEventView),
    TopologySnapshot(TopologySnapshotView),
    TopologyChanged(TopologySnapshotView),
}

impl View for UiEvent {
    type V = UiEventView;

    open spec fn view(&self) -> UiEventView {
        match self {
            UiEvent::ServerStatus(s) => UiEventView::ServerStatus(*s),
            UiEvent::DevicesSnapshot(s) => UiEventView::DevicesSnapshot(s@),
            UiEvent::DeviceUpsert(d) => UiEventView::DeviceUpsert(d@),
            UiEvent::DeviceRemove(id) => UiEventView::DeviceRemove(id@),
            UiEvent::Log(e) => UiEventView::Log(e@),
            UiEvent::TaskUpdate(t) => UiEventView::TaskUpdate(t@),
            UiEvent::Activity(e) => UiEventView::Activity(e@),
            UiEvent::TopologySnapshot(s) => UiEventView::TopologySnapshot(s@),
            UiEvent::TopologyChanged(s) => UiEventView::TopologyChanged(s@),
        }
    }
}

/// The name under which the user interface listens for an event.
pub open spec fn event_name_of(e: UiEventView) -> Text {
    match e {
        UiEventView::ServerStatus(_) => "server_status"@,
        UiEventView::DevicesSnapshot(_) => "devices_snapshot"@,
        UiEventView::DeviceUpsert(_) => "device_upsert"@,
        UiEventView::DeviceRemove(_) => "device_remove"@,
        UiEventView::Log(_) => "log_event"@,
        UiEventView::TaskUpdate(_) => "task_update"@,
        UiEventView::Activity(_) => "activity_event"@,
        UiEventView::TopologySnapshot(_) => "topology_snapshot"@,
        UiEventView::TopologyChanged(_) => "topology_changed"@,
    }
}

impl UiEvent {
    /// The name under which the user interface listens for this event.
    pub fn name(&self) -> (r: &'static str)
        ensures
            r@ == event_name_of(self@),
    {
        match self {
            UiEvent::ServerStatus(_) => "server_status",
            UiEvent::DevicesSnapshot(_) => "devices_snapshot",
            UiEvent::DeviceUpsert(_) => "device_upsert",
            UiEvent::DeviceRemove(_) => "device_remove",
            UiEvent::Log(_) => "log_event",
            UiEvent::TaskUpdate(_) => "task_update",
            UiEvent::Activity(_) => "activity_event",
            UiEvent::TopologySnapshot(_) => "topology_snapshot",
            UiEvent::TopologyChanged(_) => "topology_changed",
        }
    }
}

/// The kinds of frame that an agent may send.
#[derive(Clone, Copy, Debug, PartialEq, Eq)]
pub enum FrameKind {
    Register,
    Heartbeat,
    TaskResult,
    /// Any other type: such a frame is passed over.
    Other,
}

/// The kind that the `type` of a frame names.
pub open spec fn frame_kind_of(message_type: Text) -> FrameKind {
    if message_type == "register"@ {
        FrameKind::Register
    } else if message_type == "heartbeat"@ {
        FrameKind::Heartbeat
    } else if message_type == "task_result"@ {
        FrameKind::TaskResult
    } else {
        FrameKind::Other
    }
}

/// The kind that the `type` of a frame names.
pub fn frame_kind(message_type: &str) -> (k: FrameKind)
    ensures
        k == frame_kind_of(message_type@),
{
    if text_eq(message_type, "register") {
        FrameKind::Register
    } else if text_eq(message_type, "heartbeat") {
        FrameKind::Heartbeat
    } else if text_eq(message_type, "task_result") {
        FrameKind::TaskResult
    } else {
        FrameKind::Other
    }
}

/// A frame from an agent, its payload read.
#[derive(Debug, PartialEq, Eq)]
pub enum Frame {
    Register(RegisterPayload),
    Heartbeat(HeartbeatPayload),
    TaskResult(TaskResultPayload),
    /// A frame of another type.
    Other,
}

/// The value of a `Frame`.
pub enum FrameView {
    Register(RegisterPayloadView),
    Heartbeat(HeartbeatPayloadView),
    TaskResult(TaskResultPayloadView),
    Other,
}

impl View for Frame {
    type V = FrameView;

    open spec fn view(&self) -> FrameView {
        match self {
            Frame::Register(p) => FrameView::Register(p@),
            Frame::Heartbeat(p) => FrameView::Heartbeat(p@),
            Frame::TaskResult(p) => FrameView::TaskResult(p@),
            Frame::Other => FrameView::Other,
        }
    }
}

} // verus!
