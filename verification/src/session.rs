//! The session of one agent: what each of its frames makes of the state,
//! what is answered, and what is shown.

use crate::clock::{fresh_id, now_ms};
use crate::emit::{then_activity, then_log, then_rebuild, then_remove, then_upsert, Step};
use crate::model::{
    after_disconnect, after_heartbeat, after_register, after_task_result, device_position,
    feed_has_room, has_device, has_headroom, has_task, heartbeat_device, offline_device, reported_task,
    task_position, ServerState,
};
use crate::records::TaskRecordView;
use crate::state::ServerManager;
use crate::text::{join2, join3, opt_text, text_eq, views, Text};
use crate::wire::{
    Frame, FrameView, HeartbeatPayload, HeartbeatPayloadView, RegisterPayload,
    RegisterPayloadView, RegisteredReply, RegisteredReplyView, TaskResultPayload,
    TaskResultPayloadView, UiEvent, UiEventView,
};
use vstd::prelude::*;

verus! {

/// What is known of one connection: the agent that registered on it, if one
/// did.
#[derive(Debug)]
pub struct Session {
    pub registered_agent_id: Option<String>,
}

impl View for Session {
    type V = Option<Text>;

    open spec fn view(&self) -> Option<Text> {
        opt_text(self.registered_agent_id)
    }
}

impl Session {
    /// The session of a connection that was just opened.
    pub fn new() -> (r: Self)
        ensures
            r@ is None,
    {
        Session { registered_agent_id: None }
    }
}

/// Fresh identifiers for the entries that one frame may add to the feeds.
#[derive(Debug)]
pub struct FrameIds {
    /// For the activity entry of a register, a status change or a task report.
    pub activity: String,
    pub internet_log: String,
    pub internet_activity: String,
    pub dns_log: String,
    pub dns_activity: String,
}

/// The value of a `FrameIds`.
pub struct FrameIdsView {
    pub activity: Text,
    pub internet_log: Text,
    pub internet_activity: Text,
    pub dns_log: Text,
    pub dns_activity: Text,
}

impl View for FrameIds {
    type V = FrameIdsView;

    open spec fn view(&self) -> FrameIdsView {
        FrameIdsView {
            activity: self.activity@,
            internet_log: self.internet_log@,
            internet_activity: self.internet_activity@,
            dns_log: self.dns_log@,
            dns_activity: self.dns_activity@,
        }
    }
}

impl Clone for FrameIds {
    fn clone(&self) -> (r: Self)
        ensures
            r@ == self@,
    {
        FrameIds {
            activity: self.activity.clone(),
            internet_log: self.internet_log.clone(),
            internet_activity: self.internet_activity.clone(),
            dns_log: self.dns_log.clone(),
            dns_activity: self.dns_activity.clone(),
        }
    }
}


impl FrameIds {
    /// Five fresh identifiers.
    pub fn fresh() -> (r: Self)
        ensures
            r@.activity.len() == 36,
            r@.internet_log.len() == 36,
            r@.internet_activity.len() == 36,
            r@.dns_log.len() == 36,
            r@.dns_activity.len() == 36,
    {
        FrameIds {
            activity: fresh_id(),
            internet_log: fresh_id(),
            internet_activity: fresh_id(),
            dns_log: fresh_id(),
            dns_activity: fresh_id(),
        }
    }
}

/// What a frame led to, for the connection it came on.
#[derive(Debug)]
pub struct FrameOutcome {
    /// What to answer on the connection.
    pub reply: Option<RegisteredReply>,
    /// Whether to close the connection.
    pub close: bool,
    /// What to show, in this order.
    pub events: Vec<UiEvent>,
}

/// What a frame makes of the state and the session, and what it leads to.
pub struct FrameResult {
    pub state: ServerState,
    pub session: Option<Text>,
    pub reply: Option<RegisteredReplyView>,
    pub close: bool,
    pub events: Seq<UiEventView>,
}

/// How a health flag is written in a message.
pub open spec fn flag_text(flag: Option<bool>) -> Text {
    match flag {
        Some(true) => "Some(true)"@,
        Some(false) => "Some(false)"@,
        None => "None"@,
    }
}

fn flag_to_text(flag: Option<bool>) -> (r: &'static str)
    ensures
        r@ == flag_text(flag),
{
    match flag {
        Some(true) => "Some(true)",
        Some(false) => "Some(false)",
        None => "None",
    }
}

/// `a -> b`.
pub open spec fn arrow_text(a: Text, b: Text) -> Text {
    a + " -> "@ + b
}

/// The message of a first register.
pub open spec fn connected_message(hostname: Text) -> Text {
    hostname + " connected"@
}

/// The message of a change of status.
pub open spec fn status_message(hostname: Text, was: Text, is: Text) -> Text {
    hostname + " status "@ + arrow_text(was, is)
}

/// The message of a torn-down channel.
pub open spec fn disconnected_message(hostname: Text) -> Text {
    hostname + " disconnected"@
}

/// The message of a task report.
pub open spec fn task_message(t: TaskRecordView) -> Text {
    "Task "@ + t.task_id + " status "@ + t.status
}

/// The kind of activity that a task report makes, by the status the task
/// then has.
pub open spec fn task_activity_kind(status: Text) -> Text {
    if status == "failed"@ {
        "task_failed"@
    } else if status == "done"@ {
        "task_completed"@
    } else {
        "task_started"@
    }
}

/// The answer to a register: yes if its secret is the one that holds now.
pub open spec fn register_reply(s: ServerState, p: RegisterPayloadView, now: i64) -> RegisteredReplyView {
    RegisteredReplyView {
        agent_id: p.agent_id,
        ok: p.secret == s.pair_token,
        error: if p.secret == s.pair_token {
            None
        } else {
            Some("invalid shared secret"@)
        },
        server_time: now,
        ts: now,
    }
}

/// What a register with the right secret leads to: the device is updated and
/// shown, by force; a new device is announced as connected, one that was not
/// online as changed; the topology is looked at again.
pub open spec fn register_step(s: ServerState, p: RegisterPayloadView, now: i64, id: Text) -> Step {
    let i = device_position(s, p.agent_id);
    let s1 = after_register(s, p, now);
    let d = s1.devices[i];
    let st = then_upsert(Step { state: s1, events: Seq::empty() }, d, now, true);
    let st = if !has_device(s, p.agent_id) {
        then_activity(
            st,
            "device_connected"@,
            Some(d.agent_id),
            connected_message(d.hostname),
            now,
            id,
        )
    } else if s.devices[i].status != "online"@ {
        then_activity(
            st,
            "device_status_changed"@,
            Some(d.agent_id),
            status_message(d.hostname, s.devices[i].status, "online"@),
            now,
            id,
        )
    } else {
        st
    };
    then_rebuild(st, now)
}

/// What a heartbeat leads to. Nothing, if the agent has no device record.
/// Else the device is updated and, if due, shown; changes of status, of the
/// internet flag and of the DNS flag are announced, the last two logged as
/// well; the topology is looked at again.
pub open spec fn heartbeat_step(
    s: ServerState,
    agent_id: Text,
    p: HeartbeatPayloadView,
    now: i64,
    ids: FrameIdsView,
) -> Step {
    let i = device_position(s, agent_id);
    if !has_device(s, agent_id) {
        Step { state: s, events: Seq::empty() }
    } else {
        let was = s.devices[i];
        let d = heartbeat_device(was, p, now);
        let st = then_upsert(
            Step { state: after_heartbeat(s, agent_id, p, now), events: Seq::empty() },
            d,
            now,
            false,
        );
        let st = if was.status != d.status {
            then_activity(
                st,
                "device_status_changed"@,
                Some(d.agent_id),
                status_message(d.hostname, was.status, d.status),
                now,
                ids.activity,
            )
        } else {
            st
        };
        let st = if was.internet_reachable != d.internet_reachable {
            let change = arrow_text(
                flag_text(was.internet_reachable),
                flag_text(d.internet_reachable),
            );
            then_activity(
                then_log(
                    st,
                    Some(d.agent_id),
                    "INFO"@,
                    "internet_reachable changed "@ + change,
                    now,
                    ids.internet_log,
                ),
                "internet_status_changed"@,
                Some(d.agent_id),
                d.hostname + " internet "@ + change,
                now,
                ids.internet_activity,
            )
        } else {
            st
        };
        let st = if was.dns_ok != d.dns_ok {
            let change = arrow_text(flag_text(was.dns_ok), flag_text(d.dns_ok));
            then_activity(
                then_log(
                    st,
                    Some(d.agent_id),
                    "INFO"@,
                    "dns_ok changed "@ + change,
                    now,
                    ids.dns_log,
                ),
                "dns_status_changed"@,
                Some(d.agent_id),
                d.hostname + " dns "@ + change,
                now,
                ids.dns_activity,
            )
        } else {
            st
        };
        then_rebuild(st, now)
    }
}

/// What a task report leads to. Nothing, if there is no such task. Else the
/// task is shown as it then stands, and the report is announced.
pub open spec fn task_result_step(
    s: ServerState,
    agent_id: Text,
    p: TaskResultPayloadView,
    now: i64,
    id: Text,
) -> Step {
    if !has_task(s, p.task_id) {
        Step { state: s, events: Seq::empty() }
    } else {
        let t = reported_task(s.tasks[task_position(s, p.task_id)], agent_id, p, now);
        then_activity(
            Step {
                state: after_task_result(s, agent_id, p, now),
                events: seq![UiEventView::TaskUpdate(t)],
            },
            task_activity_kind(t.status),
            Some(agent_id),
            task_message(t),
            now,
            id,
        )
    }
}

/// What the end of a session leads to: the agent loses its channel; its
/// device is marked offline, shown by force and announced as disconnected, or,
/// if it has none, shown as removed; the topology is looked at again.
pub open spec fn disconnect_step(s: ServerState, agent_id: Text, now: i64, id: Text) -> Step {
    let s1 = after_disconnect(s, agent_id, now);
    let st = if has_device(s, agent_id) {
        let d = offline_device(s.devices[device_position(s, agent_id)], now);
        then_activity(
            then_upsert(Step { state: s1, events: Seq::empty() }, d, now, true),
            "device_disconnected"@,
            Some(d.agent_id),
            disconnected_message(d.hostname),
            now,
            id,
        )
    } else {
        then_remove(Step { state: s1, events: Seq::empty() }, agent_id)
    };
    then_rebuild(st, now)
}

/// What a frame leads to.
///
/// A register is answered, whoever sends it. With the wrong secret the
/// connection is closed and nothing else happens; with the right one the
/// session belongs to the agent from then on. Heartbeats and task reports
/// count only on a session that has registered, and go by the agent of the
/// session, not by what the frame says. Anything else is passed over.
pub open spec fn frame_result(
    s: ServerState,
    session: Option<Text>,
    frame: FrameView,
    now: i64,
    ids: FrameIdsView,
) -> FrameResult {
    match frame {
        FrameView::Register(p) => {
            if p.secret == s.pair_token {
                let st = register_step(s, p, now, ids.activity);
                FrameResult {
                    state: st.state,
                    session: Some(p.agent_id),
                    reply: Some(register_reply(s, p, now)),
                    close: false,
                    events: st.events,
                }
            } else {
                FrameResult {
                    state: s,
                    session,
                    reply: Some(register_reply(s, p, now)),
                    close: true,
                    events: Seq::empty(),
                }
            }
        },
        FrameView::Heartbeat(p) => match session {
            Some(agent_id) => {
                let st = heartbeat_step(s, agent_id, p, now, ids);
                FrameResult {
                    state: st.state,
                    session,
                    reply: None,
                    close: false,
                    events: st.events,
                }
            },
            None => FrameResult { state: s, session, reply: None, close: false, events: Seq::empty() },
        },
        FrameView::TaskResult(p) => match session {
            Some(agent_id) => {
                let st = task_result_step(s, agent_id, p, now, ids.activity);
                FrameResult {
                    state: st.state,
                    session,
                    reply: None,
                    close: false,
                    events: st.events,
                }
            },
            None => FrameResult { state: s, session, reply: None, close: false, events: Seq::empty() },
        },
        FrameView::Other => FrameResult {
            state: s,
            session,
            reply: None,
            close: false,
            events: Seq::empty(),
        },
    }
}

fn arrow(a: &str, b: &str) -> (r: String)
    ensures
        r@ == arrow_text(a@, b@),
{
    join3(a, " -> ", b)
}

impl ServerManager {
    /// Lays a register with the right secret into the state and gives what
    /// is to be shown.
    pub fn handle_register_at(&mut self, p: &RegisterPayload, now: i64, id: String) -> (events: Vec<
        UiEvent,
    >)
        requires
            old(self).wf(),
            has_headroom(old(self)@),
        ensures
            final(self).wf(),
            (Step { state: final(self)@, events: views(events@) }) == register_step(
                old(self)@,
                p@,
                now,
                id@,
            ),
    {
        let mut events: Vec<UiEvent> = Vec::new();
        assert(views(events@) =~= Seq::empty());
        let change = self.register_device(p, now);
        let hostname = change.device.hostname.clone();
        let agent = change.device.agent_id.clone();
        self.emit_device_upsert_if_needed_at(&mut events, change.device, true, now);
        if change.was_new {
            let message = join2(hostname.as_str(), " connected");
            self.emit_activity_at(
                &mut events,
                "device_connected",
                Some(agent),
                message,
                now,
                id,
            );
        } else if !text_eq(change.old_status.as_str(), "online") {
            let tail = arrow(change.old_status.as_str(), "online");
            let message = join3(hostname.as_str(), " status ", tail.as_str());
            self.emit_activity_at(
                &mut events,
                "device_status_changed",
                Some(agent),
                message,
                now,
                id,
            );
        }
        self.rebuild_topology_if_changed_at(&mut events, now);
        events
    }

    /// Lays a heartbeat of `agent_id` into the state and gives what is to be
    /// shown.
    pub fn handle_heartbeat_at(
        &mut self,
        agent_id: &str,
        p: &HeartbeatPayload,
        now: i64,
        ids: FrameIds,
    ) -> (events: Vec<UiEvent>)
        requires
            old(self).wf(),
            has_headroom(old(self)@),
        ensures
            final(self).wf(),
            (Step { state: final(self)@, events: views(events@) }) == heartbeat_step(
                old(self)@,
                agent_id@,
                p@,
                now,
                ids@,
            ),
    {
        let mut events: Vec<UiEvent> = Vec::new();
        assert(views(events@) =~= Seq::empty());
        let change = match self.apply_heartbeat(agent_id, p, now) {
            Some(c) => c,
            None => {
                return events;
            },
        };
        let FrameIds { activity, internet_log, internet_activity, dns_log, dns_activity } = ids;
        let hostname = change.device.hostname.clone();
        let agent = change.device.agent_id.clone();
        let status = change.device.status.clone();
        let internet = change.device.internet_reachable;
        let dns = change.device.dns_ok;
        self.emit_device_upsert_if_needed_at(&mut events, change.device, false, now);
        if !text_eq(change.old_status.as_str(), status.as_str()) {
            let tail = arrow(change.old_status.as_str(), status.as_str());
            let message = join3(hostname.as_str(), " status ", tail.as_str());
            self.emit_activity_at(
                &mut events,
                "device_status_changed",
                Some(agent.clone()),
                message,
                now,
                activity,
            );
        }
        if change.old_internet != internet {
            let tail = arrow(flag_to_text(change.old_internet), flag_to_text(internet));
            let log_message = join2("internet_reachable changed ", tail.as_str());
            let message = join3(hostname.as_str(), " internet ", tail.as_str());
            self.emit_log_at(
                &mut events,
                Some(agent.clone()),
                "INFO",
                log_message,
                now,
                internet_log,
            );
            self.emit_activity_at(
                &mut events,
                "internet_status_changed",
                Some(agent.clone()),
                message,
                now,
                internet_activity,
            );
        }
        if change.old_dns != dns {
            let tail = arrow(flag_to_text(change.old_dns), flag_to_text(dns));
            let log_message = join2("dns_ok changed ", tail.as_str());
            let message = join3(hostname.as_str(), " dns ", tail.as_str());
            self.emit_log_at(&mut events, Some(agent.clone()), "INFO", log_message, now, dns_log);
            self.emit_activity_at(
                &mut events,
                "dns_status_changed",
                Some(agent.clone()),
                message,
                now,
                dns_activity,
            );
        }
        self.rebuild_topology_if_changed_at(&mut events, now);
        events
    }

    /// Lays a task report of `agent_id` into the state and gives what is to
    /// be shown.
    pub fn handle_task_result_at(
        &mut self,
        agent_id: &str,
        p: TaskResultPayload,
        now: i64,
        id: String,
    ) -> (events: Vec<UiEvent>)
        requires
            old(self).wf(),
            feed_has_room(old(self)@),
        ensures
            final(self).wf(),
            (Step { state: final(self)@, events: views(events@) }) == task_result_step(
                old(self)@,
                agent_id@,
                p@,
                now,
                id@,
            ),
    {
        let mut events: Vec<UiEvent> = Vec::new();
        assert(views(events@) =~= Seq::empty());
        let task = match self.apply_task_result(agent_id, p, now) {
            Some(t) => t,
            None => {
                return events;
            },
        };
        let kind = if text_eq(task.status.as_str(), "failed") {
            "task_failed"
        } else if text_eq(task.status.as_str(), "done") {
            "task_completed"
        } else {
            "task_started"
        };
        let head = join2("Task ", task.task_id.as_str());
        let message = join3(head.as_str(), " status ", task.status.as_str());
        let shown = UiEvent::TaskUpdate(task);
        events.push(shown);
        assert(views(events@) =~= seq![shown@]);
        self.emit_activity_at(&mut events, kind, Some(agent_id.to_owned()), message, now, id);
        events
    }

    /// Ends the session of `agent_id` and gives what is to be shown.
    pub fn on_agent_disconnect_at(&mut self, agent_id: String, now: i64, id: String) -> (events:
        Vec<UiEvent>)
        requires
            old(self).wf(),
            has_headroom(old(self)@),
        ensures
            final(self).wf(),
            (Step { state: final(self)@, events: views(events@) }) == disconnect_step(
                old(self)@,
                agent_id@,
                now,
                id@,
            ),
    {
        let mut events: Vec<UiEvent> = Vec::new();
        assert(views(events@) =~= Seq::empty());
        match self.mark_disconnected(agent_id.as_str(), now) {
            Some(device) => {
                let agent = device.agent_id.clone();
                let message = join2(device.hostname.as_str(), " disconnected");
                self.emit_device_upsert_if_needed_at(&mut events, device, true, now);
                self.emit_activity_at(
                    &mut events,
                    "device_disconnected",
                    Some(agent),
                    message,
                    now,
                    id,
                );
            },
            None => {
                self.emit_device_remove(&mut events, agent_id);
            },
        }
        self.rebuild_topology_if_changed_at(&mut events, now);
        events
    }

    /// Takes one frame of a connection, at the time `now` and with the
    /// identifiers `ids` for what it may add to the feeds.
    pub fn handle_frame_at(&mut self, session: &mut Session, frame: Frame, now: i64, ids: FrameIds) -> (out:
        FrameOutcome)
        requires
            old(self).wf(),
            has_headroom(old(self)@),
        ensures
            final(self).wf(),
            frame_result(old(self)@, old(session)@, frame@, now, ids@) == (FrameResult {
                state: final(self)@,
                session: final(session)@,
                reply: match out.reply {
                    Some(r) => Some(r@),
                    None => None,
                },
                close: out.close,
                events: views(out.events@),
            }),
    {
        match frame {
            Frame::Register(p) => {
                let ok = self.secret_matches(p.secret.as_str());
                let reply = RegisteredReply {
                    agent_id: p.agent_id.clone(),
                    ok,
                    error: if ok {
                        None
                    } else {
                        Some("invalid shared secret".to_owned())
                    },
                    server_time: now,
                    ts: now,
                };
                if ok {
                    let events = self.handle_register_at(&p, now, ids.activity);
                    session.registered_agent_id = Some(p.agent_id);
                    FrameOutcome { reply: Some(reply), close: false, events }
                } else {
                    let events: Vec<UiEvent> = Vec::new();
                    assert(views(events@) =~= Seq::empty());
                    FrameOutcome { reply: Some(reply), close: true, events }
                }
            },
            Frame::Heartbeat(p) => {
                let agent = match &session.registered_agent_id {
                    Some(a) => a.clone(),
                    None => {
                        let events: Vec<UiEvent> = Vec::new();
                        assert(views(events@) =~= Seq::empty());
                        return FrameOutcome { reply: None, close: false, events };
                    },
                };
                let events = self.handle_heartbeat_at(agent.as_str(), &p, now, ids);
                FrameOutcome { reply: None, close: false, events }
            },
            Frame::TaskResult(p) => {
                let agent = match &session.registered_agent_id {
                    Some(a) => a.clone(),
                    None => {
                        let events: Vec<UiEvent> = Vec::new();
                        assert(views(events@) =~= Seq::empty());
                        return FrameOutcome { reply: None, close: false, events };
                    },
                };
                let events = self.handle_task_result_at(agent.as_str(), p, now, ids.activity);
                FrameOutcome { reply: None, close: false, events }
            },
            Frame::Other => {
                let events: Vec<UiEvent> = Vec::new();
                assert(views(events@) =~= Seq::empty());
                FrameOutcome { reply: None, close: false, events }
            },
        }
    }

    /// Takes one frame of a connection, at the time it is and under fresh
    /// identifiers.
    pub fn handle_frame(&mut self, session: &mut Session, frame: Frame) -> (out: FrameOutcome)
        requires
            old(self).wf(),
            has_headroom(old(self)@),
        ensures
            final(self).wf(),
            exists|now: i64, ids: FrameIdsView| #[trigger]
                frame_result(old(self)@, old(session)@, frame@, now, ids) == (FrameResult {
                    state: final(self)@,
                    session: final(session)@,
                    reply: match out.reply {
                        Some(r) => Some(r@),
                        None => None,
                    },
                    close: out.close,
                    events: views(out.events@),
                }),
    {
        let now = now_ms();
        let ids = FrameIds::fresh();
        let ghost stamped = ids@;
        let out = self.handle_frame_at(session, frame, now, ids);
        assert(frame_result(old(self)@, old(session)@, frame@, now, stamped) == (FrameResult {
            state: self@,
            session: session@,
            reply: match out.reply {
                Some(r) => Some(r@),
                None => None,
            },
            close: out.close,
            events: views(out.events@),
        }));
        out
    }

    /// Ends the session of `agent_id`, at the time it is.
    pub fn on_agent_disconnect(&mut self, agent_id: String) -> (events: Vec<UiEvent>)
        requires
            old(self).wf(),
            has_headroom(old(self)@),
        ensures
            final(self).wf(),
            exists|now: i64, id: Text|
                (Step { state: final(self)@, events: views(events@) }) == #[trigger] disconnect_step(
                    old(self)@,
                    agent_id@,
                    now,
                    id,
                ),
    {
        let now = now_ms();
        let id = fresh_id();
        self.on_agent_disconnect_at(agent_id, now, id)
    }
}

} // verus!
