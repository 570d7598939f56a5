//! Tasks: their creation, their way out to the agents, and the note that
//! they run.

use crate::clock::{fresh_id, now_ms};
use crate::emit::{then_activity, Step};
use crate::json::value_clone;
use crate::model::{
    after_task_sent, after_task_stored, feed_has_room, has_task, queued_task, reachable_agents,
    supported_kind, task_position, ServerState,
};
use crate::records::{TaskRecord, TaskRecordView};
use crate::state::ServerManager;
use crate::text::{join3, text_eq, texts, views, Text};
use crate::wire::{
    OutboundTask, OutboundTaskView, TaskDispatchPayload, TaskDispatchPayloadView, UiEvent,
    UiEventView,
};
use vstd::prelude::*;

verus! {

/// A task that was created, and the frames that carry it to the agents.
#[derive(Debug)]
pub struct Dispatch {
    /// The task as it was stored: queued.
    pub task: TaskRecord,
    /// One frame for each assigned agent that has a channel.
    pub frames: Vec<OutboundTask>,
}

/// What the note that a task went out leads to.
#[derive(Debug)]
pub struct DispatchReport {
    /// The task as it then stands, if there is such a task.
    pub task: Option<TaskRecord>,
    /// What to show, in this order.
    pub events: Vec<UiEvent>,
}

/// Why a dispatch is refused, if it is: no agent is named, or the kind of
/// task is not one that agents know.
pub open spec fn dispatch_error(agents: Seq<Text>, kind: Text) -> Option<Text> {
    if agents.len() == 0 {
        Some("at least one agent is required"@)
    } else if !supported_kind(kind) {
        Some("unsupported task kind"@)
    } else {
        None
    }
}

/// The frames that carry the task `t` to `targets`.
pub open spec fn task_frames(t: TaskRecordView, targets: Seq<Text>, now: i64) -> Seq<OutboundTaskView> {
    Seq::new(
        targets.len(),
        |i: int|
            OutboundTaskView {
                agent_id: targets[i],
                ts: now,
                payload: TaskDispatchPayloadView {
                    task_id: t.task_id,
                    kind: t.kind,
                    params: t.params,
                },
            },
    )
}

/// The message that a task has started.
pub open spec fn started_message(t: TaskRecordView) -> Text {
    "Task started: "@ + t.kind + " ("@ + t.task_id + ")"@
}

/// What the note that `delivered` frames of a task went out leads to.
/// Nothing, if there is no such task. Else the task runs if a frame went out,
/// is shown, and its start is announced.
pub open spec fn sent_step(s: ServerState, task_id: Text, delivered: int, now: i64, id: Text) -> Step {
    if !has_task(s, task_id) {
        Step { state: s, events: Seq::empty() }
    } else {
        let s1 = after_task_sent(s, task_id, delivered, now);
        let t = s1.tasks[task_position(s, task_id)];
        then_activity(
            Step { state: s1, events: seq![UiEventView::TaskUpdate(t)] },
            "task_started"@,
            None,
            started_message(t),
            now,
            id,
        )
    }
}

impl ServerManager {
    /// Creates a task for `agents` under the identifier `task_id` and gives
    /// the frames to hand to the channels of those agents that have one.
    /// Refuses an empty list of agents and a kind that agents do not know,
    /// and then leaves the state as it is.
    pub fn dispatch_task_at(
        &mut self,
        agents: Vec<String>,
        kind: String,
        params: serde_json::Value,
        now: i64,
        task_id: String,
    ) -> (r: Result<Dispatch, String>)
        requires
            old(self).wf(),
        ensures
            final(self).wf(),
            match r {
                Ok(d) => {
                    let t = queued_task(task_id@, kind@, params, texts(agents@), now);
                    &&& dispatch_error(texts(agents@), kind@) is None
                    &&& final(self)@ == after_task_stored(old(self)@, t)
                    &&& d.task@ == t
                    &&& views(d.frames@) == task_frames(
                        t,
                        reachable_agents(texts(agents@), old(self)@.connections),
                        now,
                    )
                },
                Err(e) => {
                    &&& dispatch_error(texts(agents@), kind@) == Some(e@)
                    &&& final(self)@ == old(self)@
                },
            },
    {
        if agents.len() == 0 {
            return Err("at least one agent is required".to_owned());
        }
        if !(text_eq(kind.as_str(), "ping") || text_eq(kind.as_str(), "port_scan") || text_eq(
            kind.as_str(),
            "arp_snapshot",
        )) {
            return Err("unsupported task kind".to_owned());
        }
        let targets = self.reachable(&agents);
        let task = TaskRecord {
            task_id,
            kind,
            params,
            assigned_agents: agents,
            status: "queued".to_owned(),
            created_at: now,
            started_at: None,
            ended_at: None,
            results: Vec::new(),
        };
        assert(task@.results =~= Seq::empty());
        let mut frames: Vec<OutboundTask> = Vec::new();
        let mut i: usize = 0;
        while i < targets.len()
            invariant
                i <= targets.len(),
                frames@.len() == i,
                forall|k: int|
                    0 <= k < i ==> (#[trigger] frames@[k])@ == task_frames(
                        task@,
                        texts(targets@),
                        now,
                    )[k],
            decreases targets.len() - i,
        {
            frames.push(
                OutboundTask {
                    agent_id: targets[i].clone(),
                    ts: now,
                    payload: TaskDispatchPayload {
                        task_id: task.task_id.clone(),
                        kind: task.kind.clone(),
                        params: value_clone(&task.params),
                    },
                },
            );
            i += 1;
        }
        assert(views(frames@) =~= task_frames(task@, texts(targets@), now));
        self.store_task(task.clone());
        Ok(Dispatch { task, frames })
    }

    /// Notes that `delivered` frames of the task `task_id` went out, and
    /// gives what is to be shown.
    pub fn dispatch_sent_at(&mut self, task_id: &str, delivered: usize, now: i64, id: String) -> (r:
        DispatchReport)
        requires
            old(self).wf(),
            feed_has_room(old(self)@),
        ensures
            final(self).wf(),
            (Step { state: final(self)@, events: views(r.events@) }) == sent_step(
                old(self)@,
                task_id@,
                delivered as int,
                now,
                id@,
            ),
            r.task is Some == has_task(old(self)@, task_id@),
            r.task is Some ==> r.task->0@ == final(self)@.tasks[task_position(
                old(self)@,
                task_id@,
            )],
    {
        let mut events: Vec<UiEvent> = Vec::new();
        assert(views(events@) =~= Seq::empty());
        let task = match self.mark_task_sent(task_id, delivered, now) {
            Some(t) => t,
            None => {
                return DispatchReport { task: None, events };
            },
        };
        let head = join3("Task started: ", task.kind.as_str(), " (");
        let message = join3(head.as_str(), task.task_id.as_str(), ")");
        let shown = UiEvent::TaskUpdate(task.clone());
        events.push(shown);
        assert(views(events@) =~= seq![shown@]);
        self.emit_activity_at(&mut events, "task_started", None, message, now, id);
        DispatchReport { task: Some(task), events }
    }

    /// Creates a task for `agents`, at the time it is and under a fresh
    /// identifier.
    pub fn dispatch_task(&mut self, agents: Vec<String>, kind: String, params: serde_json::Value) -> (r:
        Result<Dispatch, String>)
        requires
            old(self).wf(),
        ensures
            final(self).wf(),
            match r {
                Ok(d) => {
                    let t = queued_task(
                        d.task@.task_id,
                        kind@,
                        params,
                        texts(agents@),
                        d.task@.created_at,
                    );
                    &&& dispatch_error(texts(agents@), kind@) is None
                    &&& final(self)@ == after_task_stored(old(self)@, t)
                    &&& d.task@ == t
                    &&& views(d.frames@) == task_frames(
                        t,
                        reachable_agents(texts(agents@), old(self)@.connections),
                        d.task@.created_at,
                    )
                },
                Err(e) => {
                    &&& dispatch_error(texts(agents@), kind@) == Some(e@)
                    &&& final(self)@ == old(self)@
                },
            },
    {
        let task_id = fresh_id();
        let now = now_ms();
        self.dispatch_task_at(agents, kind, params, now, task_id)
    }

    /// Notes that `delivered` frames of the task `task_id` went out, at the
    /// time it is.
    pub fn dispatch_sent(&mut self, task_id: &str, delivered: usize) -> (r: DispatchReport)
        requires
            old(self).wf(),
            feed_has_room(old(self)@),
        ensures
            final(self).wf(),
            exists|now: i64, id: Text|
                (Step { state: final(self)@, events: views(r.events@) }) == #[trigger] sent_step(
                    old(self)@,
                    task_id@,
                    delivered as int,
                    now,
                    id,
                ),
            r.task is Some == has_task(old(self)@, task_id@),
    {
        let now = now_ms();
        let id = fresh_id();
        self.dispatch_sent_at(task_id, delivered, now, id)
    }
}

} // verus!
