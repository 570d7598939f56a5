//! What the admin shows to the user interface, step by step. Each function
//! here changes the state and adds to a list of events; the list is shown
//! once the state is let go of.

use crate::model::{
    activity_dropped, activity_merges, activity_shown, after_activity, after_log, after_rebuild,
    after_upsert_check, count_or_one, topology_changed, upsert_due, ServerState, UDP_PORT, WS_PORT,
};
use crate::records::{
    DeviceRecord, DeviceRecordView, DevicesSnapshotView, LogEvent, LogEventView, ServerStatus,
};
use crate::state::ServerManager;
use crate::text::{opt_text, views, Text};
use crate::wire::{UiEvent, UiEventView};
use vstd::prelude::*;

verus! {

/// A state together with the events that led to it and have yet to be shown.
pub struct Step {
    pub state: ServerState,
    pub events: Seq<UiEventView>,
}

/// The status that the state shows of the server.
pub open spec fn status_of(s: ServerState) -> ServerStatus {
    ServerStatus { online: s.online, port_ws: WS_PORT, port_udp: UDP_PORT }
}

/// A step on which the server's status is shown.
pub open spec fn then_status(st: Step) -> Step {
    Step { events: st.events.push(UiEventView::ServerStatus(status_of(st.state))), ..st }
}

/// A step on which an update of `device` is asked for. If it is due, the
/// device and then the list of all devices are shown.
pub open spec fn then_upsert(st: Step, device: DeviceRecordView, now: i64, force: bool) -> Step {
    if upsert_due(st.state, device.agent_id, now, force) {
        Step {
            state: after_upsert_check(st.state, device.agent_id, now, force),
            events: st.events.push(UiEventView::DeviceUpsert(device)).push(
                UiEventView::DevicesSnapshot(DevicesSnapshotView { devices: st.state.devices }),
            ),
        }
    } else {
        st
    }
}

/// A step on which an agent without a device record is shown to be gone.
pub open spec fn then_remove(st: Step, agent_id: Text) -> Step {
    Step {
        events: st.events.push(UiEventView::DeviceRemove(agent_id)).push(
            UiEventView::DevicesSnapshot(DevicesSnapshotView { devices: st.state.devices }),
        ),
        ..st
    }
}

/// A log entry.
pub open spec fn log_entry(agent_id: Option<Text>, level: Text, message: Text, now: i64, id: Text) -> LogEventView {
    LogEventView { id, agent_id, level, message, ts: now }
}

/// A step on which an entry is logged and shown.
pub open spec fn then_log(
    st: Step,
    agent_id: Option<Text>,
    level: Text,
    message: Text,
    now: i64,
    id: Text,
) -> Step {
    let e = log_entry(agent_id, level, message, now, id);
    Step { state: after_log(st.state, e), events: st.events.push(UiEventView::Log(e)) }
}

/// A step on which an activity event is taken into the feed and, unless it is
/// dropped, shown.
pub open spec fn then_activity(
    st: Step,
    kind: Text,
    agent_id: Option<Text>,
    message: Text,
    now: i64,
    id: Text,
) -> Step {
    Step {
        state: after_activity(st.state, kind, agent_id, message, now, id),
        events: match activity_shown(st.state, kind, agent_id, message, now, id) {
            Some(e) => st.events.push(UiEventView::Activity(e)),
            None => st.events,
        },
    }
}

/// A step on which the topology is looked at again. If its structure has
/// changed, the new one is shown, twice: as a snapshot and as a change.
pub open spec fn then_rebuild(st: Step, now: i64) -> Step {
    if topology_changed(st.state, now) {
        let next = after_rebuild(st.state, now);
        Step {
            state: next,
            events: st.events.push(UiEventView::TopologySnapshot(next.topology)).push(
                UiEventView::TopologyChanged(next.topology),
            ),
        }
    } else {
        st
    }
}

/// Whether an activity event can be taken in without a count running over:
/// it is dropped, or it makes an entry of its own, or the newest entry has
/// room for it.
pub open spec fn activity_fits(s: ServerState, kind: Text, agent_id: Option<Text>, now: i64) -> bool {
    !activity_dropped(s, agent_id, now) && activity_merges(s, kind, agent_id, now)
        ==> count_or_one(s.activity[0]) < u32::MAX
}

impl ServerManager {
    /// Shows the server's status.
    pub fn emit_server_status(&self, events: &mut Vec<UiEvent>)
        ensures
            views(final(events)@) == then_status(
                Step { state: self@, events: views(old(events)@) },
            ).events,
    {
        let ghost shown = views(events@);
        let e = UiEvent::ServerStatus(self.get_status());
        events.push(e);
        assert(views(events@) =~= shown.push(e@));
    }

    /// Asks for an update of `device` to be shown; it is if forced or due.
    pub fn emit_device_upsert_if_needed_at(
        &mut self,
        events: &mut Vec<UiEvent>,
        device: DeviceRecord,
        force: bool,
        now: i64,
    )
        requires
            old(self).wf(),
        ensures
            final(self).wf(),
            (Step { state: final(self)@, events: views(final(events)@) }) == then_upsert(
                Step { state: old(self)@, events: views(old(events)@) },
                device@,
                now,
                force,
            ),
    {
        let ghost shown = views(events@);
        if self.device_upsert_due(device.agent_id.as_str(), now, force) {
            let upsert = UiEvent::DeviceUpsert(device);
            let all = UiEvent::DevicesSnapshot(self.get_devices_snapshot());
            events.push(upsert);
            events.push(all);
            assert(views(events@) =~= shown.push(upsert@).push(all@));
        }
    }

    /// Shows that an agent without a device record is gone.
    pub fn emit_device_remove(&self, events: &mut Vec<UiEvent>, agent_id: String)
        ensures
            views(final(events)@) == then_remove(
                Step { state: self@, events: views(old(events)@) },
                agent_id@,
            ).events,
    {
        let ghost shown = views(events@);
        let gone = UiEvent::DeviceRemove(agent_id);
        let all = UiEvent::DevicesSnapshot(self.get_devices_snapshot());
        events.push(gone);
        events.push(all);
        assert(views(events@) =~= shown.push(gone@).push(all@));
    }

    /// Logs an entry and shows it.
    pub fn emit_log_at(
        &mut self,
        events: &mut Vec<UiEvent>,
        agent_id: Option<String>,
        level: &str,
        message: String,
        now: i64,
        id: String,
    )
        requires
            old(self).wf(),
        ensures
            final(self).wf(),
            (Step { state: final(self)@, events: views(final(events)@) }) == then_log(
                Step { state: old(self)@, events: views(old(events)@) },
                opt_text(agent_id),
                level@,
                message@,
                now,
                id@,
            ),
    {
        let ghost shown = views(events@);
        let entry = LogEvent { id, agent_id, level: level.to_owned(), message, ts: now };
        let e = UiEvent::Log(entry.clone());
        self.record_log(entry);
        events.push(e);
        assert(views(events@) =~= shown.push(e@));
    }

    /// Takes an activity event into the feed and shows the entry it made or
    /// went into, unless it is dropped.
    pub fn emit_activity_at(
        &mut self,
        events: &mut Vec<UiEvent>,
        kind: &str,
        agent_id: Option<String>,
        message: String,
        now: i64,
        id: String,
    )
        requires
            old(self).wf(),
            activity_fits(old(self)@, kind@, opt_text(agent_id), now),
        ensures
            final(self).wf(),
            (Step { state: final(self)@, events: views(final(events)@) }) == then_activity(
                Step { state: old(self)@, events: views(old(events)@) },
                kind@,
                opt_text(agent_id),
                message@,
                now,
                id@,
            ),
    {
        let ghost shown = views(events@);
        match self.record_activity(kind, agent_id, message, now, id) {
            Some(entry) => {
                let e = UiEvent::Activity(entry);
                events.push(e);
                assert(views(events@) =~= shown.push(e@));
            },
            None => {},
        }
    }

    /// Looks at the topology again and shows it if its structure has changed.
    pub fn rebuild_topology_if_changed_at(&mut self, events: &mut Vec<UiEvent>, now: i64)
        requires
            old(self).wf(),
            old(self)@.topology.revision < u64::MAX,
        ensures
            final(self).wf(),
            (Step { state: final(self)@, events: views(final(events)@) }) == then_rebuild(
                Step { state: old(self)@, events: views(old(events)@) },
                now,
            ),
    {
        let ghost shown = views(events@);
        if self.rebuild_topology(now) {
            let snapshot = UiEvent::TopologySnapshot(self.get_topology_snapshot());
            let changed = UiEvent::TopologyChanged(self.get_topology_snapshot());
            events.push(snapshot);
            events.push(changed);
            assert(views(events@) =~= shown.push(snapshot@).push(changed@));
        }
    }
}

} // verus!
