//! The watchdog: devices that stay silent are marked offline and announced.

use crate::clock::{fresh_id, now_ms};
use crate::emit::{activity_fits, then_activity, then_upsert, Step};
use crate::model::{
    after_sweep, device_ids, distinct, feed_has_room, is_stale, stale_devices, ServerState,
};
use crate::records::{DeviceRecord, DeviceRecordView};
use crate::state::ServerManager;
use crate::text::{join2, views, Text};
use crate::wire::{UiEvent, UiEventView};
use vstd::prelude::*;

verus! {

/// The message that a device timed out.
pub open spec fn timeout_message(hostname: Text) -> Text {
    hostname + " disconnected (heartbeat timeout)"@
}

/// A step on which a device that timed out is shown, by force, and announced
/// as disconnected.
pub open spec fn then_timeout(st: Step, d: DeviceRecordView, now: i64, id: Text) -> Step {
    then_activity(
        then_upsert(st, d, now, true),
        "device_disconnected"@,
        Some(d.agent_id),
        timeout_message(d.hostname),
        now,
        id,
    )
}

/// The steps on which the devices `stale` are shown and announced, one after
/// the other, with the identifiers `ids` for the entries.
pub open spec fn then_timeouts(st: Step, stale: Seq<DeviceRecordView>, now: i64, ids: Seq<Text>) -> Step
    decreases stale.len(),
{
    if stale.len() == 0 || ids.len() != stale.len() {
        st
    } else {
        then_timeout(
            then_timeouts(st, stale.drop_last(), now, ids.drop_last()),
            stale.last(),
            now,
            ids.last(),
        )
    }
}

/// What a run of the watchdog at `now` leads to: every stale device is
/// marked offline, and then each of them is shown and announced.
pub open spec fn watchdog_step(s: ServerState, now: i64, ids: Seq<Text>) -> Step {
    then_timeouts(
        Step { state: after_sweep(s, now), events: Seq::empty() },
        stale_devices(s.devices, now),
        now,
        ids,
    )
}

/// Every stale device is one of the devices.
pub proof fn lemma_stale_among(devices: Seq<DeviceRecordView>, now: i64, k: int)
    requires
        0 <= k < stale_devices(devices, now).len(),
    ensures
        exists|m: int|
            0 <= m < devices.len() && #[trigger] devices[m].agent_id == stale_devices(
                devices,
                now,
            )[k].agent_id,
    decreases devices.len(),
{
    let head = stale_devices(devices.drop_last(), now);
    if is_stale(devices.last(), now) && k == head.len() {
        assert(devices[devices.len() - 1].agent_id == stale_devices(devices, now)[k].agent_id);
    } else {
        lemma_stale_among(devices.drop_last(), now, k);
        let m = choose|m: int|
            0 <= m < devices.drop_last().len() && #[trigger] devices.drop_last()[m].agent_id
                == head[k].agent_id;
        assert(devices[m].agent_id == stale_devices(devices, now)[k].agent_id);
    }
}

/// No two stale devices are of one agent.
pub proof fn lemma_stale_distinct(devices: Seq<DeviceRecordView>, now: i64)
    requires
        distinct(device_ids(devices)),
    ensures
        distinct(device_ids(stale_devices(devices, now))),
    decreases devices.len(),
{
    if devices.len() > 0 {
        let rest = devices.drop_last();
        assert(distinct(device_ids(rest))) by {
            assert forall|i: int, j: int| 0 <= i < j < rest.len() implies device_ids(rest)[i]
                != device_ids(rest)[j] by {
                assert(device_ids(devices)[i] != device_ids(devices)[j]);
            }
        }
        lemma_stale_distinct(rest, now);
        let head = stale_devices(rest, now);
        let all = stale_devices(devices, now);
        assert forall|i: int, j: int| 0 <= i < j < all.len() implies device_ids(all)[i]
            != device_ids(all)[j] by {
            if j < head.len() {
                assert(device_ids(head)[i] != device_ids(head)[j]);
            } else {
                lemma_stale_among(rest, now, i);
                let m = choose|m: int|
                    0 <= m < rest.len() && #[trigger] rest[m].agent_id == head[i].agent_id;
                assert(device_ids(devices)[m] != device_ids(devices)[devices.len() - 1]);
            }
        }
    }
}

impl ServerManager {
    /// Shows a device that timed out, by force, and announces it.
    pub fn announce_timeout_at(
        &mut self,
        events: &mut Vec<UiEvent>,
        device: DeviceRecord,
        now: i64,
        id: String,
    )
        requires
            old(self).wf(),
            activity_fits(old(self)@, "device_disconnected"@, Some(device@.agent_id), now),
        ensures
            final(self).wf(),
            (Step { state: final(self)@, events: views(final(events)@) }) == then_timeout(
                Step { state: old(self)@, events: views(old(events)@) },
                device@,
                now,
                id@,
            ),
    {
        let agent = device.agent_id.clone();
        let message = join2(device.hostname.as_str(), " disconnected (heartbeat timeout)");
        self.emit_device_upsert_if_needed_at(events, device, true, now);
        self.emit_activity_at(events, "device_disconnected", Some(agent), message, now, id);
    }

    /// Runs the watchdog at `now`: marks the stale devices offline, and shows
    /// and announces each of them, under fresh identifiers.
    pub fn heartbeat_watchdog_at(&mut self, now: i64) -> (events: Vec<UiEvent>)
        requires
            old(self).wf(),
            feed_has_room(old(self)@),
        ensures
            final(self).wf(),
            exists|ids: Seq<Text>|
                ids.len() == stale_devices(old(self)@.devices, now).len() && (Step {
                    state: final(self)@,
                    events: views(events@),
                }) == #[trigger] watchdog_step(old(self)@, now, ids),
    {
        let ghost s = self@;
        let mut events: Vec<UiEvent> = Vec::new();
        assert(views(events@) =~= Seq::empty());
        let stale = self.sweep_stale(now);
        let ghost all = stale_devices(s.devices, now);
        let ghost start = Step { state: after_sweep(s, now), events: Seq::<UiEventView>::empty() };
        let ghost mut ids: Seq<Text> = Seq::empty();
        proof {
            lemma_stale_distinct(s.devices, now);
            assert(all.take(0) =~= Seq::empty());
        }
        let mut i: usize = 0;
        while i < stale.len()
            invariant
                i <= stale.len(),
                self.wf(),
                views(stale@) == all,
                distinct(device_ids(all)),
                ids.len() == i,
                (Step { state: self@, events: views(events@) }) == then_timeouts(
                    start,
                    all.take(i as int),
                    now,
                    ids,
                ),
                forall|k: int|
                    i <= k < all.len() ==> activity_fits(
                        self@,
                        "device_disconnected"@,
                        Some(#[trigger] all[k].agent_id),
                        now,
                    ),
            decreases stale.len() - i,
        {
            let id = fresh_id();
            let device = stale[i].clone();
            let ghost before = self@;
            proof {
                assert(device@ == all[i as int]);
                assert(all.take(i + 1).drop_last() == all.take(i as int));
                assert(all.take(i + 1).last() == all[i as int]);
                assert(ids.push(id@).drop_last() == ids);
            }
            self.announce_timeout_at(&mut events, device, now, id);
            proof {
                ids = ids.push(id@);
                assert forall|k: int| i + 1 <= k < all.len() implies activity_fits(
                    self@,
                    "device_disconnected"@,
                    Some(#[trigger] all[k].agent_id),
                    now,
                ) by {
                    assert(activity_fits(
                        before,
                        "device_disconnected"@,
                        Some(all[k].agent_id),
                        now,
                    ));
                    assert(device_ids(all)[i as int] != device_ids(all)[k]);
                }
            }
            i += 1;
        }
        proof {
            assert(all.take(all.len() as int) == all);
            assert(stale@.len() == all.len());
            assert((Step { state: self@, events: views(events@) }) == watchdog_step(s, now, ids));
        }
        events
    }

    /// Runs the watchdog at the time it is.
    pub fn heartbeat_watchdog(&mut self) -> (events: Vec<UiEvent>)
        requires
            old(self).wf(),
            feed_has_room(old(self)@),
        ensures
            final(self).wf(),
            exists|now: i64, ids: Seq<Text>|
                ids.len() == stale_devices(old(self)@.devices, now).len() && (Step {
                    state: final(self)@,
                    events: views(events@),
                }) == #[trigger] watchdog_step(old(self)@, now, ids),
    {
        let now = now_ms();
        self.heartbeat_watchdog_at(now)
    }
}

} // verus!
