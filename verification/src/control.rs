//! The commands of the user interface, and the life of the agent endpoint.

use crate::clock::{fresh_id, now_ms};
use crate::emit::{then_log, then_rebuild, then_status, Step};
use crate::model::{has_headroom, initial_state, revision_has_room, ServerState, WS_PORT};
use crate::records::NetworkFactsPayload;
use crate::state::ServerManager;
use crate::text::{decimal, join2, join3, u64_to_text, views, Text};
use crate::wire::UiEvent;
use vstd::prelude::*;

verus! {

/// A time and a fresh identifier, as one step needs them.
#[derive(Debug)]
pub struct Stamp {
    pub now: i64,
    pub id: String,
}

impl Stamp {
    /// The time it is, and an identifier that was not used before.
    pub fn fresh() -> (r: Self)
        ensures
            r.now >= 0,
            r.id@.len() == 36,
    {
        Stamp { now: now_ms(), id: fresh_id() }
    }
}

/// What a new secret leads to: it takes the place of the old one, the status
/// is shown, and the change is logged. Nobody who is connected is touched.
pub open spec fn rotate_step(s: ServerState, token: Text, now: i64, id: Text) -> Step {
    then_log(
        then_status(Step { state: ServerState { pair_token: token, ..s }, events: Seq::empty() }),
        None,
        "INFO"@,
        "Pair token rotated"@,
        now,
        id,
    )
}

/// What it leads to that the endpoint comes up or goes down: the state says
/// so, and the status is shown.
pub open spec fn online_step(s: ServerState, online: bool) -> Step {
    then_status(Step { state: ServerState { online, ..s }, events: Seq::empty() })
}

/// What the start of the runtime leads to: nothing if the server is online
/// already, else the topology is looked at.
pub open spec fn start_step(s: ServerState, now: i64) -> Step {
    if s.online {
        Step { state: s, events: Seq::empty() }
    } else {
        then_rebuild(Step { state: s, events: Seq::empty() }, now)
    }
}

/// The address that the agent endpoint listens on: any interface, the agent
/// port.
pub open spec fn endpoint_address() -> Text {
    "0.0.0.0:"@ + decimal(WS_PORT as int)
}

/// The path of the agent endpoint.
pub open spec fn endpoint_path() -> Text {
    "/ws/agent"@
}

/// What it leads to that the endpoint was asked to listen: on success the
/// server is online, on failure it is offline, and either is logged.
pub open spec fn bound_step(s: ServerState, error: Option<Text>, now: i64, id: Text) -> Step {
    match error {
        None => then_log(
            online_step(s, true),
            None,
            "INFO"@,
            "WS server listening on "@ + endpoint_address(),
            now,
            id,
        ),
        Some(e) => then_log(
            online_step(s, false),
            None,
            "ERROR"@,
            "ws: bind failed: "@ + e,
            now,
            id,
        ),
    }
}

/// What it leads to that the endpoint stopped with an error: the server is
/// offline, and the error is logged.
pub open spec fn stopped_step(s: ServerState, error: Text, now: i64, id: Text) -> Step {
    then_log(online_step(s, false), None, "ERROR"@, "WS server stopped: "@ + error, now, id)
}

/// What is logged of a connection from `remote`.
pub open spec fn connect_message(remote: Text) -> Text {
    "[WS] connect remote="@ + remote + " path="@ + endpoint_path()
}

/// A secret that was put in place, and what is to be shown of it.
#[derive(Debug)]
pub struct Rotation {
    pub token: String,
    pub events: Vec<UiEvent>,
}

/// Whether the runtime is to be started, and what is to be shown.
#[derive(Debug)]
pub struct Startup {
    /// False if the server is online already: then nothing is to be started.
    pub start: bool,
    pub events: Vec<UiEvent>,
}

/// The address that the agent endpoint listens on.
pub fn ws_bind_address() -> (r: String)
    ensures
        r@ == endpoint_address(),
{
    let port = u64_to_text(WS_PORT as u64);
    join2("0.0.0.0:", port.as_str())
}

/// The path of the agent endpoint.
pub fn ws_path() -> (r: &'static str)
    ensures
        r@ == endpoint_path(),
{
    "/ws/agent"
}

impl ServerManager {
    /// A server that was just made: offline, with a fresh secret, knowing
    /// nothing but its own network facts.
    pub fn new(admin_network: NetworkFactsPayload) -> (r: Self)
        ensures
            r.wf(),
            r@ == initial_state(admin_network@, r@.pair_token, r@.topology.updated_at),
            has_headroom(r@),
    {
        let token = fresh_id();
        let now = now_ms();
        ServerManager::new_at(admin_network, token, now)
    }

    /// Puts `token` in the place of the secret.
    pub fn rotate_pair_token_at(&mut self, token: String, now: i64, id: String) -> (events: Vec<
        UiEvent,
    >)
        requires
            old(self).wf(),
        ensures
            final(self).wf(),
            (Step { state: final(self)@, events: views(events@) }) == rotate_step(
                old(self)@,
                token@,
                now,
                id@,
            ),
    {
        let mut events: Vec<UiEvent> = Vec::new();
        assert(views(events@) =~= Seq::empty());
        self.replace_pair_token(token);
        self.emit_server_status(&mut events);
        self.emit_log_at(&mut events, None, "INFO", "Pair token rotated".to_owned(), now, id);
        events
    }

    /// Puts a fresh secret in the place of the old one, at the time it is.
    pub fn rotate_pair_token(&mut self) -> (r: Rotation)
        requires
            old(self).wf(),
        ensures
            final(self).wf(),
            exists|now: i64, id: Text|
                (Step { state: final(self)@, events: views(r.events@) }) == #[trigger] rotate_step(
                    old(self)@,
                    r.token@,
                    now,
                    id,
                ),
    {
        let token = fresh_id();
        let copy = token.clone();
        let now = now_ms();
        let id = fresh_id();
        let ghost stamped = id@;
        let events = self.rotate_pair_token_at(token, now, id);
        let r = Rotation { token: copy, events };
        assert((Step { state: self@, events: views(r.events@) }) == rotate_step(
            old(self)@,
            r.token@,
            now,
            stamped,
        ));
        r
    }

    /// Notes that the endpoint came up or went down, and shows the status.
    pub fn set_online(&mut self, online: bool) -> (events: Vec<UiEvent>)
        requires
            old(self).wf(),
        ensures
            final(self).wf(),
            (Step { state: final(self)@, events: views(events@) }) == online_step(
                old(self)@,
                online,
            ),
    {
        let mut events: Vec<UiEvent> = Vec::new();
        assert(views(events@) =~= Seq::empty());
        self.mark_online(online);
        self.emit_server_status(&mut events);
        events
    }

    /// Decides whether the runtime is to be started, and looks at the
    /// topology if it is.
    pub fn start_runtime_at(&mut self, now: i64) -> (r: Startup)
        requires
            old(self).wf(),
            revision_has_room(old(self)@),
        ensures
            final(self).wf(),
            r.start == !old(self)@.online,
            (Step { state: final(self)@, events: views(r.events@) }) == start_step(
                old(self)@,
                now,
            ),
    {
        let mut events: Vec<UiEvent> = Vec::new();
        assert(views(events@) =~= Seq::empty());
        if self.get_status().online {
            return Startup { start: false, events };
        }
        self.rebuild_topology_if_changed_at(&mut events, now);
        Startup { start: true, events }
    }

    /// Decides whether the runtime is to be started, at the time it is.
    pub fn start_runtime(&mut self) -> (r: Startup)
        requires
            old(self).wf(),
            revision_has_room(old(self)@),
        ensures
            final(self).wf(),
            r.start == !old(self)@.online,
            exists|now: i64|
                (Step { state: final(self)@, events: views(r.events@) }) == #[trigger] start_step(
                    old(self)@,
                    now,
                ),
    {
        let now = now_ms();
        self.start_runtime_at(now)
    }

    /// Logs that the endpoint is about to listen.
    pub fn ws_starting_at(&mut self, now: i64, id: String) -> (events: Vec<UiEvent>)
        requires
            old(self).wf(),
        ensures
            final(self).wf(),
            (Step { state: final(self)@, events: views(events@) }) == then_log(
                Step { state: old(self)@, events: Seq::empty() },
                None,
                "INFO"@,
                "Starting WS server on "@ + endpoint_address(),
                now,
                id@,
            ),
    {
        let mut events: Vec<UiEvent> = Vec::new();
        assert(views(events@) =~= Seq::empty());
        let address = ws_bind_address();
        let message = join2("Starting WS server on ", address.as_str());
        self.emit_log_at(&mut events, None, "INFO", message, now, id);
        events
    }

    /// Notes how the endpoint's attempt to listen went: `error` is what went
    /// wrong, if anything did.
    pub fn ws_bound_at(&mut self, error: Option<String>, now: i64, id: String) -> (events: Vec<
        UiEvent,
    >)
        requires
            old(self).wf(),
        ensures
            final(self).wf(),
            (Step { state: final(self)@, events: views(events@) }) == bound_step(
                old(self)@,
                match error {
                    Some(e) => Some(e@),
                    None => None,
                },
                now,
                id@,
            ),
    {
        match error {
            None => {
                let mut events = self.set_online(true);
                let address = ws_bind_address();
                let message = join2("WS server listening on ", address.as_str());
                self.emit_log_at(&mut events, None, "INFO", message, now, id);
                events
            },
            Some(e) => {
                let mut events = self.set_online(false);
                let message = join2("ws: bind failed: ", e.as_str());
                self.emit_log_at(&mut events, None, "ERROR", message, now, id);
                events
            },
        }
    }

    /// Notes that the endpoint stopped with an error.
    pub fn ws_stopped_at(&mut self, error: &str, now: i64, id: String) -> (events: Vec<UiEvent>)
        requires
            old(self).wf(),
        ensures
            final(self).wf(),
            (Step { state: final(self)@, events: views(events@) }) == stopped_step(
                old(self)@,
                error@,
                now,
                id@,
            ),
    {
        let mut events = self.set_online(false);
        let message = join2("WS server stopped: ", error);
        self.emit_log_at(&mut events, None, "ERROR", message, now, id);
        events
    }

    /// Logs that a connection from `remote` was opened.
    pub fn on_agent_connect_at(&mut self, remote: &str, now: i64, id: String) -> (events: Vec<
        UiEvent,
    >)
        requires
            old(self).wf(),
        ensures
            final(self).wf(),
            (Step { state: final(self)@, events: views(events@) }) == then_log(
                Step { state: old(self)@, events: Seq::empty() },
                None,
                "INFO"@,
                connect_message(remote@),
                now,
                id@,
            ),
    {
        let mut events: Vec<UiEvent> = Vec::new();
        assert(views(events@) =~= Seq::empty());
        let head = join3("[WS] connect remote=", remote, " path=");
        let message = join2(head.as_str(), ws_path());
        self.emit_log_at(&mut events, None, "INFO", message, now, id);
        events
    }
}

} // verus!
