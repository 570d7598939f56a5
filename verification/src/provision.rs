//! Pairing: the advertisement that the admin broadcasts once a second while
//! it is online, and the answers that agents send to it.

use crate::emit::{then_log, Step};
use crate::model::{ServerState, UDP_PORT};
use crate::state::ServerManager;
use crate::text::{decimal, i64_to_text, join2, join3, text_eq, u64_to_text, views, Text};
use crate::wire::UiEvent;
use vstd::prelude::*;

verus! {

/// The pairing advertisement that the admin broadcasts.
#[derive(Debug, PartialEq, Eq)]
pub struct ProvisionBroadcast {
    /// Always `LABSCAN_PROVISION`.
    pub message_type: String,
    pub v: u8,
    pub admin_ip: String,
    pub secret: String,
    pub nonce: String,
}

/// The value of a `ProvisionBroadcast`.
pub struct ProvisionBroadcastView {
    pub message_type: Text,
    pub v: u8,
    pub admin_ip: Text,
    pub secret: Text,
    pub nonce: Text,
}

impl View for ProvisionBroadcast {
    type V = ProvisionBroadcastView;

    open spec fn view(&self) -> ProvisionBroadcastView {
        ProvisionBroadcastView {
            message_type: self.message_type@,
            v: self.v,
            admin_ip: self.admin_ip@,
            secret: self.secret@,
            nonce: self.nonce@,
        }
    }
}

impl Clone for ProvisionBroadcast {
    fn clone(&self) -> (r: Self)
        ensures
            r@ == self@,
    {
        ProvisionBroadcast {
            message_type: self.message_type.clone(),
            v: self.v,
            admin_ip: self.admin_ip.clone(),
            secret: self.secret.clone(),
            nonce: self.nonce.clone(),
        }
    }
}
/// An agent's answer to a pairing advertisement.
#[derive(Debug, PartialEq, Eq)]
pub struct ProvisionAck {
    pub message_type: String,
    pub v: u8,
    pub agent_id: String,
    pub hostname: String,
    pub nonce: String,
    pub ts: i64,
}

/// The value of a `ProvisionAck`.
pub struct ProvisionAckView {
    pub message_type: Text,
    pub v: u8,
    pub agent_id: Text,
    pub hostname: Text,
    pub nonce: Text,
    pub ts: i64,
}

impl View for ProvisionAck {
    type V = ProvisionAckView;

    open spec fn view(&self) -> ProvisionAckView {
        ProvisionAckView {
            message_type: self.message_type@,
            v: self.v,
            agent_id: self.agent_id@,
            hostname: self.hostname@,
            nonce: self.nonce@,
            ts: self.ts,
        }
    }
}

impl Clone for ProvisionAck {
    fn clone(&self) -> (r: Self)
        ensures
            r@ == self@,
    {
        ProvisionAck {
            message_type: self.message_type.clone(),
            v: self.v,
            agent_id: self.agent_id.clone(),
            hostname: self.hostname.clone(),
            nonce: self.nonce.clone(),
            ts: self.ts,
        }
    }
}
/// The time between two advertisements, in milliseconds.
pub const PROVISION_INTERVAL_MS: u64 = 1_000;

/// How long an answer to an advertisement is waited for, in milliseconds.
pub const PROVISION_ACK_WAIT_MS: u64 = 300;

/// The address that the advertisement goes to: every host of the link, on
/// the pairing port.
pub open spec fn broadcast_destination() -> Text {
    "255.255.255.255:"@ + decimal(UDP_PORT as int)
}

/// The address that the advertisement goes to.
pub fn provision_destination() -> (r: String)
    ensures
        r@ == broadcast_destination(),
{
    let port = u64_to_text(UDP_PORT as u64);
    join2("255.255.255.255:", port.as_str())
}

/// The address on which answers are listened for: any interface, the pairing
/// port.
pub fn provision_listen_address() -> (r: String)
    ensures
        r@ == "0.0.0.0:"@ + decimal(UDP_PORT as int),
{
    let port = u64_to_text(UDP_PORT as u64);
    join2("0.0.0.0:", port.as_str())
}

/// The address that the admin advertises: the local one, or the loopback
/// address if none was found.
pub open spec fn advertised_address(local: Option<Text>) -> Text {
    match local {
        Some(ip) => ip,
        None => "127.0.0.1"@,
    }
}

/// The address that the admin advertises.
pub fn provision_admin_ip(local: Option<String>) -> (r: String)
    ensures
        r@ == advertised_address(
            match local {
                Some(ip) => Some(ip@),
                None => None,
            },
        ),
{
    match local {
        Some(ip) => ip,
        None => "127.0.0.1".to_owned(),
    }
}

/// The advertisement that is due: none while the server is offline, else one
/// with the secret that holds now.
pub open spec fn advertisement(s: ServerState, admin_ip: Text, nonce: Text) -> Option<
    ProvisionBroadcastView,
> {
    if s.online {
        Some(
            ProvisionBroadcastView {
                message_type: "LABSCAN_PROVISION"@,
                v: 1,
                admin_ip,
                secret: s.pair_token,
                nonce,
            },
        )
    } else {
        None
    }
}

/// Whether an answer is one to this protocol in its first version.
pub open spec fn is_valid_ack(a: ProvisionAckView) -> bool {
    a.message_type == "LABSCAN_PROVISION_ACK"@ && a.v == 1
}

/// What is logged of an answer that came from `sender`.
pub open spec fn ack_message(a: ProvisionAckView, sender: Text) -> Text {
    "Provision ACK from "@ + a.hostname + " ("@ + sender + ") nonce="@ + a.nonce + " ts="@
        + decimal(a.ts as int)
}

/// What an answer leads to: a valid one is logged under its agent, any other
/// is passed over. The nonce is written down, not checked.
pub open spec fn ack_step(s: ServerState, a: ProvisionAckView, sender: Text, now: i64, id: Text) -> Step {
    if is_valid_ack(a) {
        then_log(
            Step { state: s, events: Seq::empty() },
            Some(a.agent_id),
            "INFO"@,
            ack_message(a, sender),
            now,
            id,
        )
    } else {
        Step { state: s, events: Seq::empty() }
    }
}

/// What went wrong with the socket of the advertisements.
#[derive(Clone, Copy, Debug, PartialEq, Eq)]
pub enum ProvisionFailure {
    /// The socket could not be had.
    Socket,
    /// The socket could not be allowed to broadcast.
    Broadcast,
}

/// What is logged when the advertisements cannot start.
pub open spec fn failure_message(failure: ProvisionFailure, error: Text) -> Text {
    match failure {
        ProvisionFailure::Socket => "UDP broadcast socket error: "@ + error,
        ProvisionFailure::Broadcast => "UDP broadcast enable failed: "@ + error,
    }
}

/// What is logged when the advertisements start.
pub open spec fn started_message(admin_ip: Text) -> Text {
    "provision: broadcasting on UDP "@ + decimal(UDP_PORT as int) + ", admin_ip="@ + admin_ip
}

impl ServerManager {
    /// The advertisement to broadcast now, if one is due.
    pub fn provision_broadcast(&self, admin_ip: &str, nonce: String) -> (r: Option<
        ProvisionBroadcast,
    >)
        ensures
            match r {
                Some(b) => advertisement(self@, admin_ip@, nonce@) == Some(b@),
                None => advertisement(self@, admin_ip@, nonce@) is None,
            },
    {
        if self.get_status().online {
            Some(
                ProvisionBroadcast {
                    message_type: "LABSCAN_PROVISION".to_owned(),
                    v: 1,
                    admin_ip: admin_ip.to_owned(),
                    secret: self.get_pair_token(),
                    nonce,
                },
            )
        } else {
            None
        }
    }

    /// Takes an answer to an advertisement that came from `sender`.
    pub fn provision_ack_at(&mut self, ack: &ProvisionAck, sender: &str, now: i64, id: String) -> (events:
        Vec<UiEvent>)
        requires
            old(self).wf(),
        ensures
            final(self).wf(),
            (Step { state: final(self)@, events: views(events@) }) == ack_step(
                old(self)@,
                ack@,
                sender@,
                now,
                id@,
            ),
    {
        let mut events: Vec<UiEvent> = Vec::new();
        assert(views(events@) =~= Seq::empty());
        if text_eq(ack.message_type.as_str(), "LABSCAN_PROVISION_ACK") && ack.v == 1 {
            let who = join3("Provision ACK from ", ack.hostname.as_str(), " (");
            let from = join3(who.as_str(), sender, ") nonce=");
            let ts = i64_to_text(ack.ts);
            let tail = join3(ack.nonce.as_str(), " ts=", ts.as_str());
            let message = join2(from.as_str(), tail.as_str());
            assert(message@ =~= ack_message(ack@, sender@));
            self.emit_log_at(&mut events, Some(ack.agent_id.clone()), "INFO", message, now, id);
        }
        events
    }

    /// Logs that the advertisements start.
    pub fn provision_started_at(&mut self, admin_ip: &str, now: i64, id: String) -> (events: Vec<
        UiEvent,
    >)
        requires
            old(self).wf(),
        ensures
            final(self).wf(),
            (Step { state: final(self)@, events: views(events@) }) == then_log(
                Step { state: old(self)@, events: Seq::empty() },
                None,
                "INFO"@,
                started_message(admin_ip@),
                now,
                id@,
            ),
    {
        let mut events: Vec<UiEvent> = Vec::new();
        assert(views(events@) =~= Seq::empty());
        let port = u64_to_text(UDP_PORT as u64);
        let head = join3("provision: broadcasting on UDP ", port.as_str(), ", admin_ip=");
        let message = join2(head.as_str(), admin_ip);
        self.emit_log_at(&mut events, None, "INFO", message, now, id);
        events
    }

    /// Logs that the advertisements cannot start.
    pub fn provision_failed_at(
        &mut self,
        failure: ProvisionFailure,
        error: &str,
        now: i64,
        id: String,
    ) -> (events: Vec<UiEvent>)
        requires
            old(self).wf(),
        ensures
            final(self).wf(),
            (Step { state: final(self)@, events: views(events@) }) == then_log(
                Step { state: old(self)@, events: Seq::empty() },
                None,
                "ERROR"@,
                failure_message(failure, error@),
                now,
                id@,
            ),
    {
        let mut events: Vec<UiEvent> = Vec::new();
        assert(views(events@) =~= Seq::empty());
        let message = match failure {
            ProvisionFailure::Socket => join2("UDP broadcast socket error: ", error),
            ProvisionFailure::Broadcast => join2("UDP broadcast enable failed: ", error),
        };
        self.emit_log_at(&mut events, None, "ERROR", message, now, id);
        events
    }
}

} // verus!
