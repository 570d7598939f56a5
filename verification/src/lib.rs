//! The control plane of a small network monitor: one admin, many agents.
//!
//! The admin keeps one state, `state::ServerManager`. Frames from agents,
//! commands from the user interface and the ticks of the watchdog are steps
//! on that state; each step says what becomes of the state and what is to be
//! shown or sent. `model` holds the state as a mathematical value and the
//! meaning of every step, `emit`, `session`, `tasks`, `watchdog`, `control`
//! and `provision` hold the steps themselves, and `topology` derives the graph
//! of subnets, gateways and hosts. `laws` and `stability` state what holds
//! over many steps.
//!
//! Sockets, timers and the user interface are not in this crate: it is
//! handed what arrived and hands back what is to be done.

pub mod clock;
pub mod collections;
pub mod compare;
pub mod control;
pub mod database;
pub mod discovery;
pub mod emit;
pub mod ipv4;
pub mod json;
pub mod laws;
pub mod model;
pub mod network;
pub mod probe;
pub mod provision;
pub mod ranking;
pub mod records;
pub mod session;
pub mod sorting;
pub mod stability;
pub mod state;
pub mod tasks;
pub mod text;
pub mod topology;
pub mod watchdog;
pub mod wire;
