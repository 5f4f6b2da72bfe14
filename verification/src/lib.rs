//! Core of a console for a host's wireless interface: the reconciliation of
//! scan results with saved profiles, the coordination of credential requests,
//! the decisions behind connecting and disconnecting, and what each key does.
//! Every function states what it returns or changes, and is verified to do
//! so; what is taken on trust of other crates stands in a few small wrappers.

use vstd::prelude::*;

pub mod adapter;
pub mod agent;
pub mod app;
pub mod config;
pub mod device;
pub mod event;
pub mod handler;
pub mod mode;
pub mod nm;
pub mod notification;
pub mod reset;
pub mod text;
pub mod tick;

verus! {

/// The name under which the connection service knows a network. The service
/// handles SSID encoding itself, so the name is handed through unchanged.
pub fn nm_network_name(name: &str) -> (r: String)
    ensures
        r@ == name@,
{
    name.to_owned()
}

} // verus!
