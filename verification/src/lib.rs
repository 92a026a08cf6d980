//! Connection logic of a WireGuard-based VPN client library.
use vstd::prelude::*;

pub mod api;
pub mod capture;
pub mod client;
pub mod connection;
pub mod events;
pub mod io;
pub mod ip;
pub mod keys;
pub mod local_agent;
pub mod peers;
pub mod recovery;
pub mod state;
pub mod status_text;
pub mod streams;
pub mod text;
pub mod version;

verus! {

} // verus!
