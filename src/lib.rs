//! Core of a secure file-transfer service: credential store, encryption
//! envelope, transfer-job registry, TLS identity and session state machine.
use vstd::prelude::*;

pub mod transfers;
pub mod users;
pub mod crypto;
pub mod session;
pub mod command;
pub mod tls;
pub mod links;
pub mod config;
pub mod ui_bridge;

verus! {

} // verus!

