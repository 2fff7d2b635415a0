//! Core of a game launcher: version registry, artifact planning, mod
//! reconciliation, launch command assembly, the server-list file codec, the
//! server status wire protocol and the launch pipeline state machine.

pub mod text;
pub mod json;

pub mod version;
pub mod types;
pub mod state;

pub mod rules;
pub mod maven;
pub mod layout;
pub mod fetch;
pub mod reconcile;
pub mod runtime;

pub mod uuid;
pub mod server_list;
pub mod launch;

pub mod protocol;
pub mod status;

pub mod pipeline;
pub mod crash;
pub mod update_check;
