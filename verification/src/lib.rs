//! Request-execution core of a generic RPC client runtime, with the timestamp
//! type its configuration carries.

pub mod auth;
pub mod config_bag;
pub mod date_time;
pub mod http;
pub mod identity;
pub mod interceptors;
pub mod orchestrator;
pub mod type_erasure;
