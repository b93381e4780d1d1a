//! The orchestration of one call: how its request is authenticated, and the
//! order of the steps that it goes through.

pub mod auth;
pub mod execution;
pub mod steps;
