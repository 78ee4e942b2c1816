//! Discovery, readiness supervision and lifecycle decisions for the local
//! backend service of the desktop shell.
//!
//! Everything here is pure: reading the environment, probing the
//! filesystem, spawning processes and talking to the network are left to the
//! caller, which hands the observations in as plain values.

pub mod text;
pub mod health;
pub mod candidates;
pub mod readiness;
pub mod orchestrator;
pub mod url;
