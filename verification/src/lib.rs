//! A wizard for port forwarding through AWS Systems Manager: the staged
//! selection workflow, the list picker that it asks, and the command that
//! opens the tunnel.
pub mod discovery;
pub mod error;
pub mod porwarder;
pub mod selector;
pub mod text;
