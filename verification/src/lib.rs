//! Decision logic of the `codeydog` tool manager: how a command line is read,
//! which command it selects, and what each command asks of the file system.
//!
//! Nothing in this crate touches the outside world. Every function maps plain
//! values to plain values, so that a thin driver can carry out the requested
//! work and report back what happened.

pub mod about;
pub mod activator;
pub mod argparser;
pub mod dispatcher;
pub mod installer;
pub mod layout;
pub mod names;
pub mod notice;
pub mod registry;
