//! A host runtime for sandboxed guest components.
//!
//! The host compiles an untrusted binary module into a component, binds the
//! capabilities that the guest may call, opens one session per run with a fuel
//! budget, and drives an exported function to completion or to a trap.

pub mod outside;
pub mod config;
pub mod error;
pub mod value;
pub mod interface;
pub mod capability;
pub mod artifact;
pub mod session;
pub mod runtime;
pub mod laws;
