//! Daemons around mlc-llm servers.

pub mod bootstrap;
pub mod daemon2;
