//! Launching and supervising local LLM servers (llama.cpp, llamafile, mlc-llm)
//! as self-terminating background daemons.
//!
//! The library decides everything that can be decided without touching the
//! machine: where a daemon keeps its files, which port it listens on, which
//! command line starts the server, and when the supervising daemon shuts the
//! server down again.

pub mod command;
pub mod endpoint;
pub mod llama_daemon;
pub mod mlc_daemon;
pub mod node;
pub mod paths;
pub mod port;
pub mod python;
pub mod supervisor;
pub mod text;

pub use llama_daemon::daemon::{llama_config, llama_config_map, Daemon as LlamaDaemon, LlamaConfig, LlamaConfigs};
pub use llama_daemon::daemon2::Daemon as Daemon2;
pub use llama_daemon::daemon3::{Daemon3, Daemon3Params};
pub use mlc_daemon::daemon2::{Daemon as MlcDaemon, DaemonConfig as MlcConfig};
