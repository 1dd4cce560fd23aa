//! Chip Loom's core library: layered configuration, platform paths, machine
//! diagnostics, the Core IPC protocol and its server, and the text the command
//! line renders, each with its contract proved.

pub mod cli;
pub mod config;
pub mod doctor;
pub mod error;
pub mod ipc;
pub mod logging;
pub mod paths;
pub mod render;
pub mod text;
pub mod version;

pub use error::{ConfigError, Error, ExitCode, IoErrorKind, IoFailure, ProtocolError};
pub use version::{BuildInfo, PROTOCOL_VERSION, VERSION, build_info};
