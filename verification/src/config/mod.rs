//! Layered configuration.

pub mod document;
pub mod loader;
pub mod model;
pub mod patch;

pub use document::{TomlDocument, TomlItem, TomlScalar};
pub use loader::{
    Loaded, Loader, Source, SourceKind, SourceStatus, Warning, ENV_CACHE_DIR, ENV_CONFIG_DIR,
    ENV_CONFIG_FILE, ENV_DATA_DIR, ENV_PREFIX,
};
pub use model::{Config, ConfigView, Log, LogFormat, LogLevel, Network, PathOverrides, Project};
pub use patch::{ConfigPatch, LogPatch, NetworkPatch, PathsPatch, ProjectPatch};
