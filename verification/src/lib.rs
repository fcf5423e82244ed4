//! A write-once configuration holder for a backup client.
//!
//! The library parses a YAML document into a typed configuration tree,
//! validates it against a fixed schema, and stores it in an
//! initialize-once holder that every later reader observes unchanged.

pub mod config;
pub mod error;
pub mod holder;
pub mod yaml;

pub use config::{
    AdvancedConfig, BackupConfig, BackupMode, ClientConfig, CratisConfig, ServerConfig,
};
pub use error::ConfigError;
pub use holder::{get_config, load_config, ConfigHolder};
