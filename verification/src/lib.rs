//! Target selection and `Cross.toml` settings for cross-compiling Cargo projects.

pub mod config;
pub mod document;
pub mod invocation;
pub mod target;
pub mod text;

pub use config::{toml, ConfigError, ConfigErrorKind, Toml};
pub use document::TomlItem;
pub use target::{Host, Target};
