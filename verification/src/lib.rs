//! Layered application configuration: defaults, a TOML file, a shared
//! (unprefixed) environment layer and a prefixed environment layer, merged in
//! increasing precedence, with write-back and stale-write detection.
//!
//! This crate holds the decisions of the configuration loader and proves them
//! against their contracts; performing the I/O is left to the caller.

pub mod naming;
pub mod error;
pub mod loader;
pub mod text;
pub mod loaded;
pub mod run;
pub mod laws;
pub mod store;

pub use error::ConfigError;
pub use loaded::{LoadedConfig, Mtime, StoreStep};
pub use loader::{Layer, Loader, PathRequest};
pub use run::{LoadAction, LoadEvent, LoadPhase};
pub use store::{StoreAction, StoreEvent, StorePhase};
