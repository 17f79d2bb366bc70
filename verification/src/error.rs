//! The errors of loading and storing a configuration.

use vstd::prelude::*;

verus! {

/// What went wrong while loading or storing a configuration.
///
/// `inner_error` holds the message of the underlying failure (of the parser,
/// the serializer or the file system).
#[derive(Debug)]
pub enum ConfigError {
    /// The config file at `path` could not be read.
    Read { path: String, inner_error: String },
    /// The layered configuration could not be turned into the config type.
    Parse { inner_error: String },
    /// The file at `path` could not be opened for writing.
    Open { path: String, inner_error: String },
    /// The configuration could not be serialized.
    Dump { inner_error: String },
    /// Writing to, or renaming into, the file at `path` failed.
    Write { path: String, inner_error: String },
    /// The file changed on disk since the configuration was loaded.
    Stale,
}

} // verus!
