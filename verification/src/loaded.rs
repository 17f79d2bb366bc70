//! A loaded configuration bundled with the file it came from and that file's
//! modification time, and the check that refuses to overwrite a file that
//! changed since it was loaded.

use vstd::prelude::*;

use crate::error::ConfigError;

verus! {

/// Declares `std::path::PathBuf` to Verus as an opaque type: a loaded
/// configuration carries the path of its file through unchanged, and nothing
/// is assumed of what a path holds.
#[verifier::external_type_specification]
#[verifier::external_body]
pub struct ExPathBuf(std::path::PathBuf);

/// A file modification time: the distance from the Unix epoch in whole
/// seconds and nanoseconds, and on which side of the epoch it lies.
#[derive(Clone, Copy, Debug, PartialEq, Eq, Structural)]
pub struct Mtime {
    pub after_epoch: bool,
    pub secs: u64,
    pub nanos: u32,
}

fn same_mtime(a: Option<Mtime>, b: Option<Mtime>) -> (r: bool)
    ensures
        r == (a == b),
{
    match (a, b) {
        (None, None) => true,
        (Some(x), Some(y)) => x.after_epoch == y.after_epoch && x.secs == y.secs && x.nanos == y.nanos,
        _ => false,
    }
}

/// Refuse a write when the file's modification time `current` differs from
/// the one recorded when it was loaded: the file was edited in between. A
/// missing file has no modification time, so a file that appeared or vanished
/// counts as changed too.
pub fn check_unmodified(current: Option<Mtime>, recorded: Option<Mtime>) -> (r: Result<(), ConfigError>)
    ensures
        current == recorded ==> r == Ok::<(), ConfigError>(()),
        current != recorded ==> r == Err::<(), ConfigError>(ConfigError::Stale),
{
    if same_mtime(current, recorded) {
        Ok(())
    } else {
        Err(ConfigError::Stale)
    }
}

/// What a checked store does once the check passed.
#[derive(Debug, PartialEq, Eq, Structural)]
pub enum StoreStep {
    /// There is no backing file: nothing is written.
    NoFile,
    /// Write the configuration to the backing file.
    Write,
}

/// A loaded configuration value bundled with the file's modification time at
/// load.
pub struct LoadedConfig<Config> {
    config: Config,
    /// The backing file, if any. `None` for pure-env sources.
    path: Option<std::path::PathBuf>,
    mtime: Option<Mtime>,
}

impl<Config> LoadedConfig<Config> {
    /// The configuration value.
    pub closed spec fn value(&self) -> Config {
        self.config
    }

    /// The backing file, if any.
    pub closed spec fn file(&self) -> Option<std::path::PathBuf> {
        self.path
    }

    /// The file's modification time recorded at load.
    pub closed spec fn recorded_mtime(&self) -> Option<Mtime> {
        self.mtime
    }

    /// Bundle a configuration with its backing file and the file's
    /// modification time, taken after the load.
    pub fn new(config: Config, path: Option<std::path::PathBuf>, mtime: Option<Mtime>) -> (l: Self)
        ensures
            l.value() == config,
            l.file() == path,
            l.recorded_mtime() == mtime,
    {
        LoadedConfig { config, path, mtime }
    }

    /// The modification time of the file when it was loaded.
    pub fn mtime(&self) -> (r: Option<Mtime>)
        ensures
            r == self.recorded_mtime(),
    {
        self.mtime
    }

    /// The backing file, if any.
    pub fn path(&self) -> (r: Option<&std::path::PathBuf>)
        ensures
            match r {
                Some(p) => self.file() == Some(*p),
                None => self.file() is None,
            },
    {
        match &self.path {
            Some(p) => Some(p),
            None => None,
        }
    }

    /// The configuration value, giving up the tracking.
    pub fn into_inner(self) -> (r: Config)
        ensures
            r == self.value(),
    {
        self.config
    }

    /// The configuration value.
    pub fn get(&self) -> (r: &Config)
        ensures
            *r == self.value(),
    {
        &self.config
    }

    /// The configuration value, for changing it before it is stored.
    pub fn get_mut(&mut self) -> (r: &mut Config)
        ensures
            *r == old(self).value(),
            final(self).value() == *final(r),
            final(self).file() == old(self).file(),
            final(self).recorded_mtime() == old(self).recorded_mtime(),
    {
        &mut self.config
    }

    /// Decide a write of the configuration back to its file, given the
    /// file's modification time `current` now. Without a backing file there
    /// is nothing to write; a file whose modification time changed since the
    /// load is not overwritten ([`ConfigError::Stale`]).
    pub fn store_checked(&self, current: Option<Mtime>) -> (r: Result<StoreStep, ConfigError>)
        ensures
            self.file() is None ==> r == Ok::<StoreStep, ConfigError>(StoreStep::NoFile),
            self.file() is Some && current == self.recorded_mtime() ==> r == Ok::<StoreStep, ConfigError>(StoreStep::Write),
            self.file() is Some && current != self.recorded_mtime() ==> r == Err::<StoreStep, ConfigError>(ConfigError::Stale),
    {
        match &self.path {
            None => Ok(StoreStep::NoFile),
            Some(_) => match check_unmodified(current, self.mtime) {
                Ok(()) => Ok(StoreStep::Write),
                Err(e) => Err(e),
            },
        }
    }
}

impl<Config> std::ops::Deref for LoadedConfig<Config> {
    type Target = Config;

    fn deref(&self) -> (r: &Config)
        ensures
            *r == self.value(),
    {
        &self.config
    }
}

} // verus!
