use libconfig::loaded::check_unmodified;
use libconfig::{ConfigError, LoadedConfig, Mtime, StoreStep};
use std::path::PathBuf;

fn stamp(secs: u64, nanos: u32) -> Mtime {
    Mtime { after_epoch: true, secs, nanos }
}

#[test]
fn edited_file_is_stale() {
    let loaded = LoadedConfig::new("cfg".to_string(), Some(PathBuf::from("/tmp/c.toml")), Some(stamp(100, 5)));
    // The file was edited after the load: its mtime moved on.
    let result = loaded.store_checked(Some(stamp(100, 6)));
    assert!(matches!(result, Err(ConfigError::Stale)), "expected Stale error, got: {result:?}");
    // The file vanished.
    assert!(matches!(loaded.store_checked(None), Err(ConfigError::Stale)));
}

#[test]
fn unchanged_file_can_be_written() {
    let loaded = LoadedConfig::new(1u8, Some(PathBuf::from("/tmp/c.toml")), Some(stamp(100, 5)));
    let result = loaded.store_checked(Some(stamp(100, 5)));
    assert!(matches!(result, Ok(StoreStep::Write)), "expected Ok, got: {result:?}");
}

#[test]
fn store_checked_without_file_is_a_no_op() {
    let loaded = LoadedConfig::new(1u8, None, None);
    assert!(matches!(loaded.store_checked(Some(stamp(1, 1))), Ok(StoreStep::NoFile)));
    assert!(matches!(loaded.store_checked(None), Ok(StoreStep::NoFile)));
}

#[test]
fn file_created_after_load_is_stale() {
    let loaded = LoadedConfig::new(1u8, Some(PathBuf::from("/tmp/c.toml")), None);
    assert!(matches!(loaded.store_checked(Some(stamp(3, 0))), Err(ConfigError::Stale)));
    assert!(matches!(loaded.store_checked(None), Ok(StoreStep::Write)));
}

#[test]
fn accessors_give_back_what_was_bundled() {
    let mut loaded = LoadedConfig::new(vec![1, 2], Some(PathBuf::from("/a/b.toml")), Some(stamp(9, 9)));
    assert_eq!(loaded.mtime(), Some(stamp(9, 9)));
    assert_eq!(loaded.path(), Some(&PathBuf::from("/a/b.toml")));
    assert_eq!(loaded.len(), 2); // through Deref
    assert_eq!(*loaded.get(), vec![1, 2]);
    loaded.get_mut().push(3);
    assert_eq!(loaded.into_inner(), vec![1, 2, 3]);
}

#[test]
fn check_unmodified_compares_all_parts() {
    assert!(check_unmodified(None, None).is_ok());
    assert!(check_unmodified(Some(stamp(1, 2)), Some(stamp(1, 2))).is_ok());
    assert!(matches!(check_unmodified(Some(stamp(1, 2)), Some(stamp(1, 3))), Err(ConfigError::Stale)));
    assert!(matches!(check_unmodified(Some(stamp(2, 2)), Some(stamp(1, 2))), Err(ConfigError::Stale)));
    let before = Mtime { after_epoch: false, secs: 1, nanos: 2 };
    assert!(matches!(check_unmodified(Some(before), Some(stamp(1, 2))), Err(ConfigError::Stale)));
}
