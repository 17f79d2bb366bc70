use libconfig::naming::temp_extension;
use libconfig::{ConfigError, StoreAction, StoreEvent, StorePhase};
use libconfig::store::store_step;

#[test]
fn temp_extension_names_process_and_sequence() {
    assert_eq!(temp_extension(1234, 0), "tmp.1234.0");
    assert_eq!(temp_extension(0, 42), "tmp.0.42");
    assert_eq!(temp_extension(u32::MAX, u64::MAX), "tmp.4294967295.18446744073709551615");
    assert_ne!(temp_extension(1, 23), temp_extension(12, 3));
    assert_eq!(temp_extension(10, 1234567890), "tmp.10.1234567890");
    assert_eq!(temp_extension(7, 9), "tmp.7.9");
}

#[test]
fn successful_write_goes_through_temp_file() {
    let (p, a) = store_step(StorePhase::Start, StoreEvent::Begin, 77, 3);
    assert_eq!(p, StorePhase::Serializing);
    assert!(matches!(a, StoreAction::Serialize));
    let (p, a) = store_step(p, StoreEvent::Serialized { outcome: Ok(()) }, 77, 3);
    assert_eq!(p, StorePhase::Opening);
    match a {
        StoreAction::OpenTemp { extension } => assert_eq!(extension, "tmp.77.3"),
        other => panic!("unexpected {other:?}"),
    }
    let (p, a) = store_step(p, StoreEvent::Opened { path: "/c/x.tmp.77.3".to_string(), outcome: Ok(()) }, 77, 3);
    assert_eq!(p, StorePhase::Writing);
    assert!(matches!(a, StoreAction::WriteTemp));
    let (p, a) = store_step(p, StoreEvent::Written { path: "/c/x.tmp.77.3".to_string(), outcome: Ok(()) }, 77, 3);
    assert_eq!(p, StorePhase::Renaming);
    assert!(matches!(a, StoreAction::RenameOntoTarget));
    let (p, a) = store_step(p, StoreEvent::Renamed { path: "/c/x.toml".to_string(), outcome: Ok(()) }, 77, 3);
    assert_eq!(p, StorePhase::Finished);
    assert!(matches!(a, StoreAction::Finish(Ok(()))));
}

#[test]
fn each_failure_maps_to_its_error() {
    let (p, a) = store_step(StorePhase::Serializing, StoreEvent::Serialized { outcome: Err("unsupported".to_string()) }, 1, 1);
    assert_eq!(p, StorePhase::Finished);
    match a {
        StoreAction::Finish(Err(ConfigError::Dump { inner_error })) => assert_eq!(inner_error, "unsupported"),
        other => panic!("unexpected {other:?}"),
    }
    let (_, a) = store_step(StorePhase::Opening, StoreEvent::Opened { path: "/t".to_string(), outcome: Err("denied".to_string()) }, 1, 1);
    match a {
        StoreAction::Finish(Err(ConfigError::Open { path, inner_error })) => {
            assert_eq!(path, "/t");
            assert_eq!(inner_error, "denied");
        }
        other => panic!("unexpected {other:?}"),
    }
    let (_, a) = store_step(StorePhase::Writing, StoreEvent::Written { path: "/t".to_string(), outcome: Err("full".to_string()) }, 1, 1);
    assert!(matches!(a, StoreAction::Finish(Err(ConfigError::Write { .. }))));
    let (_, a) = store_step(StorePhase::Renaming, StoreEvent::Renamed { path: "/c.toml".to_string(), outcome: Err("xdev".to_string()) }, 1, 1);
    match a {
        StoreAction::Finish(Err(ConfigError::Write { path, inner_error })) => {
            assert_eq!(path, "/c.toml");
            assert_eq!(inner_error, "xdev");
        }
        other => panic!("unexpected {other:?}"),
    }
}
