use libconfig::loader::after_retry;
use libconfig::{ConfigError, Layer, LoadAction, LoadEvent, LoadPhase, Loader, PathRequest};

fn layers_of(l: &Loader<'static>, path_exists: bool) -> Vec<Layer<'static>> {
    l.layers(path_exists)
}

#[test]
fn module_loader_writes_back_and_creates_dirs() {
    let l = Loader::module("myapp");
    assert_eq!(
        l.resolve_path(),
        Some(PathRequest::ConfigDir { module: "myapp".to_string(), create: true })
    );
    assert!(l.writes_back());
    assert_eq!(layers_of(&l, true), vec![Layer::Defaults, Layer::File]);
    assert_eq!(layers_of(&l, false), vec![Layer::Defaults]);
}

#[test]
fn module_loader_without_write_back_does_not_create_dirs() {
    let l = Loader::module("myapp").write_back(false);
    assert_eq!(
        l.resolve_path(),
        Some(PathRequest::ConfigDir { module: "myapp".to_string(), create: false })
    );
    assert!(!l.writes_back());
}

#[test]
fn path_loader_is_read_only_by_default() {
    let l = Loader::path("/etc/myproduct/config.toml");
    assert_eq!(
        l.resolve_path(),
        Some(PathRequest::Explicit("/etc/myproduct/config.toml".to_string()))
    );
    assert!(!l.writes_back());
    assert!(Loader::path("/etc/myproduct/config.toml").write_back(true).writes_back());
}

#[test]
fn pure_env_has_no_file_even_with_write_back() {
    let l = Loader::pure_env().write_back(true);
    assert_eq!(l.resolve_path(), None);
    assert!(!l.writes_back());
    // Even if told a path exists, a pure-env loader merges no file.
    assert_eq!(layers_of(&l, true), vec![Layer::Defaults]);
}

#[test]
fn shared_env_layer_sits_below_prefixed_env() {
    let l = Loader::pure_env()
        .env_prefix("SHTEST_")
        .shared_env(&["SHARED_ONLY_VALUE", "OVERLAP_VALUE"]);
    // Prefixed env comes after (beats) the shared env layer.
    assert_eq!(
        layers_of(&l, false),
        vec![
            Layer::Defaults,
            Layer::SharedEnv(vec!["shared_only_value".to_string(), "overlap_value".to_string()]),
            Layer::PrefixedEnv("SHTEST_"),
        ]
    );
    // Without declaring it shared, no shared layer is merged.
    assert_eq!(layers_of(&Loader::pure_env(), false), vec![Layer::Defaults]);
}

#[test]
fn full_precedence_chain_for_a_deploy_file() {
    let l = Loader::path("/srv/service.toml")
        .env_prefix("SVC_")
        .shared_env(&["AUTH_ADMIN_KEY", "OTLP_ENDPOINT", "PRODUCTION", "SAMPLE_RATE"]);
    assert_eq!(
        layers_of(&l, true),
        vec![
            Layer::Defaults,
            Layer::File,
            Layer::SharedEnv(vec![
                "auth_admin_key".to_string(),
                "otlp_endpoint".to_string(),
                "production".to_string(),
                "sample_rate".to_string(),
            ]),
            Layer::PrefixedEnv("SVC_"),
        ]
    );
}

#[test]
fn shared_keys_are_lowercased_unicode() {
    let l = Loader::pure_env().shared_env(&["ÄPFEL_Key"]);
    assert_eq!(
        layers_of(&l, false),
        vec![Layer::Defaults, Layer::SharedEnv(vec!["äpfel_key".to_string()])]
    );
}

#[test]
fn later_env_prefix_replaces_earlier_one() {
    let l = Loader::pure_env().env_prefix("A_").env_prefix("B_");
    assert_eq!(layers_of(&l, false), vec![Layer::Defaults, Layer::PrefixedEnv("B_")]);
}

#[test]
fn for_module_matches_functional_api() {
    let l = Loader::for_module("m", Some("LIBCONFIG_"), &["SHARED"]);
    assert_eq!(l.resolve_path(), Some(PathRequest::ConfigDir { module: "m".to_string(), create: true }));
    assert_eq!(
        layers_of(&l, true),
        vec![
            Layer::Defaults,
            Layer::File,
            Layer::SharedEnv(vec!["shared".to_string()]),
            Layer::PrefixedEnv("LIBCONFIG_"),
        ]
    );
    let plain = Loader::for_module("m", None, &[]);
    assert_eq!(layers_of(&plain, true), vec![Layer::Defaults, Layer::File]);
}

#[test]
fn first_load_writes_defaults_back() {
    let l = Loader::module("test_first_load");
    let (phase, action) = l.step::<u32>(LoadPhase::Start, LoadEvent::Begin);
    assert!(matches!(phase, LoadPhase::Resolving));
    assert!(matches!(action, LoadAction::Resolve(PathRequest::ConfigDir { create: true, .. })));

    let (phase, action) = l.step::<u32>(phase, LoadEvent::Resolved { path_exists: false });
    assert!(matches!(phase, LoadPhase::Extracting));
    match action {
        LoadAction::Extract(layers) => assert_eq!(layers, vec![Layer::Defaults]),
        other => panic!("unexpected {other:?}"),
    }

    let (phase, action) = l.step(phase, LoadEvent::Extracted { result: Ok(7u32), path_exists: false });
    assert!(matches!(phase, LoadPhase::Storing { config: 7 }));
    assert!(matches!(action, LoadAction::Store));

    let (phase, action) = l.step(phase, LoadEvent::Stored { outcome: Ok(()) });
    assert!(matches!(phase, LoadPhase::Finished));
    assert!(matches!(action, LoadAction::Finish(Ok(7))));
}

#[test]
fn corrupt_owned_file_is_healed() {
    let l = Loader::module("healing").env_prefix("H_");
    let (phase, _) = l.step::<u32>(LoadPhase::Start, LoadEvent::Begin);
    let (phase, action) = l.step::<u32>(phase, LoadEvent::Resolved { path_exists: true });
    match action {
        LoadAction::Extract(layers) => {
            assert_eq!(layers, vec![Layer::Defaults, Layer::File, Layer::PrefixedEnv("H_")])
        }
        other => panic!("unexpected {other:?}"),
    }
    let (phase, action) = l.step::<u32>(
        phase,
        LoadEvent::Extracted { result: Err("invalid TOML".to_string()), path_exists: true },
    );
    assert!(matches!(phase, LoadPhase::Healing));
    assert!(matches!(action, LoadAction::RemoveFile));

    let (phase, action) = l.step::<u32>(phase, LoadEvent::Removed);
    assert!(matches!(phase, LoadPhase::Retrying));
    match action {
        LoadAction::Extract(layers) => assert_eq!(layers, vec![Layer::Defaults, Layer::PrefixedEnv("H_")]),
        other => panic!("unexpected {other:?}"),
    }
    let (phase, action) = l.step(phase, LoadEvent::Extracted { result: Ok(1u32), path_exists: false });
    assert!(matches!(phase, LoadPhase::Storing { config: 1 }));
    assert!(matches!(action, LoadAction::Store));
}

#[test]
fn retry_failure_is_a_parse_error() {
    let l = Loader::module("healing");
    let (phase, action) =
        l.step::<u32>(LoadPhase::Retrying, LoadEvent::Extracted { result: Err("still bad".to_string()), path_exists: false });
    assert!(matches!(phase, LoadPhase::Finished));
    match action {
        LoadAction::Finish(Err(ConfigError::Parse { inner_error })) => assert_eq!(inner_error, "still bad"),
        other => panic!("unexpected {other:?}"),
    }
    assert!(matches!(after_retry::<u32>(Ok(3)), Ok(3)));
    assert!(matches!(after_retry::<u32>(Err("x".to_string())), Err(ConfigError::Parse { .. })));
}

#[test]
fn read_only_source_surfaces_parse_error_and_never_deletes() {
    let l = Loader::path("/etc/x.toml");
    let (phase, _) = l.step::<u32>(LoadPhase::Start, LoadEvent::Begin);
    let (phase, _) = l.step::<u32>(phase, LoadEvent::Resolved { path_exists: true });
    let (phase, action) =
        l.step::<u32>(phase, LoadEvent::Extracted { result: Err("bad".to_string()), path_exists: true });
    assert!(matches!(phase, LoadPhase::Finished));
    match action {
        LoadAction::Finish(Err(ConfigError::Parse { inner_error })) => assert_eq!(inner_error, "bad"),
        other => panic!("unexpected {other:?}"),
    }
}

#[test]
fn writable_missing_file_is_not_healed() {
    // A loader that writes back heals only a file that exists.
    let l = Loader::module("m");
    let (phase, action) =
        l.step::<u32>(LoadPhase::Extracting, LoadEvent::Extracted { result: Err("bad".to_string()), path_exists: false });
    assert!(matches!(phase, LoadPhase::Finished));
    assert!(matches!(action, LoadAction::Finish(Err(ConfigError::Parse { .. }))));
}

#[test]
fn pure_env_load_goes_straight_to_extraction() {
    let l = Loader::pure_env().env_prefix("SVC_").shared_env(&["OTLP_ENDPOINT"]);
    let (phase, action) = l.step::<u32>(LoadPhase::Start, LoadEvent::Begin);
    assert!(matches!(phase, LoadPhase::Extracting));
    match action {
        LoadAction::Extract(layers) => assert_eq!(
            layers,
            vec![
                Layer::Defaults,
                Layer::SharedEnv(vec!["otlp_endpoint".to_string()]),
                Layer::PrefixedEnv("SVC_"),
            ]
        ),
        other => panic!("unexpected {other:?}"),
    }
    let (phase, action) = l.step(phase, LoadEvent::Extracted { result: Ok(8080u32), path_exists: false });
    assert!(matches!(phase, LoadPhase::Finished));
    assert!(matches!(action, LoadAction::Finish(Ok(8080))));
}

#[test]
fn failed_write_back_fails_the_load() {
    let l = Loader::module("m");
    let (phase, action) = l.step(
        LoadPhase::Storing { config: 1u32 },
        LoadEvent::Stored {
            outcome: Err(ConfigError::Write { path: "/x".to_string(), inner_error: "disk full".to_string() }),
        },
    );
    assert!(matches!(phase, LoadPhase::Finished));
    match action {
        LoadAction::Finish(Err(ConfigError::Write { path, inner_error })) => {
            assert_eq!(path, "/x");
            assert_eq!(inner_error, "disk full");
        }
        other => panic!("unexpected {other:?}"),
    }
}

#[test]
fn shared_keys_differing_only_in_ascii_case_give_the_same_layers() {
    let upper = Loader::pure_env().shared_env(&["OTLP_ENDPOINT", "Sample_Rate"]);
    let lower = Loader::pure_env().shared_env(&["otlp_endpoint", "sample_rate"]);
    assert_eq!(layers_of(&upper, false), layers_of(&lower, false));
    assert_eq!(
        layers_of(&upper, false),
        vec![
            Layer::Defaults,
            Layer::SharedEnv(vec!["otlp_endpoint".to_string(), "sample_rate".to_string()]),
        ]
    );
}
