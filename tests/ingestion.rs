use asset_tracker_desktop::aggregate::{drain, Aggregator, DecodedEvent, ProcessEvent};
use asset_tracker_desktop::command::{
    build_command, build_sync_command, plan_invocation, source_available, BuildError, IngestionConfig,
    RequiredField, SourceKind,
};
use asset_tracker_desktop::outcome::{check_sync, classify, LogEntry, RunError};
use asset_tracker_desktop::text::{joined, same_text};

fn strings(words: &[&str]) -> Vec<String> {
    words.iter().map(|w| w.to_string()).collect()
}

fn filesystem_config() -> IngestionConfig {
    IngestionConfig {
        path: Some("/assets/pack".to_string()),
        name: Some("Pack".to_string()),
        source: "filesystem".to_string(),
        tags: Vec::new(),
        license: None,
        download_strategy: None,
        output_dir: None,
    }
}

fn marketplace_config(source: &str) -> IngestionConfig {
    IngestionConfig {
        path: None,
        name: None,
        source: source.to_string(),
        tags: Vec::new(),
        license: None,
        download_strategy: None,
        output_dir: None,
    }
}

#[test]
fn filesystem_command_has_fixed_prefix() {
    let spec = build_command(&filesystem_config(), "/work").unwrap();
    assert_eq!(
        spec.args,
        strings(&[
            "run", "ingest", "--path", "/assets/pack", "--name", "Pack", "--source", "filesystem"
        ])
    );
    assert_eq!(spec.working_dir, "/work");
}

#[test]
fn filesystem_command_with_tags_and_license() {
    let mut config = filesystem_config();
    config.tags = strings(&["a", "b", "c"]);
    config.license = Some("CC0".to_string());
    let spec = build_command(&config, "/work").unwrap();
    assert_eq!(
        spec.args,
        strings(&[
            "run", "ingest", "--path", "/assets/pack", "--name", "Pack", "--source",
            "filesystem", "--tags", "a", "b", "c", "--license", "CC0"
        ])
    );
}

#[test]
fn tags_keep_order_and_duplicates() {
    let mut config = filesystem_config();
    config.tags = strings(&["b", "a", "b"]);
    let spec = build_command(&config, "/work").unwrap();
    assert_eq!(spec.args[8..], strings(&["--tags", "b", "a", "b"])[..]);
}

#[test]
fn tag_order_a_b_c() {
    let mut config = filesystem_config();
    config.tags = strings(&["a", "b", "c"]);
    let spec = build_command(&config, "/work").unwrap();
    let pos = spec.args.iter().position(|a| a == "--tags").unwrap();
    assert_eq!(spec.args[pos..pos + 4], strings(&["--tags", "a", "b", "c"])[..]);
}

#[test]
fn empty_license_is_left_out() {
    let mut config = filesystem_config();
    config.license = Some(String::new());
    let spec = build_command(&config, "/work").unwrap();
    assert_eq!(spec.args.len(), 8);
    assert!(!spec.args.contains(&"--license".to_string()));
}

#[test]
fn missing_path_is_refused() {
    let mut config = filesystem_config();
    config.path = None;
    match build_command(&config, "/work") {
        Err(BuildError::MissingField(RequiredField::Path)) => {}
        other => panic!("unexpected {:?}", other),
    }
    let e = build_command(&config, "/work").unwrap_err();
    assert_eq!(e.message(), "Path is required for filesystem source");
}

#[test]
fn missing_name_is_refused() {
    let mut config = filesystem_config();
    config.name = None;
    match build_command(&config, "/work") {
        Err(BuildError::MissingField(RequiredField::Name)) => {}
        other => panic!("unexpected {:?}", other),
    }
    let e = build_command(&config, "/work").unwrap_err();
    assert_eq!(e.message(), "Name is required for filesystem source");
}

#[test]
fn unknown_source_is_refused() {
    let config = marketplace_config("steam");
    match build_command(&config, "/work") {
        Err(BuildError::UnknownSource(s)) => assert_eq!(s, "steam"),
        other => panic!("unexpected {:?}", other),
    }
    assert!(plan_invocation(&config, "/work").is_err());
    let e = build_command(&config, "/work").unwrap_err();
    assert_eq!(e.message(), "Unknown source type: steam");
}

#[test]
fn source_kinds_are_parsed() {
    assert_eq!(SourceKind::parse("filesystem").unwrap(), SourceKind::Filesystem);
    assert_eq!(SourceKind::parse("fab").unwrap(), SourceKind::Fab);
    assert_eq!(SourceKind::parse("uas").unwrap(), SourceKind::Uas);
    assert!(SourceKind::parse("Fab").is_err());
    assert!(SourceKind::parse("").is_err());
}

#[test]
fn marketplace_command_without_options() {
    let spec = build_command(&marketplace_config("fab"), "/work").unwrap();
    assert_eq!(
        spec.args,
        strings(&["run", "python", "-m", "game_asset_tracker_ingestion.gui_helper", "fab"])
    );
}

#[test]
fn marketplace_command_with_options() {
    let mut config = marketplace_config("uas");
    config.download_strategy = Some("all".to_string());
    config.output_dir = Some("/out".to_string());
    let spec = build_command(&config, "/work").unwrap();
    assert_eq!(
        spec.args,
        strings(&[
            "run",
            "python",
            "-m",
            "game_asset_tracker_ingestion.gui_helper",
            "uas",
            "--download-strategy",
            "all",
            "--output-dir",
            "/out"
        ])
    );
}

#[test]
fn sync_command_names_the_extra() {
    let spec = build_sync_command("fab", "/work");
    assert_eq!(spec.args, strings(&["sync", "--extra", "fab"]));
    assert_eq!(spec.working_dir, "/work");
}

#[test]
fn plan_adds_sync_only_for_marketplaces() {
    let fab = plan_invocation(&marketplace_config("fab"), "/work").unwrap();
    assert_eq!(fab.sync.unwrap().args, strings(&["sync", "--extra", "fab"]));
    assert_eq!(fab.main.args[4], "fab");
    let fs = plan_invocation(&filesystem_config(), "/work").unwrap();
    assert!(fs.sync.is_none());
    assert_eq!(fs.main.args[1], "ingest");
}

#[test]
fn building_twice_gives_the_same_command() {
    let mut config = filesystem_config();
    config.tags = strings(&["x", "y"]);
    config.license = Some("MIT".to_string());
    let first = build_command(&config, "/work").unwrap();
    let second = build_command(&config, "/work").unwrap();
    assert_eq!(first.args, second.args);
    assert_eq!(first.working_dir, second.working_dir);
}

#[test]
fn exit_zero_is_success_with_stdout() {
    let (result, logs) = drain(vec![
        ProcessEvent::Stdout(b"o".to_vec()),
        ProcessEvent::Stdout(b"k".to_vec()),
        ProcessEvent::Terminated(Some(0)),
    ]);
    let result = result.unwrap();
    assert!(result.success);
    assert_eq!(result.manifest_json.as_deref(), Some("ok"));
    assert_eq!(result.error, None);
    assert!(logs.is_empty());
}

#[test]
fn exit_one_is_failure_with_stderr_chunks() {
    let (result, logs) = drain(vec![
        ProcessEvent::Stderr(b"err1".to_vec()),
        ProcessEvent::Stdout(b"partial".to_vec()),
        ProcessEvent::Stderr(b"err2".to_vec()),
        ProcessEvent::Terminated(Some(1)),
    ]);
    let result = result.unwrap();
    assert!(!result.success);
    assert_eq!(result.manifest_json, None);
    assert_eq!(result.error.as_deref(), Some("err1\nerr2\n"));
    assert_eq!(logs.len(), 2);
    assert_eq!(logs[0].log_type, "stderr");
    assert_eq!(logs[0].message, "err1");
    assert_eq!(logs[1].message, "err2");
}

#[test]
fn stderr_chunks_forwarded_one_by_one() {
    let mut agg = Aggregator::new();
    let first = agg.accept(&ProcessEvent::Stderr(b"err1\n".to_vec())).unwrap();
    assert_eq!(first.message, "err1\n");
    let second = agg.accept(&ProcessEvent::Stderr(b"err2\n".to_vec())).unwrap();
    assert_eq!(second.message, "err2\n");
    assert!(agg.accept(&ProcessEvent::Terminated(Some(1))).is_none());
    let result = agg.finish().unwrap();
    assert!(!result.success);
    assert_eq!(result.error.as_deref(), Some("err1\n\nerr2\n\n"));
}

#[test]
fn signal_termination_is_failure() {
    let (result, _) = drain(vec![
        ProcessEvent::Stdout(b"{}".to_vec()),
        ProcessEvent::Terminated(None),
    ]);
    let result = result.unwrap();
    assert!(!result.success);
    assert_eq!(result.manifest_json, None);
    assert_eq!(result.error.as_deref(), Some(""));
}

#[test]
fn spawn_error_is_a_hard_error() {
    let (result, logs) = drain(vec![ProcessEvent::SpawnError("not found".to_string())]);
    match result {
        Err(RunError::Spawn(m)) => assert_eq!(m, "not found"),
        other => panic!("unexpected {:?}", other),
    }
    assert!(logs.is_empty());
    let (result, _) = drain(vec![ProcessEvent::SpawnError("not found".to_string())]);
    assert!(result.unwrap_err().message().contains("not found"));
}

#[test]
fn stream_without_termination_is_a_hard_error() {
    let (result, _) = drain(vec![ProcessEvent::Stdout(b"ok".to_vec())]);
    match result {
        Err(RunError::StreamEnded) => {}
        other => panic!("unexpected {:?}", other),
    }
    let (empty, _) = drain(Vec::new());
    assert_eq!(empty.unwrap_err().message(), "Process ended unexpectedly");
}

#[test]
fn events_after_termination_are_drained_without_effect() {
    let (result, logs) = drain(vec![
        ProcessEvent::Stdout(b"ok".to_vec()),
        ProcessEvent::Terminated(Some(0)),
        ProcessEvent::Stderr(b"late".to_vec()),
        ProcessEvent::Stdout(b"more".to_vec()),
        ProcessEvent::Terminated(Some(3)),
    ]);
    let result = result.unwrap();
    assert!(result.success);
    assert_eq!(result.manifest_json.as_deref(), Some("ok"));
    assert!(logs.is_empty());
}

#[test]
fn invalid_bytes_are_replaced() {
    let (result, logs) = drain(vec![
        ProcessEvent::Stderr(vec![b'a', 0xff, b'b']),
        ProcessEvent::Terminated(Some(2)),
    ]);
    assert_eq!(logs[0].message, "a\u{FFFD}b");
    assert_eq!(result.unwrap().error.as_deref(), Some("a\u{FFFD}b\n"));
}

#[test]
fn decoded_events_feed_the_same_machine() {
    let mut agg = Aggregator::new();
    assert!(agg.accept_decoded(DecodedEvent::Stdout("done".to_string())).is_none());
    agg.accept_decoded(DecodedEvent::Terminated(Some(0)));
    assert_eq!(agg.finish().unwrap().manifest_json.as_deref(), Some("done"));
}

#[test]
fn classify_by_exit_code_only() {
    let ok = classify(Some(0), "out".to_string(), "warn".to_string());
    assert!(ok.success);
    assert_eq!(ok.manifest_json.as_deref(), Some("out"));
    assert_eq!(ok.error, None);
    let bad = classify(Some(1), "out".to_string(), "warn".to_string());
    assert!(!bad.success);
    assert_eq!(bad.manifest_json, None);
    assert_eq!(bad.error.as_deref(), Some("warn"));
    let signal = classify(None, "out".to_string(), "".to_string());
    assert!(!signal.success);
    let negative = classify(Some(-1), "out".to_string(), "e".to_string());
    assert!(!negative.success);
}

#[test]
fn sync_failure_carries_stderr() {
    assert!(check_sync(true, b"ignored").is_ok());
    match check_sync(false, b"boom") {
        Err(RunError::SyncFailed(m)) => assert_eq!(m, "boom"),
        other => panic!("unexpected {:?}", other),
    }
    let e = check_sync(false, b"boom").unwrap_err();
    assert_eq!(e.message(), "Dependency sync failed: boom");
}

#[test]
fn log_entries_have_their_kind() {
    let notice = LogEntry::sync_notice("fab");
    assert_eq!(notice.log_type, "info");
    assert_eq!(notice.message, "Syncing fab dependencies...");
    let line = LogEntry::stderr("warn");
    assert_eq!(line.log_type, "stderr");
    assert_eq!(line.message, "warn");
}

#[test]
fn text_helpers() {
    assert!(same_text("fab", "fab"));
    assert!(!same_text("fab", "fa"));
    assert!(!same_text("fab", "uas"));
    assert_eq!(joined("ab", "cd"), "abcd");
    let e = RunError::Build(BuildError::UnknownSource("x".to_string()));
    assert_eq!(e.message(), "Unknown source type: x");
}

#[test]
fn source_availability() {
    assert!(source_available("filesystem", false));
    assert!(source_available("fab", true));
    assert!(!source_available("fab", false));
    assert!(source_available("uas", true));
    assert!(!source_available("uas", false));
    assert!(!source_available("steam", true));
}
