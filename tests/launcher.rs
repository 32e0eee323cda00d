use suwayomi_launcher::config::{
    build_base_url, fallback_base_url, normalize_base_url, normalize_ip, normalize_subpath,
    parse_server_conf, resolve_base_url, validate_base_url, ParsedConfig, DEFAULT_IP, DEFAULT_PORT,
};
use suwayomi_launcher::bootstrap::{bootstrap_step, BootstrapAction, BootstrapEvent, BootstrapState};
use suwayomi_launcher::error::LauncherError;
use suwayomi_launcher::launch::{
    build_java_args, health_url, poll_step, shutdown_child_process, ChildSlot,
    LauncherConfig, PollAction, ProbeOutcome, STARTUP_TIMEOUT_SECS,
};
use suwayomi_launcher::runtime::{
    find_runtime_paths, java_binary_path, join_path, payload_path, runtime_roots, FileProbe,
    Platform,
};
use suwayomi_launcher::text::{decimal_string, parse_u16};

#[test]
fn parse_server_conf_uses_defaults() {
    let parsed = parse_server_conf("server.webUIEnabled = true");

    assert_eq!(parsed.ip, DEFAULT_IP);
    assert_eq!(parsed.port, DEFAULT_PORT);
    assert!(parsed.subpath.is_empty());
}

#[test]
fn parse_server_conf_reads_values() {
    let parsed = parse_server_conf(
        r#"
            server.ip = "0.0.0.0"
            server.port = 8080
            server.webUISubpath = "suwayomi"
            "#,
    );

    assert_eq!(parsed.ip, DEFAULT_IP);
    assert_eq!(parsed.port, 8080);
    assert_eq!(parsed.subpath, "/suwayomi");
}

#[test]
fn build_base_url_normalizes_subpath() {
    assert_eq!(build_base_url("127.0.0.1", 4567, ""), "http://127.0.0.1:4567");
    assert_eq!(build_base_url("127.0.0.1", 4567, "abc/"), "http://127.0.0.1:4567/abc");
}

#[test]
fn build_java_args_includes_root_dir_when_present() {
    let args = build_java_args(Some("/tmp/suwa"));

    assert!(args
        .iter()
        .any(|arg| arg == "-Dsuwayomi.tachidesk.config.server.initialOpenInBrowserEnabled=false"));
    assert!(args
        .iter()
        .any(|arg| arg == "-Dsuwayomi.tachidesk.config.server.rootDir=/tmp/suwa"));
}

#[test]
fn runtime_roots_include_nested_resources() {
    let app_dir = String::from("/tmp/Suwayomi Launcher.app/Contents");
    let resource_dir = String::from("/tmp/Suwayomi Launcher.app/Contents/Resources");
    let roots = runtime_roots(Some(resource_dir.as_str()), &app_dir, Platform::Unix);

    assert!(roots.contains(&resource_dir));
    assert!(roots.contains(&"/tmp/Suwayomi Launcher.app/Contents/Resources/resources".to_string()));
}

#[test]
fn parse_empty_text_gives_defaults() {
    let parsed = parse_server_conf("");
    assert_eq!(parsed.ip, "127.0.0.1");
    assert_eq!(parsed.port, 4567);
    assert_eq!(parsed.subpath, "");
}

#[test]
fn parse_keeps_default_port_on_overflow() {
    let parsed = parse_server_conf("server.port = 99999\nserver.ip = \" 10.0.0.2 \"");
    assert_eq!(parsed.port, 4567);
    assert_eq!(parsed.ip, "10.0.0.2");
}

#[test]
fn parse_reads_keys_only_at_line_start() {
    let parsed = parse_server_conf("# server.port = 1\nother server.port = 2\n  server.port = 3000");
    assert_eq!(parsed.port, 3000);
}

#[test]
fn parse_empty_subpath_value() {
    let parsed = parse_server_conf("server.webUISubpath = \"\"");
    assert_eq!(parsed.subpath, "");
}

#[test]
fn default_config_matches_constants() {
    let config = ParsedConfig::default();
    assert_eq!(config.ip, "127.0.0.1");
    assert_eq!(config.port, 4567);
    assert_eq!(config.subpath, "");
}

#[test]
fn normalize_subpath_examples() {
    assert_eq!(normalize_subpath(""), "");
    assert_eq!(normalize_subpath("/"), "");
    assert_eq!(normalize_subpath("abc/"), "/abc");
    assert_eq!(normalize_subpath("noslash"), "/noslash");
    assert_eq!(normalize_subpath("  /a/b/  "), "/a/b");
}

#[test]
fn normalize_ip_maps_bind_all() {
    assert_eq!(normalize_ip("0.0.0.0"), "127.0.0.1");
    assert_eq!(normalize_ip("192.168.1.4"), "192.168.1.4");
}

#[test]
fn build_base_url_maps_bind_all_and_port() {
    assert_eq!(build_base_url("0.0.0.0", 80, "/ui/"), "http://127.0.0.1:80/ui");
    assert_eq!(build_base_url("10.1.2.3", 0, ""), "http://10.1.2.3:0");
    assert_eq!(build_base_url("h", 65535, "x"), "http://h:65535/x");
}

#[test]
fn normalize_base_url_rewrites_host_and_slash() {
    assert_eq!(normalize_base_url("http://0.0.0.0:4567/").as_deref(), Some("http://127.0.0.1:4567"));
    assert_eq!(normalize_base_url("http://example.com:8080/app/").as_deref(), Some("http://example.com:8080/app"));
    assert_eq!(normalize_base_url("not a url"), None);
    assert_eq!(normalize_base_url("HTTP://Example.COM").as_deref(), Some("http://example.com"));
}

#[test]
fn resolve_prefers_command_line_url() {
    let url = resolve_base_url(
        Some("http://10.0.0.1:9000/"),
        Some("http://10.0.0.2:9001"),
        Some("server.port = 1234"),
    );
    assert_eq!(url, "http://10.0.0.1:9000");
}

#[test]
fn resolve_falls_through_unparseable_urls() {
    let url = resolve_base_url(Some("::bad::"), Some("http://10.0.0.2:9001"), None);
    assert_eq!(url, "http://10.0.0.2:9001");
    let url = resolve_base_url(Some("::bad::"), Some("also bad"), Some("server.port = 1234"));
    assert_eq!(url, "http://127.0.0.1:1234");
    let url = fallback_base_url(None, None, None);
    assert_eq!(url, "http://127.0.0.1:4567");
}

#[test]
fn validate_base_url_rejects_non_urls() {
    assert!(validate_base_url("http://127.0.0.1:4567".to_string()).is_ok());
    match validate_base_url("no url here".to_string()) {
        Err(LauncherError::InvalidBaseUrl(v)) => assert_eq!(v, "no url here"),
        other => panic!("unexpected {:?}", other),
    }
}

#[test]
fn runtime_roots_macos_bundle_and_dedup() {
    let roots = runtime_roots(Some("/a"), "/a", Platform::MacOs);
    assert_eq!(
        roots,
        vec![
            "/a".to_string(),
            "/a/resources".to_string(),
            "/a/Resources".to_string(),
            "/a/Resources/resources".to_string(),
        ]
    );
    let roots = runtime_roots(None, "/b/", Platform::Unix);
    assert_eq!(roots, vec!["/b/".to_string(), "/b/resources".to_string()]);
}

#[test]
fn paths_per_platform() {
    assert_eq!(java_binary_path("/r", Platform::Unix), "/r/jre/bin/java");
    assert_eq!(java_binary_path("C:\\r", Platform::Windows), "C:\\r\\jre\\bin\\java.exe");
    assert_eq!(payload_path("/r", Platform::MacOs), "/r/bin/Suwayomi-Server.jar");
    assert_eq!(join_path("", "x", Platform::Unix), "x");
}

fn roots3() -> Vec<String> {
    vec!["/a".to_string(), "/b".to_string(), "/c".to_string()]
}

#[test]
fn find_reports_first_missing_interpreter() {
    let probes = vec![FileProbe { interpreter: false, payload: false }; 3];
    match find_runtime_paths(roots3(), &probes, Platform::Unix) {
        Err(LauncherError::MissingFile(p)) => assert_eq!(p, "/a/jre/bin/java"),
        other => panic!("unexpected {:?}", other),
    }
}

#[test]
fn find_prefers_missing_interpreter_over_payload() {
    let probes = vec![
        FileProbe { interpreter: true, payload: false },
        FileProbe { interpreter: false, payload: true },
        FileProbe { interpreter: true, payload: false },
    ];
    match find_runtime_paths(roots3(), &probes, Platform::Unix) {
        Err(LauncherError::MissingFile(p)) => assert_eq!(p, "/b/jre/bin/java"),
        other => panic!("unexpected {:?}", other),
    }
}

#[test]
fn find_reports_first_missing_payload() {
    let probes = vec![FileProbe { interpreter: true, payload: false }; 3];
    match find_runtime_paths(roots3(), &probes, Platform::Unix) {
        Err(LauncherError::MissingFile(p)) => assert_eq!(p, "/a/bin/Suwayomi-Server.jar"),
        other => panic!("unexpected {:?}", other),
    }
}

#[test]
fn find_returns_ready_root() {
    let probes = vec![
        FileProbe { interpreter: false, payload: false },
        FileProbe { interpreter: true, payload: true },
        FileProbe { interpreter: true, payload: true },
    ];
    let (root, java, jar) = find_runtime_paths(roots3(), &probes, Platform::Unix).unwrap();
    assert_eq!(root, "/b");
    assert_eq!(java, "/b/jre/bin/java");
    assert_eq!(jar, "/b/bin/Suwayomi-Server.jar");
}

#[test]
fn find_without_roots_is_missing_executable() {
    let probes: Vec<FileProbe> = Vec::new();
    assert!(matches!(
        find_runtime_paths(Vec::new(), &probes, Platform::Unix),
        Err(LauncherError::MissingExecutable)
    ));
}

#[test]
fn discover_builds_command() {
    let probes = vec![FileProbe { interpreter: true, payload: true }];
    let config = LauncherConfig::discover(
        "http://127.0.0.1:4567".to_string(),
        vec!["/opt/s".to_string()],
        &probes,
        Platform::Unix,
        None,
    )
    .unwrap();
    assert_eq!(config.runtime_root, "/opt/s");
    assert_eq!(
        config.command_args(),
        vec![
            "-Dsuwayomi.tachidesk.config.server.initialOpenInBrowserEnabled=false".to_string(),
            "-Dsuwayomi.tachidesk.config.server.webUIInterface=browser".to_string(),
            "-jar".to_string(),
            "/opt/s/bin/Suwayomi-Server.jar".to_string(),
        ]
    );
}

#[test]
fn java_args_without_root_dir() {
    assert_eq!(build_java_args(None).len(), 2);
}

#[test]
fn health_url_joins_endpoint() {
    assert_eq!(health_url("http://h:1/"), "http://h:1/api/v1/settings/about/");
    assert_eq!(health_url("http://h:1/x"), "http://h:1/x/api/v1/settings/about/");
}

#[test]
fn poll_gives_up_exactly_at_timeout() {
    assert_eq!(poll_step(1999, 2000, ProbeOutcome::NotYet), PollAction::Probe);
    assert_eq!(poll_step(2000, 2000, ProbeOutcome::NotYet), PollAction::Done(false));
    assert_eq!(poll_step(500, 2000, ProbeOutcome::Met), PollAction::Done(true));
    assert_eq!(poll_step(500, 2000, ProbeOutcome::NotMet), PollAction::Sleep);
    assert_eq!(poll_step(500, 2000, ProbeOutcome::Failed), PollAction::Done(false));
}

fn sample_config() -> LauncherConfig {
    LauncherConfig {
        runtime_root: "/r".to_string(),
        java_bin: "/r/jre/bin/java".to_string(),
        jar_file: "/r/bin/Suwayomi-Server.jar".to_string(),
        base_url: "http://127.0.0.1:4567".to_string(),
        root_dir: None,
    }
}

#[test]
fn bootstrap_rejects_invalid_address() {
    let (state, action) = bootstrap_step(
        BootstrapState::Unchecked,
        BootstrapEvent::BaseUrlResolved("not a url".to_string()),
    );
    assert!(matches!(state, BootstrapState::Failed(LauncherError::InvalidBaseUrl(ref u)) if u == "not a url"));
    assert_eq!(action, BootstrapAction::Finish);
}

#[test]
fn bootstrap_ready_when_already_healthy() {
    let (state, action) = bootstrap_step(
        BootstrapState::Unchecked,
        BootstrapEvent::BaseUrlResolved("http://127.0.0.1:4567".to_string()),
    );
    assert_eq!(action, BootstrapAction::CheckHealth);
    let (state, action) = bootstrap_step(state, BootstrapEvent::HealthChecked(true));
    assert!(matches!(state, BootstrapState::Ready(ref u) if u == "http://127.0.0.1:4567"));
    assert_eq!(action, BootstrapAction::Finish);
}

#[test]
fn bootstrap_full_start_tracks_child() {
    let state = BootstrapState::Checking("http://127.0.0.1:4567".to_string());
    let (state, action) = bootstrap_step(state, BootstrapEvent::HealthChecked(false));
    assert_eq!(action, BootstrapAction::Discover);
    let (state, action) = bootstrap_step(state, BootstrapEvent::RuntimeFound(Ok(sample_config())));
    assert_eq!(action, BootstrapAction::Spawn);
    let (state, action) = bootstrap_step(state, BootstrapEvent::SpawnFinished(Ok(())));
    assert_eq!(action, BootstrapAction::WaitHealthy);
    let (state, action) = bootstrap_step(state, BootstrapEvent::StartupWaitFinished(true));
    assert_eq!(action, BootstrapAction::TrackChild);
    assert!(matches!(state, BootstrapState::Ready(ref u) if u == "http://127.0.0.1:4567"));
}

#[test]
fn bootstrap_timeout_kills_child() {
    let state = BootstrapState::WaitingHealthy(sample_config());
    let (state, action) = bootstrap_step(state, BootstrapEvent::StartupWaitFinished(false));
    assert_eq!(action, BootstrapAction::KillChild);
    match state {
        BootstrapState::Failed(LauncherError::StartupTimeout { base_url, timeout_secs }) => {
            assert_eq!(base_url, "http://127.0.0.1:4567");
            assert_eq!(timeout_secs, STARTUP_TIMEOUT_SECS);
        }
        other => panic!("unexpected {:?}", other),
    }
}

#[test]
fn bootstrap_spawn_and_search_failures() {
    let (state, action) = bootstrap_step(
        BootstrapState::Spawning(sample_config()),
        BootstrapEvent::SpawnFinished(Err("denied".to_string())),
    );
    assert_eq!(action, BootstrapAction::Finish);
    assert!(matches!(state, BootstrapState::Failed(LauncherError::SpawnServer(ref r)) if r == "denied"));
    let (state, _) = bootstrap_step(
        BootstrapState::Discovering("http://x:1".to_string()),
        BootstrapEvent::RuntimeFound(Err(LauncherError::MissingExecutable)),
    );
    assert!(matches!(state, BootstrapState::Failed(LauncherError::MissingExecutable)));
    let (state, action) = bootstrap_step(BootstrapState::Ready("u".to_string()), BootstrapEvent::HealthChecked(true));
    assert_eq!(action, BootstrapAction::Finish);
    assert!(matches!(state, BootstrapState::Ready(_)));
}

#[test]
fn shutdown_without_child_does_nothing() {
    let mut slot: ChildSlot<u32> = ChildSlot::new();
    assert!(shutdown_child_process(&mut slot).is_none());
    assert!(!slot.is_tracking());
}

#[test]
fn slot_holds_one_child_until_shutdown() {
    let mut slot: ChildSlot<u32> = ChildSlot::new();
    assert!(slot.track(7).is_ok());
    assert_eq!(slot.track(8), Err(8));
    assert_eq!(shutdown_child_process(&mut slot), Some(7));
    assert_eq!(shutdown_child_process(&mut slot), None);
}

#[test]
fn decimal_and_port_parsing() {
    assert_eq!(decimal_string(0), "0");
    assert_eq!(decimal_string(4567), "4567");
    assert_eq!(parse_u16("65535"), Some(65535));
    assert_eq!(parse_u16("65536"), None);
    assert_eq!(parse_u16(""), None);
    assert_eq!(parse_u16("12a"), None);
}
