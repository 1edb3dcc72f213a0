use cyberforge_shell::bootstrap::launch;
use cyberforge_shell::bootstrap::log_plugin_level;
use cyberforge_shell::bootstrap::run_setup;
use cyberforge_shell::bootstrap::visible_log;
use cyberforge_shell::bootstrap::SetupError;
use cyberforge_shell::supervisor::LogEntry;
use cyberforge_shell::supervisor::LogLevel;
use cyberforge_shell::supervisor::ResolveOutcome;
use cyberforge_shell::supervisor::SpawnOutcome;
use cyberforge_shell::supervisor::SupervisorState;
use cyberforge_shell::supervisor::Variant;

#[test]
fn test_strict_resolution_failure_blocks_event_loop() {
    let r = launch(
        Variant::Strict,
        true,
        Ok(()),
        ResolveOutcome::NotFound { detail: String::from("not bundled") },
        SpawnOutcome::Spawned,
        Ok(()),
    );
    assert_eq!(
        r.setup.result,
        Err(SetupError::SidecarResolution { detail: String::from("not bundled") })
    );
    assert!(!r.event_loop_entered);
    assert!(!r.exit_ok);
    assert_eq!(r.setup.supervisor.spawn_attempts, 0);
}

#[test]
fn test_strict_spawn_failure_blocks_event_loop() {
    let r = launch(
        Variant::Strict,
        true,
        Ok(()),
        ResolveOutcome::Found,
        SpawnOutcome::Failed { detail: String::from("exec format error") },
        Ok(()),
    );
    assert_eq!(
        r.setup.result,
        Err(SetupError::SidecarSpawn { detail: String::from("exec format error") })
    );
    assert!(!r.event_loop_entered);
    assert!(!r.exit_ok);
    assert_eq!(r.setup.supervisor.spawn_attempts, 1);
}

#[test]
fn test_tolerant_resolution_failure_still_launches() {
    let r = launch(
        Variant::Tolerant,
        true,
        Ok(()),
        ResolveOutcome::NotFound { detail: String::from("dev mode") },
        SpawnOutcome::Spawned,
        Ok(()),
    );
    assert_eq!(r.setup.result, Ok(()));
    assert!(r.event_loop_entered);
    assert!(r.exit_ok);
    assert_eq!(r.setup.supervisor.state, SupervisorState::ResolutionFailed);
    assert_eq!(r.setup.supervisor.spawn_attempts, 0);
}

#[test]
fn test_tolerant_spawn_failure_logs_one_warning_and_no_retry() {
    let r = launch(
        Variant::Tolerant,
        true,
        Ok(()),
        ResolveOutcome::Found,
        SpawnOutcome::Failed { detail: String::from("already running") },
        Ok(()),
    );
    assert_eq!(r.setup.result, Ok(()));
    assert!(r.event_loop_entered);
    let warnings: Vec<&LogEntry> = r
        .setup
        .supervisor
        .log
        .iter()
        .filter(|e| e.level() == LogLevel::Warn)
        .collect();
    assert_eq!(warnings.len(), 1);
    assert_eq!(
        *warnings[0],
        LogEntry::SidecarSpawnFailed { detail: String::from("already running") }
    );
    assert_eq!(r.setup.supervisor.spawn_attempts, 1);
}

#[test]
fn test_debug_success_shows_exactly_one_info_line() {
    let r = run_setup(
        Variant::Tolerant,
        true,
        Ok(()),
        ResolveOutcome::Found,
        SpawnOutcome::Spawned,
    );
    assert_eq!(r.result, Ok(()));
    let visible = visible_log(true, r.supervisor.log);
    assert_eq!(visible, vec![LogEntry::SidecarStarted]);
    assert_eq!(visible[0].level(), LogLevel::Info);
}

#[test]
fn test_release_build_registers_no_log_plugin_and_shows_nothing() {
    assert_eq!(log_plugin_level(false), None);
    let r = run_setup(
        Variant::Tolerant,
        false,
        Ok(()),
        ResolveOutcome::Found,
        SpawnOutcome::Failed { detail: String::from("already running") },
    );
    assert!(!r.log_plugin_registered);
    // An entry was produced, but in a release build nothing is visible.
    assert_eq!(r.supervisor.log.len(), 1);
    let visible = visible_log(false, r.supervisor.log);
    assert!(visible.is_empty());
}

#[test]
fn test_debug_build_registers_log_plugin_at_info() {
    assert_eq!(log_plugin_level(true), Some(LogLevel::Info));
    let r = run_setup(Variant::Tolerant, true, Ok(()), ResolveOutcome::Found, SpawnOutcome::Spawned);
    assert!(r.log_plugin_registered);
}

#[test]
fn test_logger_registration_failure_is_fatal_under_both_variants() {
    for variant in [Variant::Strict, Variant::Tolerant] {
        let r = run_setup(
            variant,
            true,
            Err(String::from("log file locked")),
            ResolveOutcome::Found,
            SpawnOutcome::Spawned,
        );
        assert_eq!(
            r.result,
            Err(SetupError::LoggerRegistration { detail: String::from("log file locked") })
        );
        // Setup aborted before the supervisor ran.
        assert_eq!(r.supervisor.state, SupervisorState::NotStarted);
        assert_eq!(r.supervisor.spawn_attempts, 0);
        assert!(!r.log_plugin_registered);
    }
}

#[test]
fn test_at_most_one_spawn_attempt_under_every_outcome() {
    let outcomes = [
        (ResolveOutcome::Found, SpawnOutcome::Spawned),
        (ResolveOutcome::Found, SpawnOutcome::Failed { detail: String::from("busy") }),
        (ResolveOutcome::NotFound { detail: String::from("missing") }, SpawnOutcome::Spawned),
    ];
    for variant in [Variant::Strict, Variant::Tolerant] {
        for debug in [false, true] {
            for (resolution, spawn) in outcomes.clone() {
                let r = run_setup(variant, debug, Ok(()), resolution, spawn);
                assert!(r.supervisor.spawn_attempts <= 1);
            }
        }
    }
}

#[test]
fn test_event_loop_start_failure_means_unclean_exit() {
    let r = launch(
        Variant::Tolerant,
        false,
        Ok(()),
        ResolveOutcome::Found,
        SpawnOutcome::Spawned,
        Err(String::from("display unavailable")),
    );
    assert_eq!(r.setup.result, Ok(()));
    assert!(r.event_loop_entered);
    assert!(!r.exit_ok);
}

#[test]
fn test_success_path_exits_cleanly() {
    let r = launch(
        Variant::Strict,
        false,
        Ok(()),
        ResolveOutcome::Found,
        SpawnOutcome::Spawned,
        Ok(()),
    );
    assert_eq!(r.setup.result, Ok(()));
    assert!(r.event_loop_entered);
    assert!(r.exit_ok);
    assert_eq!(r.setup.supervisor.state, SupervisorState::Running);
}
