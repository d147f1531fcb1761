use game_dispatcher::begin_stop;
use game_dispatcher::complete_exit;
use game_dispatcher::failure_payload;
use game_dispatcher::launch_failure_message;
use game_dispatcher::parse_app_id;
use game_dispatcher::register_spawn;
use game_dispatcher::resolve_launch;
use game_dispatcher::stop_error_message;
use game_dispatcher::stopped_payload;
use game_dispatcher::validate_stop_target;
use game_dispatcher::GameDispatcherState;
use game_dispatcher::ObservedProcess;
use game_dispatcher::StopError;

#[test]
fn test_dispatch_then_exit_round_trip() {
    let mut state = GameDispatcherState::new();
    let running = register_spawn(&mut state, 7, "game.exe", "sub/game.exe", Some(1234), None);
    assert!(running.running);
    assert_eq!(running.app_id, "7");
    assert_eq!(running.executable_name, "game.exe");
    assert_eq!(running.full_executable_path, "sub/game.exe");
    assert_eq!(running.pid, Some(1234));
    assert_eq!(running.status, None);
    assert_eq!(running.error, None);

    let meta = state.lookup_metadata(7).expect("record should be present");
    assert_eq!(meta.pid, Some(1234));

    let exited = complete_exit(&mut state, 7, Some(3)).expect("record should be removed");
    assert!(!exited.running);
    assert_eq!(exited.app_id, "7");
    assert_eq!(exited.executable_name, "game.exe");
    assert_eq!(exited.pid, Some(1234));
    assert_eq!(exited.status, Some(3));
    assert!(state.lookup_metadata(7).is_none());
    assert_eq!(state.len(), 0);
}

#[test]
fn test_exit_after_stop_is_quiet() {
    let mut state = GameDispatcherState::new();
    register_spawn(&mut state, 7, "game.exe", "sub/game.exe", Some(1234), None);
    assert!(begin_stop(&mut state, 7).is_ok());
    assert!(complete_exit(&mut state, 7, Some(0)).is_none());
    assert_eq!(state.len(), 0);
}

#[test]
fn test_stop_unknown_app_id_is_not_running() {
    let mut state = GameDispatcherState::new();
    let err = begin_stop(&mut state, 9).unwrap_err();
    assert!(matches!(err, StopError::NotRunning));
    assert_eq!(state.len(), 0);
    assert_eq!(
        stop_error_message("9", &err),
        "No running process found for app_id: 9"
    );
}

#[test]
fn test_second_stop_is_not_running() {
    let mut state = GameDispatcherState::new();
    register_spawn(&mut state, 7, "game.exe", "sub/game.exe", Some(1234), None);
    let first = begin_stop(&mut state, 7);
    assert!(first.is_ok());
    let second = begin_stop(&mut state, 7);
    assert!(matches!(second, Err(StopError::NotRunning)));
}

#[test]
fn test_identity_mismatch_issues_no_kill() {
    let mut state = GameDispatcherState::new();
    register_spawn(&mut state, 7, "game.exe", "sub/game.exe", Some(1234), None);
    let item = begin_stop(&mut state, 7).unwrap();
    let observed = ObservedProcess {
        name: "other".to_string(),
        exe_file_name: "other.exe".to_string(),
    };
    let err = validate_stop_target(&item, Some(&observed)).unwrap_err();
    match &err {
        StopError::IdentityMismatch {
            expected_name,
            expected_path,
            pid,
            observed_name,
            observed_path,
        } => {
            assert_eq!(expected_name, "game.exe");
            assert_eq!(expected_path, "sub/game.exe");
            assert_eq!(*pid, 1234);
            assert_eq!(observed_name, "other");
            assert_eq!(observed_path, "other.exe");
        }
        other => panic!("expected an identity mismatch, got {}", stop_error_message("7", other)),
    }
    assert_eq!(
        stop_error_message("7", &err),
        "Process info mismatch (wanted name: 'game.exe', path: 'sub/game.exe', pid: '1234'), \
         found name: 'other', path: 'other.exe'"
    );
}

#[test]
fn test_identity_match_ignores_ascii_case() {
    let item_holder = {
        let mut state = GameDispatcherState::new();
        register_spawn(&mut state, 7, "game.exe", "sub/game.exe", Some(1234), None);
        begin_stop(&mut state, 7).unwrap()
    };
    let observed = ObservedProcess {
        name: "Game".to_string(),
        exe_file_name: "GAME.EXE".to_string(),
    };
    assert_eq!(validate_stop_target(&item_holder, Some(&observed)).ok(), Some(1234));
}

#[test]
fn test_stop_on_exited_process() {
    let mut state = GameDispatcherState::new();
    register_spawn(&mut state, 7, "game.exe", "sub/game.exe", Some(1234), None);
    let item = begin_stop(&mut state, 7).unwrap();
    let err = validate_stop_target(&item, None).unwrap_err();
    assert!(matches!(err, StopError::AlreadyExited { pid: 1234 }));
    assert_eq!(
        stop_error_message("7", &err),
        "Process with PID 1234 not found or already exited"
    );
}

#[test]
fn test_stop_without_recorded_pid() {
    let mut state = GameDispatcherState::new();
    register_spawn(&mut state, 7, "game.exe", "sub/game.exe", None, None);
    let item = begin_stop(&mut state, 7).unwrap();
    let err = validate_stop_target(&item, None).unwrap_err();
    assert!(matches!(err, StopError::NoPidRecorded));
    assert_eq!(
        stop_error_message("7", &err),
        "No PID stored for this dispatched item"
    );
}

#[test]
fn test_termination_failed_message() {
    let err = StopError::TerminationFailed {
        detail: "access denied".to_string(),
    };
    assert_eq!(
        stop_error_message("7", &err),
        "Failed to stop process: access denied"
    );
}

#[test]
fn test_registry_holds_single_record_with_relative_path() {
    let plan = resolve_launch("", 7, "sub", "game.exe");
    assert_eq!(plan.full_executable_path, "sub/game.exe");
    let mut state = GameDispatcherState::new();
    register_spawn(&mut state, 7, "game.exe", &plan.full_executable_path, Some(1), None);
    assert_eq!(state.len(), 1);
    let meta = state.lookup_metadata(7).unwrap();
    assert_eq!(meta.full_executable_path, "sub/game.exe");
    assert_eq!(meta.executable_name, "game.exe");
}

#[test]
fn test_two_dispatches_stay_independent() {
    let mut one = GameDispatcherState::new();
    register_spawn(&mut one, 7, "first.exe", "a/first.exe", Some(10), None);
    register_spawn(&mut one, 8, "second.exe", "b/second.exe", Some(20), None);

    let mut two = GameDispatcherState::new();
    register_spawn(&mut two, 8, "second.exe", "b/second.exe", Some(20), None);
    register_spawn(&mut two, 7, "first.exe", "a/first.exe", Some(10), None);

    for state in [&one, &two] {
        assert_eq!(state.len(), 2);
        let first = state.lookup_metadata(7).unwrap();
        assert_eq!(first.executable_name, "first.exe");
        assert_eq!(first.full_executable_path, "a/first.exe");
        assert_eq!(first.pid, Some(10));
        let second = state.lookup_metadata(8).unwrap();
        assert_eq!(second.executable_name, "second.exe");
        assert_eq!(second.full_executable_path, "b/second.exe");
        assert_eq!(second.pid, Some(20));
    }
}

#[test]
fn test_repeat_dispatch_replaces_record() {
    let mut state = GameDispatcherState::new();
    register_spawn(&mut state, 7, "old.exe", "a/old.exe", Some(10), None);
    register_spawn(&mut state, 7, "new.exe", "b/new.exe", Some(20), None);
    assert_eq!(state.len(), 1);
    let meta = state.lookup_metadata(7).unwrap();
    assert_eq!(meta.executable_name, "new.exe");
    assert_eq!(meta.pid, Some(20));
}

#[test]
fn test_take_handle_leaves_metadata() {
    let mut state = GameDispatcherState::new();
    register_spawn(&mut state, 7, "game.exe", "sub/game.exe", Some(1234), None);
    assert!(state.take_handle(7).is_none());
    let meta = state.lookup_metadata(7).unwrap();
    assert_eq!(meta.pid, Some(1234));
    assert!(state.take_handle(9).is_none());
    assert_eq!(state.len(), 1);
}

#[test]
fn test_resolve_launch_builds_all_paths() {
    let plan = resolve_launch("base", 7, "sub", "game.exe");
    assert_eq!(plan.game_folder_path, "base/games/7/sub");
    assert_eq!(plan.executable_path, "base/games/7/sub/game.exe");
    assert_eq!(plan.full_executable_path, "sub/game.exe");

    let rootless = resolve_launch("", 42, "", "a.exe");
    assert_eq!(rootless.game_folder_path, "games/42/");
    assert_eq!(rootless.executable_path, "games/42//a.exe");
    assert_eq!(rootless.full_executable_path, "a.exe");
}

#[test]
fn test_spawn_failure_event_and_message() {
    let ev = failure_payload(7, "game.exe", "sub/game.exe", "file not found");
    assert!(!ev.running);
    assert_eq!(ev.pid, None);
    assert_eq!(ev.status, None);
    assert_eq!(ev.error.as_deref(), Some("file not found"));
    assert_eq!(ev.app_id, "7");
    assert_eq!(
        launch_failure_message("file not found"),
        "Failed to launch executable: file not found"
    );
}

#[test]
fn test_stopped_payload_fields() {
    let ev = stopped_payload(7, "game.exe", "sub/game.exe");
    assert!(!ev.running);
    assert_eq!(ev.pid, None);
    assert_eq!(ev.status, None);
    assert_eq!(ev.error, None);
    assert_eq!(ev.app_id, "7");
    assert_eq!(ev.executable_name, "game.exe");
}

#[test]
fn test_parse_app_id_accepts_decimal_i64() {
    assert_eq!(parse_app_id("7"), Ok(7));
    assert_eq!(parse_app_id("+42"), Ok(42));
    assert_eq!(parse_app_id("-3"), Ok(-3));
    assert_eq!(parse_app_id("9223372036854775807"), Ok(i64::MAX));
    assert_eq!(parse_app_id("-9223372036854775808"), Ok(i64::MIN));
    assert_eq!(parse_app_id("abc"), Err("Invalid app_id".to_string()));
    assert_eq!(parse_app_id(""), Err("Invalid app_id".to_string()));
    assert_eq!(parse_app_id("-"), Err("Invalid app_id".to_string()));
    assert_eq!(parse_app_id("1.5"), Err("Invalid app_id".to_string()));
    assert_eq!(
        parse_app_id("9223372036854775808"),
        Err("Invalid app_id".to_string())
    );
}

#[test]
fn test_decimal_rendering() {
    assert_eq!(game_dispatcher::u64_to_dec(0), "0");
    assert_eq!(game_dispatcher::u64_to_dec(107), "107");
    assert_eq!(game_dispatcher::u64_to_dec(u64::MAX), "18446744073709551615");
    assert_eq!(game_dispatcher::i64_to_dec(-42), "-42");
    assert_eq!(game_dispatcher::i64_to_dec(i64::MIN), "-9223372036854775808");
    assert_eq!(game_dispatcher::i64_to_dec(7), "7");
}

#[test]
fn test_greet_builds_exact_text() {
    assert_eq!(
        game_dispatcher::greet("Alex"),
        "Hello, Alex! You've been greeted from Rust!"
    );
}
