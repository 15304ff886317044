use eve_flipper_launcher::backend::{backend_args, backend_name, BACKEND_NAME, PORT_FLAG, PORT_VALUE};
use eve_flipper_launcher::failure::{
    failure_message, Failure, BINARY_NOT_FOUND_LEAD, SPAWN_FAILED_LEAD,
};
use eve_flipper_launcher::launcher::{start, step, Action, Event, Phase, FATAL_EXIT_CODE};
use eve_flipper_launcher::run::replay;

fn fixed_args() -> Vec<String> {
    vec!["--port".to_string(), "13370".to_string()]
}

fn not_found(diagnostic: &str) -> Event {
    Event::BinaryNotFound { diagnostic: diagnostic.to_string() }
}

fn spawn_failed(diagnostic: &str) -> Event {
    Event::SpawnFailed { diagnostic: diagnostic.to_string() }
}

/// A host that creates no process: it records what it is asked to do and
/// answers from a script.
struct RecordingHost {
    binary_present: bool,
    spawn_succeeds: bool,
    resolved_names: Vec<String>,
    spawn_args: Vec<Vec<String>>,
    reports: Vec<String>,
    exit_codes: Vec<i32>,
    retained: bool,
}

impl RecordingHost {
    fn new(binary_present: bool, spawn_succeeds: bool) -> RecordingHost {
        RecordingHost {
            binary_present,
            spawn_succeeds,
            resolved_names: Vec::new(),
            spawn_args: Vec::new(),
            reports: Vec::new(),
            exit_codes: Vec::new(),
            retained: false,
        }
    }

    fn perform(&mut self, action: Action) -> Option<Event> {
        match action {
            Action::ResolveBinary { name } => {
                self.resolved_names.push(name);
                if self.binary_present {
                    Some(Event::BinaryResolved)
                } else {
                    Some(not_found("NotFound"))
                }
            }
            Action::Spawn { args } => {
                self.spawn_args.push(args);
                if self.spawn_succeeds {
                    Some(Event::Spawned)
                } else {
                    Some(spawn_failed("PermissionDenied"))
                }
            }
            Action::ReportFatal { message, .. } => {
                self.reports.push(message);
                Some(Event::ErrorReported)
            }
            Action::Exit { code } => {
                self.exit_codes.push(code);
                None
            }
            Action::Retain => {
                self.retained = true;
                None
            }
            Action::Release | Action::Nothing => None,
        }
    }

    fn run(&mut self) -> Phase {
        let (mut phase, mut action) = start();
        while let Some(event) = self.perform(action) {
            let (next_phase, next_action) = step(phase, &event);
            phase = next_phase;
            action = next_action;
        }
        phase
    }
}

#[test]
fn backend_name_is_the_fixed_identifier() {
    assert_eq!(BACKEND_NAME, "eve-flipper-backend");
    assert_eq!(backend_name(), "eve-flipper-backend");
}

#[test]
fn backend_args_are_port_flag_then_port() {
    assert_eq!(PORT_FLAG, "--port");
    assert_eq!(PORT_VALUE, "13370");
    assert_eq!(backend_args(), fixed_args());
    assert_eq!(backend_args().len(), 2);
}

#[test]
fn start_asks_for_the_backend_binary() {
    let (phase, action) = start();
    assert_eq!(phase, Phase::Init);
    assert_eq!(action, Action::ResolveBinary { name: "eve-flipper-backend".to_string() });
}

#[test]
fn resolved_binary_is_spawned_with_fixed_args() {
    let (phase, action) = step(Phase::Init, &Event::BinaryResolved);
    assert_eq!(phase, Phase::Resolved);
    assert_eq!(action, Action::Spawn { args: fixed_args() });
}

#[test]
fn missing_binary_is_reported() {
    let (phase, action) = step(Phase::Init, &not_found("CurrentExeHasNoParent"));
    assert_eq!(phase, Phase::FatalError);
    assert_eq!(
        action,
        Action::ReportFatal {
            failure: Failure::BinaryNotFound,
            message: "Backend binary not found. Run from the folder that contains \
                      eve-flipper-backend.exe.\n\nCurrentExeHasNoParent"
                .to_string(),
        }
    );
}

#[test]
fn spawned_backend_is_retained() {
    let (phase, action) = step(Phase::Resolved, &Event::Spawned);
    assert_eq!(phase, Phase::Running);
    assert_eq!(action, Action::Retain);
}

#[test]
fn failed_spawn_is_reported() {
    let (phase, action) = step(Phase::Resolved, &spawn_failed("Io(PermissionDenied)"));
    assert_eq!(phase, Phase::FatalError);
    assert_eq!(
        action,
        Action::ReportFatal {
            failure: Failure::SpawnFailed,
            message: "Failed to start backend server.\n\nIo(PermissionDenied)".to_string(),
        }
    );
}

#[test]
fn reported_failure_exits_with_status_one() {
    let (phase, action) = step(Phase::FatalError, &Event::ErrorReported);
    assert_eq!(phase, Phase::Terminal);
    assert_eq!(action, Action::Exit { code: 1 });
    assert_eq!(FATAL_EXIT_CODE, 1);
}

#[test]
fn app_exit_releases_the_child() {
    let (phase, action) = step(Phase::Running, &Event::AppExited);
    assert_eq!(phase, Phase::Terminal);
    assert_eq!(action, Action::Release);
}

#[test]
fn events_out_of_turn_change_nothing() {
    let all_events = vec![
        Event::BinaryResolved,
        not_found("x"),
        Event::Spawned,
        spawn_failed("x"),
        Event::ErrorReported,
        Event::AppExited,
    ];
    let expected: Vec<(Phase, Vec<usize>)> = vec![
        (Phase::Init, vec![0, 1]),
        (Phase::Resolved, vec![2, 3]),
        (Phase::Running, vec![5]),
        (Phase::FatalError, vec![4]),
        (Phase::Terminal, vec![]),
    ];
    for (phase, awaited) in expected {
        for (index, event) in all_events.iter().enumerate() {
            let (next_phase, action) = step(phase, event);
            if awaited.contains(&index) {
                assert_ne!(next_phase, phase);
                assert_ne!(action, Action::Nothing);
            } else {
                assert_eq!(next_phase, phase);
                assert_eq!(action, Action::Nothing);
            }
        }
    }
}

#[test]
fn failure_message_keeps_the_diagnostic_unchanged() {
    assert_eq!(
        BINARY_NOT_FOUND_LEAD,
        "Backend binary not found. Run from the folder that contains eve-flipper-backend.exe.\n\n"
    );
    assert_eq!(SPAWN_FAILED_LEAD, "Failed to start backend server.\n\n");
    assert_eq!(
        failure_message(Failure::BinaryNotFound, "Io(Os { code: 2 })"),
        format!("{}{}", BINARY_NOT_FOUND_LEAD, "Io(Os { code: 2 })")
    );
    assert_eq!(
        failure_message(Failure::SpawnFailed, "d\u{e9}nied \u{1F600}"),
        "Failed to start backend server.\n\nd\u{e9}nied \u{1F600}"
    );
    assert_eq!(failure_message(Failure::SpawnFailed, ""), "Failed to start backend server.\n\n");
}

#[test]
fn clean_start_reaches_running_without_report() {
    let mut host = RecordingHost::new(true, true);
    let phase = host.run();
    assert_eq!(phase, Phase::Running);
    assert!(host.retained);
    assert!(host.reports.is_empty());
    assert!(host.exit_codes.is_empty());
    assert_eq!(host.resolved_names, vec!["eve-flipper-backend".to_string()]);
}

#[test]
fn missing_binary_reports_once_and_exits_one() {
    let mut host = RecordingHost::new(false, true);
    let phase = host.run();
    assert_eq!(phase, Phase::Terminal);
    assert_eq!(
        host.reports,
        vec![format!("{}NotFound", BINARY_NOT_FOUND_LEAD)]
    );
    assert_eq!(host.exit_codes, vec![1]);
    assert!(host.spawn_args.is_empty());
    assert!(!host.retained);
}

#[test]
fn unexecutable_binary_reports_once_and_exits_one() {
    let mut host = RecordingHost::new(true, false);
    let phase = host.run();
    assert_eq!(phase, Phase::Terminal);
    assert_eq!(
        host.reports,
        vec!["Failed to start backend server.\n\nPermissionDenied".to_string()]
    );
    assert_eq!(host.exit_codes, vec![1]);
    assert_eq!(host.spawn_args, vec![fixed_args()]);
    assert!(!host.retained);
}

#[test]
fn child_receives_exactly_the_two_arguments() {
    let mut host = RecordingHost::new(true, true);
    host.run();
    assert_eq!(host.spawn_args.len(), 1);
    assert_eq!(host.spawn_args[0], vec!["--port".to_string(), "13370".to_string()]);
}

#[test]
fn replay_of_nothing_is_the_first_action() {
    let (phase, actions) = replay(&Vec::new());
    assert_eq!(phase, Phase::Init);
    assert_eq!(actions, vec![Action::ResolveBinary { name: "eve-flipper-backend".to_string() }]);
}

#[test]
fn replay_of_a_clean_run() {
    let (phase, actions) = replay(&vec![Event::BinaryResolved, Event::Spawned, Event::AppExited]);
    assert_eq!(phase, Phase::Terminal);
    assert_eq!(
        actions,
        vec![
            Action::ResolveBinary { name: "eve-flipper-backend".to_string() },
            Action::Spawn { args: fixed_args() },
            Action::Retain,
            Action::Release,
        ]
    );
}

#[test]
fn replay_of_a_missing_binary() {
    let (phase, actions) = replay(&vec![not_found("nope"), Event::ErrorReported]);
    assert_eq!(phase, Phase::Terminal);
    assert_eq!(
        actions,
        vec![
            Action::ResolveBinary { name: "eve-flipper-backend".to_string() },
            Action::ReportFatal {
                failure: Failure::BinaryNotFound,
                message: format!("{}nope", BINARY_NOT_FOUND_LEAD),
            },
            Action::Exit { code: 1 },
        ]
    );
}

#[test]
fn replay_of_a_failed_spawn() {
    let (phase, actions) =
        replay(&vec![Event::BinaryResolved, spawn_failed("denied"), Event::ErrorReported]);
    assert_eq!(phase, Phase::Terminal);
    assert_eq!(
        actions,
        vec![
            Action::ResolveBinary { name: "eve-flipper-backend".to_string() },
            Action::Spawn { args: fixed_args() },
            Action::ReportFatal {
                failure: Failure::SpawnFailed,
                message: "Failed to start backend server.\n\ndenied".to_string(),
            },
            Action::Exit { code: 1 },
        ]
    );
}

#[test]
fn no_run_reports_twice() {
    let storm = vec![
        not_found("first"),
        not_found("second"),
        spawn_failed("third"),
        Event::BinaryResolved,
        spawn_failed("fourth"),
        Event::ErrorReported,
        not_found("fifth"),
        Event::ErrorReported,
        Event::AppExited,
    ];
    let (phase, actions) = replay(&storm);
    assert_eq!(phase, Phase::Terminal);
    assert_eq!(actions.len(), storm.len() + 1);
    let reports: Vec<&Action> =
        actions.iter().filter(|a| matches!(a, Action::ReportFatal { .. })).collect();
    assert_eq!(
        reports,
        vec![&Action::ReportFatal {
            failure: Failure::BinaryNotFound,
            message: format!("{}first", BINARY_NOT_FOUND_LEAD),
        }]
    );
    let exits = actions.iter().filter(|a| matches!(a, Action::Exit { .. })).count();
    assert_eq!(exits, 1);
    let spawns = actions.iter().filter(|a| matches!(a, Action::Spawn { .. })).count();
    assert_eq!(spawns, 0);
}

#[test]
fn failure_after_spawn_is_not_reported() {
    let events = vec![
        Event::BinaryResolved,
        Event::Spawned,
        spawn_failed("late"),
        not_found("late"),
        Event::ErrorReported,
    ];
    let (phase, actions) = replay(&events);
    assert_eq!(phase, Phase::Running);
    assert!(actions.iter().all(|a| !matches!(a, Action::ReportFatal { .. })));
    assert!(actions.iter().all(|a| !matches!(a, Action::Exit { .. })));
    assert_eq!(actions[3], Action::Nothing);
}

#[test]
fn every_spawn_carries_the_fixed_args() {
    let runs = vec![
        vec![Event::BinaryResolved],
        vec![Event::Spawned, Event::BinaryResolved, Event::BinaryResolved, Event::Spawned],
        vec![Event::BinaryResolved, spawn_failed("x"), Event::BinaryResolved],
    ];
    for events in runs {
        let (_, actions) = replay(&events);
        let mut spawns = 0;
        for action in actions {
            if let Action::Spawn { args } = action {
                assert_eq!(args, fixed_args());
                spawns += 1;
            }
        }
        assert_eq!(spawns, 1);
    }
}
