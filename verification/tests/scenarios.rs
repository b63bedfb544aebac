use sidecar_supervisor::{
    graceful_restart, run, Action, ExitStatus, Hook, HostEvent, LogRecord, Phase, SidecarEvent,
    SidecarPayload, Supervisor,
};

fn stdout(line: &str) -> HostEvent {
    HostEvent::Worker(SidecarEvent::StandardOutputLine(line.as_bytes().to_vec()))
}

fn logged_stdout(line: &str) -> Action<u32> {
    Action::Log(LogRecord::WorkerOutput(line.as_bytes().to_vec()))
}

#[test]
fn close_request_after_three_lines_terminates_worker_and_exits_with_zero() {
    let events = vec![
        stdout("one"),
        stdout("two"),
        stdout("three"),
        HostEvent::Hook(Hook::CloseRequested),
        stdout("late"),
        HostEvent::Worker(SidecarEvent::Terminated(ExitStatus { code: Some(0), signal: None })),
        HostEvent::StreamClosed,
    ];
    let actions = run(Ok(41u32), events);
    assert_eq!(
        actions,
        vec![
            Action::StartRelay,
            logged_stdout("one"),
            logged_stdout("two"),
            logged_stdout("three"),
            Action::Terminate(41),
            Action::Log(LogRecord::Killed),
            Action::PreventClose,
            Action::Exit(0),
        ]
    );
}

#[test]
fn close_request_step_by_step() {
    let mut supervisor: Supervisor<u32> = Supervisor::new();
    assert_eq!(supervisor.phase(), Phase::NotStarted);
    assert_eq!(supervisor.launch(Ok(41)), vec![Action::StartRelay]);
    assert_eq!(supervisor.phase(), Phase::Running);
    assert!(supervisor.is_running());
    for line in ["one", "two", "three"] {
        let actions = supervisor.relay(SidecarEvent::StandardOutputLine(line.as_bytes().to_vec()));
        assert_eq!(actions, vec![logged_stdout(line)]);
        assert_eq!(supervisor.phase(), Phase::Running);
    }
    let actions = supervisor.hook(Hook::CloseRequested);
    assert_eq!(
        actions,
        vec![
            Action::Terminate(41),
            Action::Log(LogRecord::Killed),
            Action::PreventClose,
            Action::Exit(0),
        ]
    );
    assert_eq!(supervisor.phase(), Phase::ShuttingDown);
    assert!(!supervisor.is_running());
    let late = supervisor.relay(SidecarEvent::StandardOutputLine(b"late".to_vec()));
    assert_eq!(late, Vec::<Action<u32>>::new());
    assert_eq!(supervisor.stream_closed(), Vec::<Action<u32>>::new());
}

#[test]
fn failed_spawn_exits_with_nonzero_status_at_once() {
    let actions: Vec<Action<u32>> = run(Err(String::from("No such file or directory")), vec![]);
    assert_eq!(
        actions,
        vec![
            Action::Log(LogRecord::SpawnFailed(String::from("No such file or directory"))),
            Action::Exit(1),
        ]
    );
}

#[test]
fn failed_spawn_leaves_nothing_to_relay_or_clean_up() {
    let mut supervisor: Supervisor<u32> = Supervisor::new();
    let actions = supervisor.launch(Err(String::from("binary absent")));
    assert_eq!(actions[actions.len() - 1], Action::Exit(1));
    assert!(!actions.contains(&Action::StartRelay));
    assert_eq!(supervisor.phase(), Phase::ShuttingDown);
    assert!(!supervisor.is_running());
    assert_eq!(
        supervisor.relay(SidecarEvent::StandardOutputLine(b"ghost".to_vec())),
        Vec::<Action<u32>>::new()
    );
    assert_eq!(
        supervisor.relay(SidecarEvent::LaunchError(String::from("late"))),
        Vec::<Action<u32>>::new()
    );
    assert_eq!(supervisor.stream_closed(), Vec::<Action<u32>>::new());
    assert_eq!(supervisor.hook(Hook::ExitRequested), vec![Action::Log(LogRecord::ExitRequested)]);
    assert_eq!(supervisor.phase(), Phase::ShuttingDown);
}

#[test]
fn launch_error_notifies_ui_then_exits_with_nonzero_status() {
    let events = vec![
        stdout("working"),
        HostEvent::Worker(SidecarEvent::LaunchError(String::from("disk full"))),
        stdout("never seen"),
    ];
    let actions = run(Ok(7u32), events);
    assert_eq!(
        actions,
        vec![
            Action::StartRelay,
            logged_stdout("working"),
            Action::Log(LogRecord::WorkerFailed(String::from("disk full"))),
            Action::Notify(SidecarPayload { message: String::from("[Sidecar error] disk full") }),
            Action::Terminate(7),
            Action::Exit(1),
        ]
    );
    let notified = actions.iter().position(|a| matches!(a, Action::Notify(_))).unwrap();
    let exited = actions.iter().position(|a| matches!(a, Action::Exit(_))).unwrap();
    assert!(notified < exited);
    match &actions[notified] {
        Action::Notify(payload) => assert!(payload.message.ends_with("disk full")),
        _ => unreachable!(),
    }
}

#[test]
fn restart_command_terminates_worker_then_restarts() {
    let mut supervisor: Supervisor<u32> = Supervisor::new();
    supervisor.launch(Ok(99));
    let actions = graceful_restart(&mut supervisor);
    assert_eq!(
        actions,
        vec![
            Action::Log(LogRecord::RestartRequested),
            Action::Terminate(99),
            Action::Log(LogRecord::KilledOnRestart),
            Action::Restart,
        ]
    );
    assert_eq!(supervisor.phase(), Phase::ShuttingDown);
}

#[test]
fn restart_begins_a_fresh_cycle() {
    let first = run(Ok(99u32), vec![HostEvent::Hook(Hook::Restart)]);
    assert_eq!(first[first.len() - 1], Action::Restart);
    let mut fresh: Supervisor<u32> = Supervisor::new();
    assert_eq!(fresh.phase(), Phase::NotStarted);
    assert!(!fresh.is_running());
    assert_eq!(fresh.launch(Ok(100)), vec![Action::StartRelay]);
    assert_eq!(fresh.phase(), Phase::Running);
    let second = fresh.hook(Hook::Destroyed);
    assert_eq!(
        second,
        vec![Action::Terminate(100), Action::Log(LogRecord::Killed), Action::Exit(0)]
    );
}

#[test]
fn restart_command_with_nothing_running_only_restarts() {
    let mut supervisor: Supervisor<u32> = Supervisor::new();
    supervisor.launch(Err(String::from("gone")));
    assert_eq!(
        graceful_restart(&mut supervisor),
        vec![Action::Log(LogRecord::RestartRequested), Action::Restart]
    );
}
