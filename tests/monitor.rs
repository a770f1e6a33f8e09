use project_monitor::monitor::{
    log_line, pump_step, shell_command, MonitorError, MonitorState, ProjectStatus, PumpAction,
    ReadEvent, StopAction, GRACE_PERIOD_MILLIS,
};

fn steps_of<H>(st: &MonitorState<H>, name: &str) -> Vec<StopAction> {
    let mut shutdown = st.begin_stop(name).unwrap();
    let mut steps = Vec::new();
    while let Some(step) = shutdown.next_step() {
        steps.push(step);
    }
    assert!(shutdown.is_complete());
    steps
}

fn stop<H>(st: &mut MonitorState<H>, name: &str, still_alive: bool) -> Result<ProjectStatus, MonitorError> {
    let mut shutdown = st.begin_stop(name)?;
    while shutdown.next_step().is_some() {}
    assert_eq!(shutdown.project_name(), name);
    st.stop_project(shutdown, still_alive)
}

fn started(name: &str, pid: u32) -> MonitorState<&'static str> {
    let mut st: MonitorState<&'static str> = MonitorState::new();
    let r = st.start_project(name.to_string(), Ok((pid, "child")));
    assert_eq!(r.unwrap(), ProjectStatus { running: true, pid: Some(pid) });
    st
}

#[test]
fn second_start_is_refused() {
    let mut st = started("web", 41);
    assert!(matches!(st.plan_start("web", "/srv", "dev", false), Err(MonitorError::AlreadyRunning)));
    let r = st.start_project("web".to_string(), Ok((42, "other")));
    assert!(matches!(r, Err(MonitorError::AlreadyRunning)));
    assert_eq!(st.get_project_status("web").unwrap(), ProjectStatus { running: true, pid: Some(41) });
    assert_eq!(st.handle("web"), Some(&"child"));
}

#[test]
fn stop_without_record_is_refused() {
    let mut st = started("web", 7);
    assert!(matches!(stop(&mut st, "api", false), Err(MonitorError::NotRunning)));
    assert!(matches!(st.begin_stop("api"), Err(MonitorError::NotRunning)));
    assert!(matches!(st.get_project_status("api"), Err(MonitorError::NotFound)));
    assert_eq!(st.get_project_status("web").unwrap(), ProjectStatus { running: true, pid: Some(7) });
}

#[test]
fn start_stop_then_status_is_stopped() {
    let mut st = started("web", 100);
    let plan = steps_of(&st, "web");
    assert_eq!(plan.len(), 5);
    let r = stop(&mut st, "web", false);
    assert_eq!(r.unwrap(), ProjectStatus { running: false, pid: None });
    assert_eq!(st.get_project_status("web").unwrap(), ProjectStatus { running: false, pid: None });
    assert_eq!(st.handle("web"), None);
    assert!(st.plan_start("web", "/srv", "dev", false).is_ok());
}

#[test]
fn never_started_is_not_found() {
    let st: MonitorState<()> = MonitorState::new();
    assert!(matches!(st.get_project_status("web"), Err(MonitorError::NotFound)));
    assert!(st.plan_start("web", "/srv", "dev", false).is_ok());
}

#[test]
fn forced_signal_follows_grace_period() {
    let mut st = started("web", 300);
    let plan = steps_of(&st, "web");
    assert_eq!(
        plan,
        vec![
            StopAction::Terminate { pid: 300, force: false },
            StopAction::Pause { millis: 500 },
            StopAction::Terminate { pid: 300, force: true },
            StopAction::Reap,
            StopAction::CheckAlive { pid: 300 },
        ]
    );
    assert_eq!(GRACE_PERIOD_MILLIS, 500);
    assert_eq!(stop(&mut st, "web", false).unwrap(), ProjectStatus { running: false, pid: None });
}

#[test]
fn survivor_keeps_running_status() {
    let mut st = started("web", 55);
    let r = stop(&mut st, "web", true);
    assert!(matches!(r, Err(MonitorError::StillRunning(55))));
    assert_eq!(st.get_project_status("web").unwrap(), ProjectStatus { running: true, pid: Some(55) });
    assert_eq!(st.handle("web"), Some(&"child"));
    assert!(matches!(st.plan_start("web", "/srv", "dev", false), Err(MonitorError::AlreadyRunning)));
    assert_eq!(stop(&mut st, "web", false).unwrap(), ProjectStatus { running: false, pid: None });
}

#[test]
fn distinct_starts_are_independent() {
    let mut st: MonitorState<u8> = MonitorState::new();
    assert_eq!(st.start_project("a".to_string(), Ok((1, 10))).unwrap(), ProjectStatus { running: true, pid: Some(1) });
    assert_eq!(st.start_project("b".to_string(), Ok((2, 20))).unwrap(), ProjectStatus { running: true, pid: Some(2) });
    assert_eq!(st.get_project_status("a").unwrap().pid, Some(1));
    assert_eq!(st.get_project_status("b").unwrap().pid, Some(2));
    assert_eq!(st.handle("a"), Some(&10));
    assert_eq!(st.handle("b"), Some(&20));
    assert_eq!(stop(&mut st, "a", false).unwrap(), ProjectStatus { running: false, pid: None });
    assert_eq!(st.get_project_status("b").unwrap(), ProjectStatus { running: true, pid: Some(2) });
}

#[test]
fn failed_spawn_leaves_no_record() {
    let mut st: MonitorState<()> = MonitorState::new();
    let r = st.start_project("web".to_string(), Err("no such directory".to_string()));
    match r {
        Err(MonitorError::SpawnFailed(cause)) => assert_eq!(cause, "no such directory"),
        _ => panic!("expected a spawn failure"),
    }
    assert!(matches!(st.get_project_status("web"), Err(MonitorError::NotFound)));
    assert!(matches!(stop(&mut st, "web", false), Err(MonitorError::NotRunning)));
    assert!(st.start_project("web".to_string(), Ok((9, ()))).is_ok());
}

#[test]
fn default_status_is_stopped() {
    assert_eq!(ProjectStatus::default(), ProjectStatus { running: false, pid: None });
}

#[test]
fn shell_command_per_platform() {
    let posix = shell_command("dev", "/srv/web", false);
    assert_eq!(posix.dir, "/srv/web");
    assert_eq!(posix.program, "sh");
    assert_eq!(posix.flag, "-c");
    assert_eq!(posix.line, "npm run dev");
    let windows = shell_command("build:prod", "C:\\web", true);
    assert_eq!(windows.dir, "C:\\web");
    assert_eq!(windows.program, "cmd");
    assert_eq!(windows.flag, "/C");
    assert_eq!(windows.line, "npm run build:prod");
}

#[test]
fn log_lines_are_tagged_with_the_name() {
    assert_eq!(log_line("web", "listening on 3000"), "web: listening on 3000");
    assert_eq!(log_line("api", ""), "api: ");
}

fn pump(name: &str, events: Vec<ReadEvent>) -> Vec<String> {
    let mut out = Vec::new();
    for ev in events {
        match pump_step(name, ev) {
            PumpAction::Emit(s) => out.push(s),
            PumpAction::Finish => break,
        }
    }
    out
}

#[test]
fn every_line_is_published_once_in_order() {
    let events = vec![
        ReadEvent::Line("one".to_string()),
        ReadEvent::Line("two".to_string()),
        ReadEvent::Line("one".to_string()),
        ReadEvent::End,
        ReadEvent::Line("late".to_string()),
    ];
    assert_eq!(pump("web", events), vec!["web: one", "web: two", "web: one"]);
}

#[test]
fn failed_read_ends_the_stream() {
    let events = vec![
        ReadEvent::Line("a".to_string()),
        ReadEvent::Failed,
        ReadEvent::Line("b".to_string()),
    ];
    assert_eq!(pump("api", events), vec!["api: a"]);
}

#[test]
fn plan_start_gives_the_command() {
    let st: MonitorState<()> = MonitorState::new();
    let c = st.plan_start("web", "/srv/web", "serve", false).unwrap();
    assert_eq!(c.program, "sh");
    assert_eq!(c.flag, "-c");
    assert_eq!(c.line, "npm run serve");
    assert_eq!(c.dir, "/srv/web");
}

#[test]
fn shutdown_steps_run_out() {
    let st = started("web", 8);
    let mut shutdown = st.begin_stop("web").unwrap();
    assert!(!shutdown.is_complete());
    for _ in 0..5 {
        assert!(shutdown.next_step().is_some());
    }
    assert!(shutdown.is_complete());
    assert_eq!(shutdown.next_step(), None);
    assert!(shutdown.is_complete());
}
