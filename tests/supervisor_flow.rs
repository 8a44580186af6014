use backend_supervisor::error::SupervisorError;
use backend_supervisor::launch::{
    decimal_text, detect_mode, exec_permission_fix, plan_launch, port, prepare_launch,
    resolve_workspace, status_path, LaunchMode, DEV_PORT, PROD_PORT,
};
use backend_supervisor::shutdown::HostEvent;
use backend_supervisor::supervisor::{
    already_running_status, reap_after_kill, stop_status, ChildId, HandleKind, Liveness,
    StartDecision, Supervisor, Termination,
};

fn strings(v: &[String]) -> Vec<&str> {
    v.iter().map(|s| s.as_str()).collect()
}

/// Runs a start request the way the host does, with `probe` as the liveness of
/// whatever is tracked and `spawn` standing for the process spawn.
fn start(
    sup: &mut Supervisor<u32>,
    packaged: bool,
    probe: Liveness,
    spawn: Result<u32, String>,
    spawned: &mut u32,
) -> Result<String, SupervisorError> {
    let prior = sup.take();
    if let StartDecision::AlreadyRunning { .. } = sup.keep_if_alive(prior, probe) {
        return Ok(already_running_status());
    }
    let plan = prepare_launch(packaged, "/ws", Ok("/data".to_string()), false)?;
    *spawned += 1;
    sup.record_spawn(&plan, spawn.map(|pid| (pid, pid)))
}

#[test]
fn development_start_spawns_runner_in_workspace() {
    let plan = prepare_launch(false, "/ws", Err("unused".to_string()), false).unwrap();
    assert_eq!(plan.mode, LaunchMode::Development);
    assert_eq!(plan.program, "uv");
    assert_eq!(strings(&plan.args), vec!["run", "sts-gui-server", "--port", "8000"]);
    assert_eq!(plan.cwd.as_deref(), Some("/ws"));
    assert!(plan.stdin_piped);
    assert!(!plan.capture_output);

    let mut sup: Supervisor<u32> = Supervisor::new();
    let r = sup.record_spawn(&plan, Ok((4321, 4321)));
    assert_eq!(r.unwrap(), "Backend started successfully (development)");
    assert_eq!(sup.current(), Some(ChildId { kind: HandleKind::Direct, pid: 4321 }));
}

#[test]
fn production_start_spawns_packaged_executable() {
    let plan = prepare_launch(true, "/ws", Ok("/home/u/.local/share/app".to_string()), true).unwrap();
    assert_eq!(plan.mode, LaunchMode::Production);
    assert_eq!(plan.program, "sts-gui-backend");
    assert_eq!(strings(&plan.args), vec!["--production", "--port", "58735"]);
    assert_eq!(plan.cwd, None);
    assert!(plan.capture_output);

    let mut sup: Supervisor<u32> = Supervisor::new();
    let r = sup.record_spawn(&plan, Ok((99, 99)));
    assert_eq!(r.unwrap(), "Backend started successfully (production)");
    assert_eq!(sup.current(), Some(ChildId { kind: HandleKind::Managed, pid: 99 }));
}

#[test]
fn second_start_reports_already_running() {
    let mut sup: Supervisor<u32> = Supervisor::new();
    let mut spawned = 0u32;
    let first = start(&mut sup, false, Liveness::Running, Ok(10), &mut spawned);
    assert_eq!(first.unwrap(), "Backend started successfully (development)");
    let second = start(&mut sup, false, Liveness::Running, Ok(11), &mut spawned);
    assert_eq!(second.unwrap(), "Backend already running");
    assert_eq!(spawned, 1);
    assert_eq!(sup.current().map(|c| c.pid), Some(10));
}

#[test]
fn managed_child_counts_as_alive() {
    let mut sup: Supervisor<u32> = Supervisor::new();
    let mut spawned = 0u32;
    start(&mut sup, true, Liveness::Unknown, Ok(20), &mut spawned).unwrap();
    let again = start(&mut sup, true, Liveness::Unknown, Ok(21), &mut spawned);
    assert_eq!(again.unwrap(), "Backend already running");
    assert_eq!(spawned, 1);
}

#[test]
fn exited_child_is_replaced() {
    let mut sup: Supervisor<u32> = Supervisor::new();
    let mut spawned = 0u32;
    start(&mut sup, false, Liveness::Running, Ok(30), &mut spawned).unwrap();
    let r = start(&mut sup, false, Liveness::Exited, Ok(31), &mut spawned);
    assert_eq!(r.unwrap(), "Backend started successfully (development)");
    assert_eq!(spawned, 2);
    assert_eq!(sup.current().map(|c| c.pid), Some(31));
}

#[test]
fn failed_probe_counts_as_exited() {
    let mut sup: Supervisor<u32> = Supervisor::new();
    let mut spawned = 0u32;
    start(&mut sup, false, Liveness::Running, Ok(40), &mut spawned).unwrap();
    start(&mut sup, false, Liveness::ProbeFailed, Ok(41), &mut spawned).unwrap();
    assert_eq!(spawned, 2);
    assert_eq!(sup.current().map(|c| c.pid), Some(41));
}

#[test]
fn failed_spawn_tracks_nothing() {
    let mut sup: Supervisor<u32> = Supervisor::new();
    let mut spawned = 0u32;
    let r = start(&mut sup, false, Liveness::Running, Err("No such file or directory".to_string()), &mut spawned);
    let e = r.unwrap_err();
    assert_eq!(e.message(), "Failed to start backend (uv): No such file or directory");
    assert_eq!(sup.current(), None);
}

#[test]
fn stop_without_child_is_not_an_error() {
    let mut sup: Supervisor<u32> = Supervisor::new();
    let taken = sup.take();
    assert!(taken.is_none());
    assert_eq!(stop_status(None).unwrap(), "Backend was not running");
}

#[test]
fn stop_takes_recorded_child() {
    let mut sup: Supervisor<u32> = Supervisor::new();
    let plan = plan_launch(LaunchMode::Development, "/ws", false);
    sup.record_spawn(&plan, Ok((555, 7))).unwrap();
    let taken = sup.take().unwrap();
    assert_eq!(taken.id.pid, 555);
    assert_eq!(taken.handle, 7);
    assert_eq!(sup.current(), None);
    let r = stop_status(Some((taken.id.pid, Termination::Terminated)));
    assert_eq!(r.unwrap(), "Backend stopped successfully");
}

#[test]
fn stop_reports_kill_failure() {
    let r = stop_status(Some((12, Termination::KillFailed { os_error: "denied".to_string() })));
    let e = r.unwrap_err();
    assert!(matches!(e, SupervisorError::Kill { pid: 12, .. }));
    assert_eq!(e.message(), "Failed to kill backend process (PID: 12): denied");
}

#[test]
fn stop_reports_wait_failure() {
    let r = stop_status(Some((4000000000, Termination::WaitFailed { os_error: "interrupted".to_string() })));
    assert_eq!(
        r.unwrap_err().message(),
        "Failed to wait for backend process (PID: 4000000000): interrupted"
    );
}

#[test]
fn exit_notification_takes_child_once() {
    let mut sup: Supervisor<u32> = Supervisor::new();
    let plan = plan_launch(LaunchMode::Production, "/ws", false);
    sup.record_spawn(&plan, Ok((77, 77))).unwrap();
    assert!(sup.on_host_event(HostEvent::Other).is_none());
    assert_eq!(sup.current().map(|c| c.pid), Some(77));
    let taken = sup.on_host_event(HostEvent::LastWindowDestroyed).unwrap();
    assert_eq!(taken.id.pid, 77);
    assert_eq!(sup.current(), None);
    assert!(sup.on_host_event(HostEvent::Exiting).is_none());
}

#[test]
fn exiting_notification_stops_child() {
    let mut sup: Supervisor<u32> = Supervisor::new();
    let plan = plan_launch(LaunchMode::Development, "/ws", false);
    sup.record_spawn(&plan, Ok((8, 8))).unwrap();
    assert_eq!(sup.on_host_event(HostEvent::Exiting).map(|c| c.id.pid), Some(8));
    assert_eq!(sup.current(), None);
}

#[test]
fn workspace_by_mode() {
    assert_eq!(resolve_workspace(LaunchMode::Development, "/ws", Err("x".to_string())).unwrap(), "/ws");
    assert_eq!(
        resolve_workspace(LaunchMode::Production, "/ws", Ok("/data".to_string())).unwrap(),
        "/data"
    );
    assert_eq!(status_path(true, "/ws", Ok("/data".to_string())).unwrap(), "/data");
    assert_eq!(status_path(false, "/ws", Ok("/data".to_string())).unwrap(), "/ws");
}

#[test]
fn workspace_resolution_failure() {
    let e = status_path(true, "/ws", Err("no home directory".to_string())).unwrap_err();
    assert_eq!(e.message(), "Failed to resolve workspace: no home directory");
    let e = prepare_launch(true, "/ws", Err("no home directory".to_string()), false).unwrap_err();
    assert!(matches!(e, SupervisorError::Resolution { .. }));
}

#[test]
fn mode_and_ports() {
    assert_eq!(detect_mode(true), LaunchMode::Production);
    assert_eq!(detect_mode(false), LaunchMode::Development);
    assert_eq!(port(LaunchMode::Development), 8000);
    assert_eq!(port(LaunchMode::Production), 58735);
    assert_eq!(DEV_PORT, 8000);
    assert_eq!(PROD_PORT, 58735);
}

#[test]
fn decimal_rendering() {
    assert_eq!(decimal_text(0), "0");
    assert_eq!(decimal_text(7), "7");
    assert_eq!(decimal_text(10), "10");
    assert_eq!(decimal_text(58735), "58735");
    assert_eq!(decimal_text(u32::MAX), "4294967295");
}

#[test]
fn exec_bit_fix() {
    assert_eq!(exec_permission_fix(0o644), Some(0o755));
    assert_eq!(exec_permission_fix(0o600), Some(0o755));
    assert_eq!(exec_permission_fix(0o755), None);
    assert_eq!(exec_permission_fix(0o100), None);
}

#[test]
fn permission_error_message() {
    let e = SupervisorError::Permission { path: "/opt/app/sts-gui-backend".to_string(), os_error: "read-only".to_string() };
    assert_eq!(e.message(), "Failed to make /opt/app/sts-gui-backend executable: read-only");
}

#[test]
fn only_direct_children_are_reaped() {
    assert!(reap_after_kill(HandleKind::Direct));
    assert!(!reap_after_kill(HandleKind::Managed));
}
