use llm_daemon::supervisor::{
    keep_reading, llama_server_profile, llamafile_profile, mlc_profile, reports_start_error,
    HeartbeatRead, IdlePolicy, LogMode, ShutdownReason, Supervisor, SupervisorAction, SupervisorEvent,
    SupervisorState,
};

use SupervisorEvent::{Heartbeat, IdleTick, ServerExited, Terminate};

fn run(policy: IdlePolicy, events: &[SupervisorEvent]) -> Vec<SupervisorAction> {
    let mut s = Supervisor::new(policy);
    events.iter().map(|e| s.step(*e)).collect()
}

#[test]
fn closes_after_thirty_quiet_seconds() {
    let p = llama_server_profile().idle;
    let actions = run(p, &[IdleTick, IdleTick, IdleTick]);
    assert_eq!(
        actions,
        vec![
            SupervisorAction::KeepRunning,
            SupervisorAction::KeepRunning,
            SupervisorAction::Shutdown(ShutdownReason::Idle)
        ]
    );
}

#[test]
fn heartbeat_restarts_quiet_time() {
    let p = llama_server_profile().idle;
    let mut s = Supervisor::new(p);
    assert_eq!(s.step(IdleTick), SupervisorAction::KeepRunning);
    assert_eq!(s.step(IdleTick), SupervisorAction::KeepRunning);
    assert_eq!(s.current(), SupervisorState::Running { idle_secs: 20 });
    assert_eq!(s.step(Heartbeat), SupervisorAction::KeepRunning);
    assert_eq!(s.current(), SupervisorState::Running { idle_secs: 0 });
    assert_eq!(s.step(IdleTick), SupervisorAction::KeepRunning);
    assert_eq!(s.step(IdleTick), SupervisorAction::KeepRunning);
    assert_eq!(s.step(IdleTick), SupervisorAction::Shutdown(ShutdownReason::Idle));
}

#[test]
fn busy_daemon_stays_up() {
    let p = llama_server_profile().idle;
    let mut events = Vec::new();
    for _ in 0..100 {
        events.push(IdleTick);
        events.push(IdleTick);
        events.push(Heartbeat);
    }
    assert!(run(p, &events).iter().all(|a| *a == SupervisorAction::KeepRunning));
}

#[test]
fn signal_and_exit_stop_at_once() {
    let p = llama_server_profile().idle;
    assert_eq!(run(p, &[Terminate]), vec![SupervisorAction::Shutdown(ShutdownReason::Terminated)]);
    assert_eq!(
        run(p, &[Heartbeat, ServerExited]),
        vec![SupervisorAction::KeepRunning, SupervisorAction::Shutdown(ShutdownReason::ServerExited)]
    );
}

#[test]
fn stopped_stays_stopped() {
    let p = llama_server_profile().idle;
    let actions = run(p, &[Terminate, Heartbeat, IdleTick]);
    assert!(actions.iter().all(|a| *a == SupervisorAction::Shutdown(ShutdownReason::Terminated)));
}

#[test]
fn llamafile_and_mlc_close_on_first_quiet_tick() {
    for p in [llamafile_profile().idle, mlc_profile().idle] {
        assert_eq!(run(p, &[IdleTick]), vec![SupervisorAction::Shutdown(ShutdownReason::Idle)]);
        assert_eq!(
            run(p, &[Heartbeat, Heartbeat, IdleTick]),
            vec![
                SupervisorAction::KeepRunning,
                SupervisorAction::KeepRunning,
                SupervisorAction::Shutdown(ShutdownReason::Idle)
            ]
        );
    }
}

#[test]
fn uneven_ticks_round_up() {
    let p = IdlePolicy { tick_secs: 7, close_after_secs: 15 };
    assert_eq!(
        run(p, &[IdleTick, IdleTick, IdleTick]),
        vec![
            SupervisorAction::KeepRunning,
            SupervisorAction::KeepRunning,
            SupervisorAction::Shutdown(ShutdownReason::Idle)
        ]
    );
}

#[test]
fn heartbeat_reads() {
    assert!(keep_reading(true, HeartbeatRead::Bytes(1)));
    assert!(!keep_reading(true, HeartbeatRead::Bytes(0)));
    assert!(keep_reading(false, HeartbeatRead::Bytes(0)));
    assert!(!keep_reading(false, HeartbeatRead::Failed));
    assert!(!keep_reading(true, HeartbeatRead::Failed));
}

#[test]
fn start_errors() {
    let llama = llama_server_profile();
    assert!(!reports_start_error(&llama, "unable to lock pid file, errno 11"));
    assert!(reports_start_error(&llama, "unable to fork, errno 12"));
    assert!(reports_start_error(&llama, "unable to lock"));
    assert!(reports_start_error(&llamafile_profile(), "unable to lock pid file, errno 11"));
    assert!(reports_start_error(&mlc_profile(), "unable to lock pid file, errno 11"));
}

#[test]
fn profiles() {
    let l = llama_server_profile();
    assert_eq!((l.idle.tick_secs, l.idle.close_after_secs, l.heartbeat_secs), (10, 30, 5));
    assert!(l.remove_pid_file && l.log_mode == LogMode::Append && l.log_open_failure_fatal && l.heartbeat_failure_fatal);
    assert_eq!(llamafile_profile().log_mode, LogMode::Truncate);
    let f = llamafile_profile();
    assert_eq!((f.idle.tick_secs, f.idle.close_after_secs, f.heartbeat_secs), (10, 10, 1));
    let m = mlc_profile();
    assert_eq!((m.idle.tick_secs, m.idle.close_after_secs, m.heartbeat_secs), (10, 10, 5));
    assert!(!m.stop_reading_at_end && !m.heartbeat_failure_fatal);
    assert!(m.log_mode == LogMode::Truncate && !m.log_open_failure_fatal);
}
