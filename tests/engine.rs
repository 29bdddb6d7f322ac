use pachyterm::{IoOutcome, PtyConfig, TerminalMode, TtyEngine, TtyError};

fn config() -> PtyConfig {
    PtyConfig::from_environment(None, vec![])
}

fn engine_with(n: usize) -> (TtyEngine, Vec<u64>) {
    let mut e = TtyEngine::new();
    let mut ids = Vec::new();
    for k in 0..n {
        ids.push(e.create_pty(&config(), 10 + k as i32, 1000 + k as i32, 0));
    }
    (e, ids)
}

#[test]
fn create_then_destroy_unregisters() {
    let mut e = TtyEngine::new();
    let id1 = e.create_pty(&config(), 7, 4242, 0);
    assert!(id1 >= 1);
    assert!(e.list_sessions().contains(&id1));
    let gone = e.destroy_pty(id1).unwrap();
    assert_eq!(gone.id, id1);
    assert_eq!(gone.child_pid, 4242);
    assert_eq!(gone.master_fd, 7);
    assert!(!gone.is_alive);
    assert!(!e.list_sessions().contains(&id1));
    assert_eq!(e.get_pty_stats(id1, 0), Err(TtyError::PtyNotFound { id: id1 }));
}

#[test]
fn write_then_read_echo() {
    let (mut e, ids) = engine_with(1);
    let id = ids[0];
    let target = e.io_target(id).unwrap();
    assert_eq!(target.master_fd, 10);
    let data = b"echo hello\n";
    assert_eq!(e.record_write(id, IoOutcome::Completed(data.len())), Ok(11));
    let echoed = b"echo hello\r\nhello\r\n$ ".to_vec();
    let mut buffer = [0u8; 1024];
    let n = e.record_read(id, IoOutcome::Completed(echoed.len()), &echoed, &mut buffer).unwrap();
    assert!(n > 0);
    let text = String::from_utf8(buffer[..n].to_vec()).unwrap();
    assert!(text.contains("hello"));
    assert!(buffer[n..].iter().all(|b| *b == 0));
    let (read, written, _) = e.get_pty_stats(id, 0).unwrap();
    assert_eq!(read, echoed.len() as u64);
    assert_eq!(written, 11);
    let stats = e.get_stats();
    assert_eq!(stats.total_bytes_written, 11);
    assert_eq!(stats.total_bytes_read, echoed.len() as u64);
    assert_eq!(stats.errors, 0);
}

#[test]
fn unknown_id_is_not_found() {
    let (mut e, _) = engine_with(2);
    assert_eq!(e.io_target(999), Err(TtyError::PtyNotFound { id: 999 }));
    assert_eq!(e.resize_pty(999, 24, 80), Err(TtyError::PtyNotFound { id: 999 }));
    assert_eq!(e.set_pty_mode(999, TerminalMode::Raw), Err(TtyError::PtyNotFound { id: 999 }));
    assert_eq!(e.get_pty_stats(0, 0), Err(TtyError::PtyNotFound { id: 0 }));
    assert_eq!(e.get_pty_stats(3, 0), Err(TtyError::PtyNotFound { id: 3 }));
    assert_eq!(e.signal_targets(Some(999)), Err(TtyError::PtyNotFound { id: 999 }));
    assert_eq!(e.destroy_pty(999).unwrap_err(), TtyError::PtyNotFound { id: 999 });
    assert_eq!(e.get_session_count(), 2);
}

#[test]
fn successive_ids_are_consecutive() {
    let mut e = TtyEngine::new();
    let a = e.create_pty(&config(), 3, 30, 0);
    let b = e.create_pty(&config(), 4, 40, 0);
    let c = e.create_pty(&config(), 5, 50, 0);
    assert!(a < b && b < c);
    assert_eq!(b, a + 1);
    assert_eq!(c, b + 1);
    assert_eq!(e.list_sessions(), vec![a, b, c]);
}

#[test]
fn ids_are_not_reused_after_destroy() {
    let (mut e, ids) = engine_with(2);
    e.destroy_pty(ids[1]).unwrap();
    let next = e.create_pty(&config(), 9, 90, 0);
    assert_eq!(next, ids[1] + 1);
}

#[test]
fn resize_twice_keeps_last_size_and_counters() {
    let (mut e, ids) = engine_with(1);
    let id = ids[0];
    e.record_write(id, IoOutcome::Completed(5)).unwrap();
    let before = e.get_pty_stats(id, 0).unwrap();
    let h = e.resize_pty(id, 50, 120).unwrap();
    assert_eq!(h.child_pid, 1000);
    e.resize_pty(id, 24, 80).unwrap();
    let after = e.get_pty_stats(id, 0).unwrap();
    assert_eq!(before, after);
    let s = e.destroy_pty(id).unwrap();
    assert_eq!((s.rows, s.cols), (24, 80));
}

#[test]
fn no_leaks_under_stress() {
    let (mut e, ids) = engine_with(20);
    for id in &ids {
        assert_eq!(e.record_write(*id, IoOutcome::Completed(10)), Ok(10));
    }
    for id in &ids {
        e.destroy_pty(*id).unwrap();
    }
    assert_eq!(e.get_session_count(), 0);
    let stats = e.get_stats();
    assert_eq!(stats.sessions_created, 20);
    assert_eq!(stats.sessions_destroyed, 20);
    assert_eq!(stats.total_bytes_written, 200);
}

#[test]
fn broadcast_signal_counts_once_without_sessions() {
    let mut e = TtyEngine::new();
    assert_eq!(e.signal_targets(None), Ok(vec![]));
    assert_eq!(e.record_signal(None, Ok(())), Ok(()));
    assert_eq!(e.get_stats().signal_count, 1);
    assert_eq!(e.record_signal(None, Err(3)), Ok(()));
    assert_eq!(e.get_stats().signal_count, 2);
}

#[test]
fn broadcast_signal_targets_every_child() {
    let (e, _) = engine_with(3);
    assert_eq!(e.signal_targets(None), Ok(vec![1000, 1001, 1002]));
}

#[test]
fn targeted_signal_failure_is_an_error() {
    let (mut e, ids) = engine_with(1);
    assert_eq!(e.signal_targets(Some(ids[0])), Ok(vec![1000]));
    assert_eq!(e.record_signal(Some(ids[0]), Err(1)), Err(TtyError::Signal { errno: 1 }));
    assert_eq!(e.get_stats().signal_count, 0);
    assert_eq!(e.record_signal(Some(ids[0]), Ok(())), Ok(()));
    assert_eq!(e.get_stats().signal_count, 1);
}

#[test]
fn read_without_data_is_empty_success() {
    let (mut e, ids) = engine_with(1);
    let mut buffer = [7u8; 4];
    assert_eq!(e.record_read(ids[0], IoOutcome::WouldBlock(11), &[], &mut buffer), Ok(0));
    assert_eq!(buffer, [7u8; 4]);
    assert_eq!(e.get_stats().errors, 0);
}

#[test]
fn failed_io_counts_an_error() {
    let (mut e, ids) = engine_with(1);
    let mut buffer = [0u8; 4];
    assert_eq!(e.record_read(ids[0], IoOutcome::Failed(5), &[], &mut buffer), Err(TtyError::Io { errno: 5 }));
    assert_eq!(e.record_write(ids[0], IoOutcome::Failed(32)), Err(TtyError::Io { errno: 32 }));
    assert_eq!(e.record_write(ids[0], IoOutcome::WouldBlock(11)), Err(TtyError::Io { errno: 11 }));
    assert_eq!(e.get_stats().errors, 3);
}

#[test]
fn timed_out_io_reports_the_timeout() {
    let (mut e, ids) = engine_with(1);
    let mut buffer = [0u8; 4];
    assert_eq!(e.record_read(ids[0], IoOutcome::TimedOut, &[], &mut buffer), Err(TtyError::Timeout { timeout_ms: 100 }));
    assert_eq!(e.record_write(ids[0], IoOutcome::TimedOut), Err(TtyError::Timeout { timeout_ms: 100 }));
    assert_eq!(e.get_stats().errors, 0);
}

#[test]
fn oversized_read_is_refused() {
    let (mut e, ids) = engine_with(1);
    let data = [1u8; 8];
    let mut buffer = [0u8; 4];
    assert_eq!(e.record_read(ids[0], IoOutcome::Completed(8), &data, &mut buffer), Err(TtyError::BufferOverflow { size: 8 }));
    assert_eq!(buffer, [0u8; 4]);
    assert_eq!(e.get_pty_stats(ids[0], 0).unwrap().0, 0);
}

#[test]
fn bytes_after_removal_count_for_the_engine_only() {
    let (mut e, ids) = engine_with(1);
    e.destroy_pty(ids[0]).unwrap();
    assert_eq!(e.record_write(ids[0], IoOutcome::Completed(4)), Ok(4));
    assert_eq!(e.get_stats().total_bytes_written, 4);
}

#[test]
fn monitor_removes_exited_child_once() {
    let (mut e, ids) = engine_with(2);
    assert!(e.should_poll(ids[0]));
    assert!(e.observe_child(ids[0], true));
    assert!(!e.observe_child(ids[0], false));
    assert_eq!(e.list_sessions(), vec![ids[1]]);
    assert_eq!(e.get_stats().sessions_destroyed, 1);
    assert!(!e.observe_child(ids[0], false));
    assert_eq!(e.get_stats().sessions_destroyed, 1);
    assert!(!e.should_poll(ids[0]));
    assert_eq!(e.destroy_pty(ids[0]).unwrap_err(), TtyError::PtyNotFound { id: ids[0] });
    assert_eq!(e.get_stats().sessions_destroyed, 1);
}

#[test]
fn shutdown_lists_sessions_and_stops_monitoring() {
    let (mut e, ids) = engine_with(3);
    assert!(!e.is_shutting_down());
    assert_eq!(e.shutdown(), ids);
    assert!(e.is_shutting_down());
    assert!(!e.should_poll(ids[0]));
    assert!(!e.observe_child(ids[0], true));
    assert_eq!(e.get_session_count(), 3);
}

#[test]
fn modes_switch_and_repeat() {
    let (mut e, ids) = engine_with(1);
    assert_eq!(e.get_pty_mode(ids[0]), Ok(TerminalMode::Cooked));
    for mode in [TerminalMode::Raw, TerminalMode::Cooked, TerminalMode::AltScreen, TerminalMode::AltScreen] {
        e.set_pty_mode(ids[0], mode).unwrap();
        assert_eq!(e.get_pty_mode(ids[0]), Ok(mode));
    }
}

#[test]
fn uptime_is_measured_from_creation() {
    let mut e = TtyEngine::new();
    let id = e.create_pty(&config(), 3, 30, 1_000);
    assert_eq!(e.get_pty_stats(id, 5_000), Ok((0, 0, 4_000)));
    assert_eq!(e.get_pty_stats(id, 500), Ok((0, 0, 0)));
}

#[test]
fn counters_saturate() {
    let (mut e, ids) = engine_with(1);
    e.record_write(ids[0], IoOutcome::Completed(usize::MAX)).unwrap();
    e.record_write(ids[0], IoOutcome::Completed(usize::MAX)).unwrap();
    assert_eq!(e.get_pty_stats(ids[0], 0).unwrap().1, u64::MAX);
    assert_eq!(e.get_stats().total_bytes_written, u64::MAX);
}

#[test]
fn new_session_takes_config_window() {
    let mut e = TtyEngine::new();
    let mut c = config();
    c.rows = 40;
    c.cols = 100;
    assert!(e.can_create());
    let id = e.create_pty(&c, 3, 30, 0);
    let s = e.destroy_pty(id).unwrap();
    assert_eq!((s.rows, s.cols), (40, 100));
    assert_eq!(s.mode, TerminalMode::Cooked);
}

#[test]
fn counters_never_decrease_over_a_run() {
    let (mut e, ids) = engine_with(2);
    let id = ids[0];
    let mut last = e.get_pty_stats(id, 0).unwrap();
    let mut buffer = [0u8; 8];
    let data = [1u8; 8];
    let steps: Vec<IoOutcome> = vec![
        IoOutcome::Completed(3),
        IoOutcome::Failed(5),
        IoOutcome::TimedOut,
        IoOutcome::WouldBlock(11),
        IoOutcome::Completed(8),
        IoOutcome::Completed(0),
    ];
    for outcome in steps {
        let _ = e.record_write(id, outcome);
        let _ = e.record_read(id, outcome, &data, &mut buffer);
        e.resize_pty(id, 30, 90).unwrap();
        e.set_pty_mode(id, TerminalMode::Raw).unwrap();
        e.destroy_pty(ids[1]).ok();
        let now = e.get_pty_stats(id, 0).unwrap();
        assert!(now.0 >= last.0 && now.1 >= last.1);
        last = now;
    }
    assert_eq!(last, (11, 11, 0));
}

#[test]
fn session_stays_listed_until_removed() {
    let (mut e, ids) = engine_with(3);
    let id = ids[1];
    e.destroy_pty(ids[0]).unwrap();
    e.observe_child(ids[2], false);
    e.observe_child(id, true);
    e.record_write(id, IoOutcome::Completed(2)).unwrap();
    e.record_signal(None, Ok(())).unwrap();
    e.shutdown();
    assert_eq!(e.list_sessions(), vec![id]);
    e.destroy_pty(id).unwrap();
    assert!(e.list_sessions().is_empty());
}
