use opencode_sidecar::supervisor::{
    make_starting_info, sidecar_command_args, ProbeVerdict, ReadinessPoll, SharedState,
};
use opencode_sidecar::types::ServerStatus;

#[test]
fn start_twice_returns_identical_info_and_spawns_once() {
    let mut st = SharedState::new();
    // first start: nothing cached, so the pre-check says to spawn
    assert!(st.start_precheck(false).is_none());
    st.record_spawn(Some(42));
    let info = make_starting_info(Some(4096), Some(42));
    let first = st.complete_start(info, true).expect("ready start succeeds");
    assert!(matches!(first.status, ServerStatus::Running));
    // second start: the process is alive, so the cached info comes back
    // and no new process is spawned
    let second = st.start_precheck(true).expect("cached info is returned");
    assert_eq!(first, second);
}

#[test]
fn start_after_process_died_proceeds_to_spawn() {
    let mut st = SharedState::new();
    st.record_spawn(Some(7));
    let info = make_starting_info(Some(3000), Some(7));
    let _ = st.complete_start(info, true).unwrap();
    // the tracked process has exited: the pre-check does not answer
    assert!(st.start_precheck(false).is_none());
}

#[test]
fn stop_with_nothing_tracked_is_a_no_op() {
    let mut st = SharedState::new();
    let taken = st.stop_update();
    assert!(taken.is_none());
    assert!(st.get_server_info().is_none());
    assert!(st.process.is_none());
}

#[test]
fn stop_with_info_but_no_process_changes_nothing() {
    let mut st = SharedState::new();
    // info recorded without a tracked process: stop must not touch it
    let info = make_starting_info(Some(3100), None);
    let recorded = st.complete_start(info, true).unwrap();
    let taken = st.stop_update();
    assert!(taken.is_none());
    assert_eq!(st.get_server_info().unwrap(), recorded);
}

#[test]
fn stop_marks_info_stopped_and_clears_base_url() {
    let mut st = SharedState::new();
    st.record_spawn(Some(9));
    let info = make_starting_info(Some(3200), Some(9));
    let _ = st.complete_start(info, true).unwrap();
    let taken = st.stop_update();
    assert_eq!(taken.unwrap().pid, Some(9));
    let after = st.get_server_info().unwrap();
    assert!(matches!(after.status, ServerStatus::Stopped));
    assert_eq!(after.base_url, "");
    assert_eq!(after.port, 3200);
}

#[test]
fn readiness_timeout_after_thirty_failed_probes() {
    let mut st = SharedState::new();
    st.record_spawn(Some(5));
    let mut poll = ReadinessPoll::new();
    for attempt in 1..=30u32 {
        let verdict = poll.record(false);
        if attempt < 30 {
            assert!(matches!(verdict, ProbeVerdict::RetryAfterDelay));
        } else {
            assert!(matches!(verdict, ProbeVerdict::TimedOut));
        }
    }
    let info = make_starting_info(Some(3300), Some(5));
    let err = st.complete_start(info, false).unwrap_err();
    assert!(matches!(err, opencode_sidecar::types::OpencodeError::ReadinessTimeout));
    // status is Error, and the process is still tracked (not killed)
    let after = st.get_server_info().unwrap();
    assert!(matches!(after.status, ServerStatus::Error(_)));
    assert!(st.process.is_some());
}

#[test]
fn probe_success_is_ready_at_once() {
    let mut poll = ReadinessPoll::new();
    assert!(matches!(poll.record(true), ProbeVerdict::Ready));
}

#[test]
fn starting_info_uses_discovered_port() {
    let info = make_starting_info(Some(41234), Some(1));
    assert_eq!(info.port, 41234);
    assert_eq!(info.hostname, "127.0.0.1");
    assert_eq!(info.base_url, "http://127.0.0.1:41234");
    assert!(matches!(info.status, ServerStatus::Starting));
    assert_eq!(info.pid, Some(1));
}

#[test]
fn starting_info_falls_back_to_default_port() {
    let info = make_starting_info(None, None);
    assert_eq!(info.port, 3001);
    assert_eq!(info.base_url, "http://127.0.0.1:3001");
}

#[test]
fn command_args_request_os_assigned_port_on_loopback() {
    let args = sidecar_command_args("/srv/opencode/src/index.ts");
    let expect = vec![
        "run",
        "/srv/opencode/src/index.ts",
        "serve",
        "--port",
        "0",
        "--hostname",
        "127.0.0.1",
    ];
    assert_eq!(args, expect);
}

#[test]
fn port_renders_in_decimal() {
    assert_eq!(opencode_sidecar::numfmt::u16_to_string(0), "0");
    assert_eq!(opencode_sidecar::numfmt::u16_to_string(65535), "65535");
    assert_eq!(opencode_sidecar::numfmt::u16_to_string(3001), "3001");
}
