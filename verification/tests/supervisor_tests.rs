use sidecar_supervisor::logbuf::LogBuffer;
use sidecar_supervisor::logbuf::StreamTag;
use sidecar_supervisor::readiness::ReadinessSlot;
use sidecar_supervisor::readiness::ServerState;
use sidecar_supervisor::supervisor::simulate;
use sidecar_supervisor::supervisor::step;
use sidecar_supervisor::supervisor::timeout_message;
use sidecar_supervisor::supervisor::SupervisorAction;
use sidecar_supervisor::supervisor::SupervisorEvent;
use sidecar_supervisor::supervisor::SupervisorState;

#[test]
fn transition_table_happy_path() {
    let (s, a) = step(SupervisorState::Unstarted, SupervisorEvent::Start);
    assert_eq!(s, SupervisorState::ProbingExisting);
    assert_eq!(a, SupervisorAction::ProbeExisting);
    let (s, a) = step(s, SupervisorEvent::ExistingProbe(false));
    assert_eq!(s, SupervisorState::Spawning);
    assert_eq!(a, SupervisorAction::Spawn);
    let (s, a) = step(s, SupervisorEvent::Spawned);
    assert_eq!(s, SupervisorState::PollingReady);
    assert_eq!(a, SupervisorAction::CheckClock);
    let (s, a) = step(s, SupervisorEvent::PollClock(0));
    assert_eq!(s, SupervisorState::PollingReady);
    assert_eq!(a, SupervisorAction::SleepThenProbe);
    let (s, a) = step(s, SupervisorEvent::PollProbe(true));
    assert_eq!(s, SupervisorState::Ready);
    assert_eq!(a, SupervisorAction::GraceThenPublishReady);
}

#[test]
fn transition_table_timeout_and_terminal_absorption() {
    let (s, a) = step(SupervisorState::PollingReady, SupervisorEvent::PollClock(7001));
    assert_eq!(s, SupervisorState::TimedOut);
    assert_eq!(a, SupervisorAction::PublishTimeout);
    let (s, a) = step(s, SupervisorEvent::PollProbe(true));
    assert_eq!(s, SupervisorState::TimedOut);
    assert_eq!(a, SupervisorAction::Idle);
    let (s, a) = step(SupervisorState::Ready, SupervisorEvent::Start);
    assert_eq!(s, SupervisorState::Ready);
    assert_eq!(a, SupervisorAction::Idle);
}

#[test]
fn transition_clock_at_bound_keeps_polling() {
    let (s, a) = step(SupervisorState::PollingReady, SupervisorEvent::PollClock(7000));
    assert_eq!(s, SupervisorState::PollingReady);
    assert_eq!(a, SupervisorAction::SleepThenProbe);
}

#[test]
fn spawn_then_probe_success_after_30ms_is_ready_before_the_bound() {
    let logs = LogBuffer::new();
    let probes = vec![false, false, true];
    let r = simulate(false, &probes, &logs);
    assert_eq!(r.final_state, SupervisorState::Ready);
    assert!(r.outcome.is_ok());
    assert!(r.spawned);
    assert_eq!(r.elapsed_ms, 40);
    assert!(r.elapsed_ms < 7000);
}

#[test]
fn never_listening_times_out_at_the_bound_with_log_transcript() {
    let mut logs = LogBuffer::new();
    logs.append(StreamTag::Stdout, "booting\n");
    logs.append(StreamTag::Stderr, "bind failed, retrying\n");
    let probes: Vec<bool> = Vec::new();
    let r = simulate(false, &probes, &logs);
    assert_eq!(r.final_state, SupervisorState::TimedOut);
    assert!(r.spawned);
    assert_eq!(r.elapsed_ms, 7010);
    let msg = r.outcome.unwrap_err();
    assert_eq!(
        msg,
        "Failed to spawn OpenCode Server. Logs:\n[STDOUT] booting\n[STDERR] bind failed, retrying\n"
    );
    assert!(msg.contains("[STDERR] bind failed, retrying\n"));
}

#[test]
fn already_listening_skips_spawn_and_kill_is_a_noop() {
    let logs = LogBuffer::new();
    let probes: Vec<bool> = Vec::new();
    let r = simulate(true, &probes, &logs);
    assert_eq!(r.final_state, SupervisorState::Ready);
    assert!(r.outcome.is_ok());
    assert!(!r.spawned);
    assert_eq!(r.elapsed_ms, 0);

    // No handle was recorded, so the kill path has nothing to do.
    let mut state: ServerState<u32> = ServerState::new(None, ReadinessSlot::new());
    assert_eq!(state.take_child(), None);
    assert_eq!(state.take_child(), None);
}

#[test]
fn timeout_message_embeds_the_snapshot() {
    let m = timeout_message("[STDOUT] a\n");
    assert_eq!(m, "Failed to spawn OpenCode Server. Logs:\n[STDOUT] a\n");
}

#[test]
fn readiness_slot_is_write_once_and_every_reader_sees_the_first_outcome() {
    let mut slot = ReadinessSlot::new();
    assert_eq!(slot.read(), None);
    slot.publish(Ok(()));
    assert_eq!(slot.read(), Some(Ok(())));
    // A later publication (e.g. a racing writer) changes nothing.
    slot.publish(Err("too late".to_string()));
    assert_eq!(slot.read(), Some(Ok(())));
    // Reading twice more, as two late waiters would, gives the same value.
    assert_eq!(slot.read(), slot.read());
}

#[test]
fn readiness_slot_keeps_the_first_error_too() {
    let mut slot = ReadinessSlot::new();
    slot.publish(Err("timed out".to_string()));
    slot.publish(Ok(()));
    assert_eq!(slot.read(), Some(Err("timed out".to_string())));
}

#[test]
fn server_state_records_and_surrenders_the_handle() {
    let mut state: ServerState<u32> = ServerState::new(None, ReadinessSlot::new());
    state.set_child(Some(7));
    assert_eq!(state.take_child(), Some(7));
    assert_eq!(state.take_child(), None);
    state.publish_status(Ok(()));
    assert_eq!(state.read_status(), Some(Ok(())));
}
