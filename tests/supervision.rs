use whaswapp::ipc::{handle_line, send_message_command, Dispatch};
use whaswapp::supervisor::{
    CommandRefused, Phase, Supervisor, SupervisorAction, SupervisorEvent, COMMAND_CHANNEL_CAPACITY, RESTART_DELAY,
    SPAWN_RETRY_DELAY,
};

#[test]
fn engine_exit_is_followed_by_a_restart() {
    let mut s = Supervisor::new();
    let mut spawns = 0;
    let mut qr = Vec::new();
    assert_eq!(s.step(SupervisorEvent::Initialize), SupervisorAction::Spawn);
    spawns += 1;
    assert!(s.running);
    assert_eq!(s.step(SupervisorEvent::Spawned), SupervisorAction::StartGeneration);
    for line in [r#"{"type":"qr_code","payload":"ABC123"}"#] {
        if let Dispatch::Notify { name, payload } = handle_line(line) {
            qr.push((name, payload));
        }
    }
    assert_eq!(s.step(SupervisorEvent::ProcessExited), SupervisorAction::EndGeneration(RESTART_DELAY));
    let next = s.step(SupervisorEvent::DelayElapsed);
    if next == SupervisorAction::Spawn {
        spawns += 1;
    }
    assert_eq!(qr, vec![("qr_code".to_string(), "ABC123".to_string())]);
    assert_eq!(spawns, 2);
    assert!(s.running);
    assert_eq!(s.phase, Phase::Spawning);
}

#[test]
fn disconnect_while_running_stops_for_good() {
    let mut s = Supervisor::new();
    s.step(SupervisorEvent::Initialize);
    s.step(SupervisorEvent::Spawned);
    assert!(s.accepts_commands());
    assert_eq!(s.step(SupervisorEvent::Disconnect), SupervisorAction::Shutdown);
    assert!(!s.running);
    assert!(!s.accepts_commands());
    assert_eq!(s.step(SupervisorEvent::ProcessExited), SupervisorAction::EndGeneration(RESTART_DELAY));
    assert_eq!(s.step(SupervisorEvent::DelayElapsed), SupervisorAction::Stop);
    assert_eq!(s.phase, Phase::Stopped);
    for e in [SupervisorEvent::DelayElapsed, SupervisorEvent::Spawned, SupervisorEvent::ProcessExited, SupervisorEvent::SpawnFailed] {
        let a = s.step(e);
        assert_ne!(a, SupervisorAction::Spawn);
        assert_ne!(a, SupervisorAction::StartGeneration);
    }
}

#[test]
fn disconnect_without_any_process_succeeds() {
    let mut s = Supervisor::new();
    assert_eq!(s.step(SupervisorEvent::Disconnect), SupervisorAction::Nothing);
    assert!(!s.running);
    assert_eq!(s.phase, Phase::Idle);
}

#[test]
fn spawn_failure_is_retried_after_the_flat_delay() {
    let mut s = Supervisor::new();
    s.step(SupervisorEvent::Initialize);
    for _ in 0..3 {
        assert_eq!(s.step(SupervisorEvent::SpawnFailed), SupervisorAction::Wait(SPAWN_RETRY_DELAY));
        assert_eq!(s.step(SupervisorEvent::DelayElapsed), SupervisorAction::Spawn);
    }
    assert_eq!(SPAWN_RETRY_DELAY, 5);
    assert_eq!(RESTART_DELAY, 1);
    assert_eq!(COMMAND_CHANNEL_CAPACITY, 32);
}

#[test]
fn missing_engine_ends_the_loop() {
    let mut s = Supervisor::new();
    s.step(SupervisorEvent::Initialize);
    assert_eq!(s.step(SupervisorEvent::EngineMissing), SupervisorAction::Stop);
    assert_eq!(s.phase, Phase::Stopped);
}

#[test]
fn process_started_after_disconnect_is_discarded() {
    let mut s = Supervisor::new();
    s.step(SupervisorEvent::Initialize);
    assert_eq!(s.step(SupervisorEvent::Disconnect), SupervisorAction::Nothing);
    assert_eq!(s.step(SupervisorEvent::Spawned), SupervisorAction::DiscardSpawned);
    assert_eq!(s.phase, Phase::Stopped);
}

#[test]
fn second_initialize_starts_no_second_loop() {
    let mut s = Supervisor::new();
    s.step(SupervisorEvent::Initialize);
    s.step(SupervisorEvent::Spawned);
    assert_eq!(s.step(SupervisorEvent::Initialize), SupervisorAction::Nothing);
    assert_eq!(s.phase, Phase::Running);
}

#[test]
fn commands_reach_only_a_running_process() {
    let mut s = Supervisor::new();
    let cmd = send_message_command("j".to_string(), "c".to_string());
    assert_eq!(s.outbound(&cmd), Err(CommandRefused::NotRunning));
    s.step(SupervisorEvent::Initialize);
    assert_eq!(s.outbound(&cmd), Err(CommandRefused::NotRunning));
    s.step(SupervisorEvent::Spawned);
    assert_eq!(
        s.outbound(&cmd),
        Ok("{\"type\":\"send_message\",\"payload\":{\"content\":\"c\",\"jid\":\"j\"}}\n".to_string())
    );
    s.step(SupervisorEvent::Disconnect);
    assert_eq!(s.outbound(&cmd), Err(CommandRefused::NotRunning));
}
