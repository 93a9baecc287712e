use pwman_desktop::health::{
    health_url, past_deadline, response_is_healthy, wait_for_health, HealthProbe, ProbeAction,
    ProbeEvent, ProbePhase, POLL_INTERVAL_MS,
};

#[test]
fn health_url_is_built_from_the_address() {
    assert_eq!(health_url("127.0.0.1:9900"), "http://127.0.0.1:9900/health");
    assert_eq!(health_url(""), "http:///health");
    assert_eq!(health_url("[::1]:80"), "http://[::1]:80/health");
}

#[test]
fn only_2xx_answers_are_healthy() {
    assert!(!response_is_healthy(None));
    assert!(!response_is_healthy(Some(0)));
    assert!(!response_is_healthy(Some(199)));
    assert!(response_is_healthy(Some(200)));
    assert!(response_is_healthy(Some(204)));
    assert!(response_is_healthy(Some(299)));
    assert!(!response_is_healthy(Some(300)));
    assert!(!response_is_healthy(Some(404)));
    assert!(!response_is_healthy(Some(503)));
    assert!(!response_is_healthy(Some(u16::MAX)));
}

#[test]
fn deadline_passes_strictly_after_the_timeout() {
    assert!(!past_deadline(1_000, 2_000, 1_000));
    assert!(!past_deadline(1_000, 2_000, 3_000));
    assert!(past_deadline(1_000, 2_000, 3_001));
    assert!(!past_deadline(1_000, 2_000, 999));
    assert!(!past_deadline(5, 0, 5));
    assert!(past_deadline(5, 0, 6));
    assert!(!past_deadline(u64::MAX, u64::MAX, u64::MAX));
    assert!(!past_deadline(0, u64::MAX, u64::MAX));
    assert!(!past_deadline(1, u64::MAX, u64::MAX));
    assert!(past_deadline(0, u64::MAX - 1, u64::MAX));
}

#[test]
fn probe_polls_until_the_helper_answers() {
    let mut probe = HealthProbe::new("h:1", 2_000);
    assert_eq!(probe.url, "http://h:1/health");
    assert_eq!(probe.timeout_ms, 2_000);
    assert_eq!(probe.phase, ProbePhase::Created);
    assert_eq!(wait_for_health(&mut probe, ProbeEvent::Begin), ProbeAction::ReadClock);
    assert_eq!(wait_for_health(&mut probe, ProbeEvent::Clock(50)), ProbeAction::ReadClock);
    assert_eq!(probe.phase, ProbePhase::AwaitingNow { started: 50 });
    assert_eq!(
        wait_for_health(&mut probe, ProbeEvent::Clock(51)),
        ProbeAction::Get("http://h:1/health".to_string())
    );
    assert_eq!(wait_for_health(&mut probe, ProbeEvent::Response(None)), ProbeAction::Sleep(120));
    assert_eq!(POLL_INTERVAL_MS, 120);
    assert_eq!(wait_for_health(&mut probe, ProbeEvent::Slept), ProbeAction::ReadClock);
    assert_eq!(
        wait_for_health(&mut probe, ProbeEvent::Clock(2_050)),
        ProbeAction::Get("http://h:1/health".to_string())
    );
    assert_eq!(wait_for_health(&mut probe, ProbeEvent::Response(Some(500))), ProbeAction::Sleep(120));
    assert_eq!(wait_for_health(&mut probe, ProbeEvent::Slept), ProbeAction::ReadClock);
    assert_eq!(
        wait_for_health(&mut probe, ProbeEvent::Clock(2_050)),
        ProbeAction::Get("http://h:1/health".to_string())
    );
    assert_eq!(wait_for_health(&mut probe, ProbeEvent::Response(Some(200))), ProbeAction::Done(true));
    assert_eq!(probe.phase, ProbePhase::Finished(true));
    assert_eq!(wait_for_health(&mut probe, ProbeEvent::Slept), ProbeAction::Rejected);
    assert_eq!(probe.phase, ProbePhase::Finished(true));
}

#[test]
fn probe_gives_up_past_the_deadline() {
    let mut probe = HealthProbe::new("h:1", 2_000);
    wait_for_health(&mut probe, ProbeEvent::Begin);
    wait_for_health(&mut probe, ProbeEvent::Clock(50));
    assert_eq!(wait_for_health(&mut probe, ProbeEvent::Clock(2_051)), ProbeAction::Done(false));
    assert_eq!(probe.phase, ProbePhase::Finished(false));
    assert_eq!(wait_for_health(&mut probe, ProbeEvent::Begin), ProbeAction::Rejected);
}

#[test]
fn probe_rejects_events_that_answer_nothing() {
    let mut probe = HealthProbe::new("h:1", 10);
    assert_eq!(wait_for_health(&mut probe, ProbeEvent::Clock(1)), ProbeAction::Rejected);
    assert_eq!(wait_for_health(&mut probe, ProbeEvent::Response(Some(200))), ProbeAction::Rejected);
    assert_eq!(wait_for_health(&mut probe, ProbeEvent::Slept), ProbeAction::Rejected);
    assert_eq!(probe.phase, ProbePhase::Created);
    assert_eq!(wait_for_health(&mut probe, ProbeEvent::Begin), ProbeAction::ReadClock);
    assert_eq!(wait_for_health(&mut probe, ProbeEvent::Begin), ProbeAction::Rejected);
    assert_eq!(wait_for_health(&mut probe, ProbeEvent::Response(Some(200))), ProbeAction::Rejected);
    assert_eq!(probe.phase, ProbePhase::AwaitingStart);
    wait_for_health(&mut probe, ProbeEvent::Clock(0));
    wait_for_health(&mut probe, ProbeEvent::Clock(0));
    assert_eq!(wait_for_health(&mut probe, ProbeEvent::Clock(99)), ProbeAction::Rejected);
    assert_eq!(probe.phase, ProbePhase::AwaitingResponse { started: 0 });
}
