use sidecar_supervisor::health::{
    HealthState, HealthWait, ProbeOutcome, WaitAction, WaitStep, HEALTH_PROBE_ATTEMPTS,
    HEALTH_PROBE_INTERVAL_MS, HEALTH_PROBE_TIMEOUT_MS,
};

#[test]
fn only_two_hundreds_are_healthy() {
    assert_eq!(ProbeOutcome::Status(200).health(), HealthState::Healthy);
    assert_eq!(ProbeOutcome::Status(204).health(), HealthState::Healthy);
    assert_eq!(ProbeOutcome::Status(299).health(), HealthState::Healthy);
    assert_eq!(ProbeOutcome::Status(199).health(), HealthState::Unhealthy);
    assert_eq!(ProbeOutcome::Status(300).health(), HealthState::Unhealthy);
    assert_eq!(ProbeOutcome::Status(404).health(), HealthState::Unhealthy);
    assert_eq!(ProbeOutcome::Status(503).health(), HealthState::Unhealthy);
    assert_eq!(ProbeOutcome::Status(0).health(), HealthState::Unhealthy);
    assert_eq!(ProbeOutcome::NoResponse.health(), HealthState::Unknown);
    assert!(ProbeOutcome::Status(200).healthy());
    assert!(!ProbeOutcome::Status(500).healthy());
    assert!(!ProbeOutcome::NoResponse.healthy());
}

#[test]
fn wait_limits_are_the_documented_ones() {
    assert_eq!(HEALTH_PROBE_ATTEMPTS, 25);
    assert_eq!(HEALTH_PROBE_INTERVAL_MS, 200);
    assert_eq!(HEALTH_PROBE_TIMEOUT_MS, 2000);
}

fn drive(answers: &dyn Fn(u32) -> ProbeOutcome) -> (bool, u32, u64) {
    let mut wait = HealthWait::new();
    let mut probes = 0u32;
    let mut slept = 0u64;
    loop {
        let step = match wait.action() {
            WaitAction::Probe => {
                probes += 1;
                wait.after_probe(answers(probes))
            }
            WaitAction::Pause(millis) => {
                slept += millis;
                wait.after_pause()
            }
        };
        match step {
            WaitStep::Continue(next) => wait = next,
            WaitStep::Passed => return (true, probes, slept),
            WaitStep::Exhausted => return (false, probes, slept),
        }
        assert!(probes <= 1000);
    }
}

#[test]
fn wait_gives_up_after_twenty_five_probes_and_five_seconds() {
    assert_eq!(drive(&|_n| ProbeOutcome::NoResponse), (false, 25, 5000));
    assert_eq!(drive(&|_n| ProbeOutcome::Status(503)), (false, 25, 5000));
}

#[test]
fn wait_ends_at_the_first_healthy_probe() {
    assert_eq!(drive(&|_n| ProbeOutcome::Status(200)), (true, 1, 0));
    assert_eq!(
        drive(&|n| if n == 5 { ProbeOutcome::Status(204) } else { ProbeOutcome::NoResponse }),
        (true, 5, 800)
    );
    assert_eq!(
        drive(&|n| if n == 25 { ProbeOutcome::Status(200) } else { ProbeOutcome::Status(500) }),
        (true, 25, 4800)
    );
}

#[test]
fn wait_ignores_events_it_does_not_wait_for() {
    let fresh = HealthWait::new();
    assert_eq!(fresh, HealthWait { failed: 0, pausing: false });
    assert_eq!(fresh.after_pause(), WaitStep::Continue(fresh));
    let pausing = HealthWait { failed: 3, pausing: true };
    assert_eq!(pausing.after_probe(ProbeOutcome::Status(200)), WaitStep::Continue(pausing));
    assert_eq!(pausing.after_pause(), WaitStep::Continue(HealthWait { failed: 3, pausing: false }));
    let beyond = HealthWait { failed: u32::MAX, pausing: false };
    assert_eq!(
        beyond.after_probe(ProbeOutcome::NoResponse),
        WaitStep::Continue(HealthWait { failed: 25, pausing: true })
    );
    assert_eq!(HealthWait { failed: 25, pausing: true }.after_pause(), WaitStep::Exhausted);
}
