//! Liveness probing: what one probe means, and the bounded wait for readiness.

use vstd::prelude::*;

verus! {

/// Number of probes a wait makes before it gives up.
pub const HEALTH_PROBE_ATTEMPTS: u32 = 25;

/// Milliseconds between a failed probe and the next one.
pub const HEALTH_PROBE_INTERVAL_MS: u64 = 200;

/// Milliseconds after which a single probe is abandoned.
pub const HEALTH_PROBE_TIMEOUT_MS: u64 = 2000;

/// What one request to the liveness endpoint came back with.
#[derive(Clone, Copy, Debug, PartialEq, Eq, Structural)]
pub enum ProbeOutcome {
    /// The endpoint answered with this HTTP status code.
    Status(u16),
    /// No answer: the connection was refused, or the request timed out.
    NoResponse,
}

/// Health of the sidecar as one probe shows it.
#[derive(Clone, Copy, Debug, PartialEq, Eq, Structural)]
pub enum HealthState {
    Healthy,
    Unhealthy,
    Unknown,
}

/// A status code of the 2xx class.
pub open spec fn is_success_status(code: u16) -> bool {
    200 <= code <= 299
}

/// The probe shows a live sidecar: it was answered, with a 2xx status.
pub open spec fn is_healthy(outcome: ProbeOutcome) -> bool {
    match outcome {
        ProbeOutcome::Status(code) => is_success_status(code),
        ProbeOutcome::NoResponse => false,
    }
}

/// Health that a probe outcome stands for.
pub open spec fn health_of(outcome: ProbeOutcome) -> HealthState {
    match outcome {
        ProbeOutcome::Status(code) => if is_success_status(code) {
            HealthState::Healthy
        } else {
            HealthState::Unhealthy
        },
        ProbeOutcome::NoResponse => HealthState::Unknown,
    }
}

impl ProbeOutcome {
    /// Classifies the outcome: a 2xx answer is healthy, any other answer unhealthy,
    /// and no answer at all leaves the health unknown.
    pub fn health(self) -> (state: HealthState)
        ensures
            state == health_of(self),
    {
        match self {
            ProbeOutcome::Status(code) => {
                if 200 <= code && code <= 299 {
                    HealthState::Healthy
                } else {
                    HealthState::Unhealthy
                }
            },
            ProbeOutcome::NoResponse => HealthState::Unknown,
        }
    }

    /// Whether the outcome counts as ready.
    pub fn healthy(self) -> (b: bool)
        ensures
            b == is_healthy(self),
            b == (health_of(self) == HealthState::Healthy),
    {
        match self.health() {
            HealthState::Healthy => true,
            _ => false,
        }
    }
}

/// A wait for readiness that is still under way: how many probes have failed so
/// far, and whether the pause after the last failure is still to be taken.
#[derive(Clone, Copy, Debug, PartialEq, Eq, Structural)]
pub struct HealthWait {
    pub failed: u32,
    pub pausing: bool,
}

/// What the driver of a wait does next.
#[derive(Clone, Copy, Debug, PartialEq, Eq, Structural)]
pub enum WaitAction {
    /// Send one probe and report its outcome.
    Probe,
    /// Sleep for this many milliseconds and report back.
    Pause(u64),
}

/// Where a wait stands after an event.
#[derive(Clone, Copy, Debug, PartialEq, Eq, Structural)]
pub enum WaitStep {
    /// The wait goes on from this state.
    Continue(HealthWait),
    /// A probe was healthy: the sidecar is ready.
    Passed,
    /// Every probe failed: the sidecar did not start.
    Exhausted,
}

impl HealthWait {
    /// A wait that has not probed yet.
    pub open spec fn fresh() -> HealthWait {
        HealthWait { failed: 0, pausing: false }
    }

    /// Number of failures after one more, never counted past the limit.
    pub open spec fn one_more(failed: u32) -> u32 {
        if failed < HEALTH_PROBE_ATTEMPTS {
            (failed + 1) as u32
        } else {
            HEALTH_PROBE_ATTEMPTS
        }
    }

    /// What the driver does in this state.
    pub open spec fn action_spec(self) -> WaitAction {
        if self.pausing {
            WaitAction::Pause(HEALTH_PROBE_INTERVAL_MS)
        } else {
            WaitAction::Probe
        }
    }

    /// State after a probe came back. A healthy probe ends the wait at once; a
    /// failed one is counted and followed by a pause. While a pause is due the
    /// outcome of a probe changes nothing.
    pub open spec fn after_probe_spec(self, outcome: ProbeOutcome) -> WaitStep {
        if self.pausing {
            WaitStep::Continue(self)
        } else if is_healthy(outcome) {
            WaitStep::Passed
        } else {
            WaitStep::Continue(HealthWait { failed: Self::one_more(self.failed), pausing: true })
        }
    }

    /// State after a pause was taken. The wait probes again unless the limit of
    /// failed probes is reached. While a probe is due a pause changes nothing.
    pub open spec fn after_pause_spec(self) -> WaitStep {
        if !self.pausing {
            WaitStep::Continue(self)
        } else if self.failed < HEALTH_PROBE_ATTEMPTS {
            WaitStep::Continue(HealthWait { failed: self.failed, pausing: false })
        } else {
            WaitStep::Exhausted
        }
    }

    /// Starts a wait.
    pub fn new() -> (wait: HealthWait)
        ensures
            wait == Self::fresh(),
    {
        HealthWait { failed: 0, pausing: false }
    }

    /// What to do next: probe, or pause before the next probe.
    #[verifier::when_used_as_spec(action_spec)]
    pub fn action(self) -> (action: WaitAction)
        ensures
            action == self.action_spec(),
    {
        if self.pausing {
            WaitAction::Pause(HEALTH_PROBE_INTERVAL_MS)
        } else {
            WaitAction::Probe
        }
    }

    /// Takes in the outcome of the probe that was asked for.
    #[verifier::when_used_as_spec(after_probe_spec)]
    pub fn after_probe(self, outcome: ProbeOutcome) -> (step: WaitStep)
        ensures
            step == self.after_probe_spec(outcome),
    {
        if self.pausing {
            WaitStep::Continue(self)
        } else if outcome.healthy() {
            WaitStep::Passed
        } else {
            let failed: u32 = if self.failed < HEALTH_PROBE_ATTEMPTS {
                self.failed + 1
            } else {
                HEALTH_PROBE_ATTEMPTS
            };
            WaitStep::Continue(HealthWait { failed, pausing: true })
        }
    }

    /// Takes in that the pause that was asked for is over.
    #[verifier::when_used_as_spec(after_pause_spec)]
    pub fn after_pause(self) -> (step: WaitStep)
        ensures
            step == self.after_pause_spec(),
    {
        if !self.pausing {
            WaitStep::Continue(self)
        } else if self.failed < HEALTH_PROBE_ATTEMPTS {
            WaitStep::Continue(HealthWait { failed: self.failed, pausing: false })
        } else {
            WaitStep::Exhausted
        }
    }
}

} // verus!
