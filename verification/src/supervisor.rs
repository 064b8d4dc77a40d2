//! One attempt to bring the sidecar up, as a state machine.
//!
//! The machine holds every decision of a start attempt. Its driver performs the
//! action the current state asks for (a probe, a pause, a spawn, ...) and hands
//! back what happened as an event.

use vstd::prelude::*;
use crate::health::{
    is_healthy, WaitAction, WaitStep, HealthWait, ProbeOutcome, HEALTH_PROBE_ATTEMPTS,
    HEALTH_PROBE_INTERVAL_MS, HEALTH_PROBE_TIMEOUT_MS,
};
use crate::platform::Platform;
use crate::text::{chars_of, string_of};

verus! {

/// Milliseconds the operating system is given to release a reclaimed port.
pub const PORT_RELEASE_PAUSE_MS: u64 = 500;

/// Why a start attempt failed.
#[derive(Debug, PartialEq, Eq)]
pub enum StartupError {
    /// No entry point was found in any known layout.
    EntryNotFound,
    /// The operating system refused to start the process.
    SpawnFailed { detail: String },
    /// The process ran but never answered the liveness endpoint in time.
    StartupFailed { entry: String },
    /// The confinement object could not be created or attached.
    ConfinementSetupFailed { detail: String },
}

/// How a start attempt that did not fail ended.
#[derive(Clone, Copy, Debug, PartialEq, Eq, Structural)]
pub enum Started {
    /// A healthy sidecar was already listening: nothing was spawned.
    AlreadyRunning,
    /// A new sidecar was spawned and is healthy; its handle is the caller's.
    Spawned,
}

/// Where a start attempt stands.
#[derive(Debug, PartialEq, Eq)]
pub enum Phase {
    /// Asking the port whether a healthy sidecar is there already.
    ProbingExisting,
    /// Terminating whatever still listens on the port.
    Reclaiming,
    /// Giving the operating system time to release the port.
    Settling,
    /// Starting the child process.
    Spawning,
    /// Waiting for the child to answer the liveness endpoint.
    AwaitingHealth(HealthWait),
    /// Binding the child to its confinement object.
    Confining,
    /// Terminating the child after a failure, which is reported afterwards.
    Stopping(StartupError),
    /// The attempt is over.
    Finished(Result<Started, StartupError>),
}

/// What the driver reports back.
#[derive(Debug, PartialEq, Eq)]
pub enum Event {
    /// The probe that was asked for came back.
    Health(ProbeOutcome),
    /// The port was reclaimed as far as that is possible.
    PortReclaimed,
    /// The pause that was asked for is over.
    Paused,
    /// The child process runs.
    Spawned,
    /// The child process could not be started.
    SpawnFailed(String),
    /// The child process was told to terminate.
    ChildStopped,
    /// The child is bound to its confinement object.
    Confined,
    /// The confinement object could not be set up.
    ConfinementFailed(String),
}

/// What the driver has to do next.
#[derive(Clone, Copy, Debug, PartialEq, Eq, Structural)]
pub enum Action {
    /// Send one request to the liveness endpoint on this port.
    ProbeHealth { port: u16, timeout_ms: u64 },
    /// Terminate the processes that listen on this port.
    ReclaimPort { port: u16 },
    /// Sleep.
    Pause { millis: u64 },
    /// Start the child process.
    Spawn,
    /// Terminate the child process.
    StopChild,
    /// Create the confinement object and attach the child to it.
    Confine,
    /// Nothing: the attempt is over and its result can be read.
    Finish,
}

/// A start attempt.
#[derive(Debug, PartialEq, Eq)]
pub struct Supervisor {
    pub platform: Platform,
    pub port: u16,
    pub entry_path: String,
    pub phase: Phase,
}

impl StartupError {
    /// What the user is told about the failure.
    pub open spec fn message_spec(self) -> Seq<char> {
        match self {
            StartupError::EntryNotFound =>
                "Python backend main.py not found. Please ensure python-backend/main.py exists or build the backend exe."@,
            StartupError::SpawnFailed { detail } => "Failed to start Python backend: "@ + detail@,
            StartupError::StartupFailed { entry } =>
                "Python backend failed to become healthy. Entry: "@ + entry@,
            StartupError::ConfinementSetupFailed { detail } => detail@,
        }
    }

    /// What the user is told about the failure: which entry point was tried and
    /// did not become healthy, or what the operating system said.
    pub fn message(&self) -> (text: String)
        ensures
            text@ == self.message_spec(),
    {
        match self {
            StartupError::EntryNotFound =>
                "Python backend main.py not found. Please ensure python-backend/main.py exists or build the backend exe.".to_owned(),
            StartupError::SpawnFailed { detail } => {
                let mut text = chars_of("Failed to start Python backend: ");
                let mut rest = chars_of(detail.as_str());
                text.append(&mut rest);
                string_of(text.as_slice())
            },
            StartupError::StartupFailed { entry } => {
                let mut text = chars_of("Python backend failed to become healthy. Entry: ");
                let mut rest = chars_of(entry.as_str());
                text.append(&mut rest);
                string_of(text.as_slice())
            },
            StartupError::ConfinementSetupFailed { detail } => detail.clone(),
        }
    }
}

impl Supervisor {
    /// The attempt as it begins: it first asks whether a sidecar is there
    /// already. Without an entry point there is no attempt, only the error.
    pub open spec fn begun(platform: Platform, port: u16, entry_path: Option<String>) -> Result<
        Supervisor,
        StartupError,
    > {
        match entry_path {
            Some(path) => Ok(
                Supervisor { platform, port, entry_path: path, phase: Phase::ProbingExisting },
            ),
            None => Err(StartupError::EntryNotFound),
        }
    }

    /// The same attempt in another phase.
    pub open spec fn in_phase(self, phase: Phase) -> Supervisor {
        Supervisor { phase, ..self }
    }

    /// The phase that follows a failed probe of the port.
    pub open spec fn after_no_sidecar(self) -> Phase {
        if self.platform.reclaims_ports_spec() {
            Phase::Reclaiming
        } else {
            Phase::Settling
        }
    }

    /// The phase that follows the health wait once the child is ready.
    pub open spec fn after_ready(self) -> Phase {
        if self.platform.confines_children_spec() {
            Phase::Confining
        } else {
            Phase::Finished(Ok(Started::Spawned))
        }
    }

    /// The phase that a step of the health wait leads to.
    pub open spec fn after_wait(self, step: WaitStep) -> Phase {
        match step {
            WaitStep::Continue(wait) => Phase::AwaitingHealth(wait),
            WaitStep::Passed => self.after_ready(),
            WaitStep::Exhausted => Phase::Stopping(
                StartupError::StartupFailed { entry: self.entry_path },
            ),
        }
    }

    /// The attempt after `event`. An event that the current phase does not wait
    /// for leaves the attempt as it is.
    pub open spec fn advanced(self, event: Event) -> Supervisor {
        match (self.phase, event) {
            (Phase::ProbingExisting, Event::Health(outcome)) => if is_healthy(outcome) {
                self.in_phase(Phase::Finished(Ok(Started::AlreadyRunning)))
            } else {
                self.in_phase(self.after_no_sidecar())
            },
            (Phase::Reclaiming, Event::PortReclaimed) => self.in_phase(Phase::Settling),
            (Phase::Settling, Event::Paused) => self.in_phase(Phase::Spawning),
            (Phase::Spawning, Event::Spawned) => self.in_phase(Phase::AwaitingHealth(HealthWait::fresh())),
            (Phase::Spawning, Event::SpawnFailed(detail)) => self.in_phase(
                Phase::Finished(Err(StartupError::SpawnFailed { detail })),
            ),
            (Phase::AwaitingHealth(wait), Event::Health(outcome)) => self.in_phase(
                self.after_wait(wait.after_probe_spec(outcome)),
            ),
            (Phase::AwaitingHealth(wait), Event::Paused) => self.in_phase(
                self.after_wait(wait.after_pause_spec()),
            ),
            (Phase::Confining, Event::Confined) => self.in_phase(
                Phase::Finished(Ok(Started::Spawned)),
            ),
            (Phase::Confining, Event::ConfinementFailed(detail)) => self.in_phase(
                Phase::Stopping(StartupError::ConfinementSetupFailed { detail }),
            ),
            (Phase::Stopping(error), Event::ChildStopped) => self.in_phase(
                Phase::Finished(Err(error)),
            ),
            _ => self,
        }
    }

    /// What the driver has to do in this state.
    pub open spec fn action_spec(self) -> Action {
        match self.phase {
            Phase::ProbingExisting => Action::ProbeHealth {
                port: self.port,
                timeout_ms: HEALTH_PROBE_TIMEOUT_MS,
            },
            Phase::Reclaiming => Action::ReclaimPort { port: self.port },
            Phase::Settling => Action::Pause { millis: PORT_RELEASE_PAUSE_MS },
            Phase::Spawning => Action::Spawn,
            Phase::AwaitingHealth(wait) => match wait.action_spec() {
                WaitAction::Probe => Action::ProbeHealth {
                    port: self.port,
                    timeout_ms: HEALTH_PROBE_TIMEOUT_MS,
                },
                WaitAction::Pause(millis) => Action::Pause { millis },
            },
            Phase::Confining => Action::Confine,
            Phase::Stopping(_) => Action::StopChild,
            Phase::Finished(_) => Action::Finish,
        }
    }

    /// The result of the attempt, once it is over.
    pub open spec fn result_spec(self) -> Option<Result<Started, StartupError>> {
        match self.phase {
            Phase::Finished(result) => Some(result),
            _ => None,
        }
    }

    /// Begins a start attempt for the entry point at `entry_path` on `port`.
    /// Without an entry point nothing is attempted: the result is `EntryNotFound`.
    pub fn begin(platform: Platform, port: u16, entry_path: Option<String>) -> (sup: Result<
        Supervisor,
        StartupError,
    >)
        ensures
            sup == Self::begun(platform, port, entry_path),
    {
        match entry_path {
            Some(path) => Ok(
                Supervisor { platform, port, entry_path: path, phase: Phase::ProbingExisting },
            ),
            None => Err(StartupError::EntryNotFound),
        }
    }

    /// What the driver has to do now.
    pub fn action(&self) -> (action: Action)
        ensures
            action == self.action_spec(),
    {
        match &self.phase {
            Phase::ProbingExisting => Action::ProbeHealth {
                port: self.port,
                timeout_ms: HEALTH_PROBE_TIMEOUT_MS,
            },
            Phase::Reclaiming => Action::ReclaimPort { port: self.port },
            Phase::Settling => Action::Pause { millis: PORT_RELEASE_PAUSE_MS },
            Phase::Spawning => Action::Spawn,
            Phase::AwaitingHealth(wait) => match wait.action() {
                WaitAction::Probe => Action::ProbeHealth {
                    port: self.port,
                    timeout_ms: HEALTH_PROBE_TIMEOUT_MS,
                },
                WaitAction::Pause(millis) => Action::Pause { millis },
            },
            Phase::Confining => Action::Confine,
            Phase::Stopping(_) => Action::StopChild,
            Phase::Finished(_) => Action::Finish,
        }
    }

    /// Takes in what the driver reports and moves to the next state.
    pub fn advance(self, event: Event) -> (next: Supervisor)
        ensures
            next == self.advanced(event),
    {
        let Supervisor { platform, port, entry_path, phase } = self;
        let next_phase = match (phase, event) {
            (Phase::ProbingExisting, Event::Health(outcome)) => {
                if outcome.healthy() {
                    Phase::Finished(Ok(Started::AlreadyRunning))
                } else if platform.reclaims_ports() {
                    Phase::Reclaiming
                } else {
                    Phase::Settling
                }
            },
            (Phase::Reclaiming, Event::PortReclaimed) => Phase::Settling,
            (Phase::Settling, Event::Paused) => Phase::Spawning,
            (Phase::Spawning, Event::Spawned) => Phase::AwaitingHealth(HealthWait::new()),
            (Phase::Spawning, Event::SpawnFailed(detail)) => Phase::Finished(
                Err(StartupError::SpawnFailed { detail }),
            ),
            (Phase::AwaitingHealth(wait), Event::Health(outcome)) => {
                let step = wait.after_probe(outcome);
                Self::phase_after_wait(platform, &entry_path, step)
            },
            (Phase::AwaitingHealth(wait), Event::Paused) => {
                let step = wait.after_pause();
                Self::phase_after_wait(platform, &entry_path, step)
            },
            (Phase::Confining, Event::Confined) => Phase::Finished(Ok(Started::Spawned)),
            (Phase::Confining, Event::ConfinementFailed(detail)) => Phase::Stopping(
                StartupError::ConfinementSetupFailed { detail },
            ),
            (Phase::Stopping(error), Event::ChildStopped) => Phase::Finished(Err(error)),
            (phase, _) => phase,
        };
        Supervisor { platform, port, entry_path, phase: next_phase }
    }

    fn phase_after_wait(platform: Platform, entry_path: &String, step: WaitStep) -> (phase: Phase)
        ensures
            forall|sup: Supervisor|
                sup.platform == platform && sup.entry_path == *entry_path
                    ==> phase == #[trigger] sup.after_wait(step),
    {
        match step {
            WaitStep::Continue(wait) => Phase::AwaitingHealth(wait),
            WaitStep::Passed => {
                if platform.confines_children() {
                    Phase::Confining
                } else {
                    Phase::Finished(Ok(Started::Spawned))
                }
            },
            WaitStep::Exhausted => Phase::Stopping(
                StartupError::StartupFailed { entry: entry_path.clone() },
            ),
        }
    }

    /// The result of the attempt: `None` while it is under way.
    pub fn result(&self) -> (result: Option<Result<Started, StartupError>>)
        ensures
            result == self.result_spec(),
    {
        match &self.phase {
            Phase::Finished(Ok(started)) => Some(Ok(*started)),
            Phase::Finished(Err(error)) => Some(Err(error.clone())),
            _ => None,
        }
    }
}

impl Supervisor {
    /// The attempt after all of `events`, taken in order.
    pub open spec fn after_all(self, events: Seq<Event>) -> Supervisor
        decreases events.len(),
    {
        if events.len() == 0 {
            self
        } else {
            self.after_all(events.drop_last()).advanced(events.last())
        }
    }

    /// A child process that this attempt started is running.
    pub open spec fn holds_child(self) -> bool {
        match self.phase {
            Phase::AwaitingHealth(_) => true,
            Phase::Confining => true,
            Phase::Stopping(_) => true,
            Phase::Finished(Ok(Started::Spawned)) => true,
            _ => false,
        }
    }

    /// Some state that the attempt passes through on `events` asks for a spawn.
    pub open spec fn spawns_during(self, events: Seq<Event>) -> bool {
        exists|n: int|
            0 <= n <= events.len() && #[trigger] self.after_all(events.take(n)).action_spec()
                == Action::Spawn
    }

    /// Milliseconds of the pauses that were asked for and taken on `events`.
    pub open spec fn paused_millis(self, events: Seq<Event>) -> nat
        decreases events.len(),
    {
        if events.len() == 0 {
            0
        } else {
            let before = self.after_all(events.drop_last());
            let taken: nat = match (before.action_spec(), events.last()) {
                (Action::Pause { millis }, Event::Paused) => millis as nat,
                _ => 0,
            };
            self.paused_millis(events.drop_last()) + taken
        }
    }

    /// Number of the probes that were asked for and answered on `events`.
    pub open spec fn probes_answered(self, events: Seq<Event>) -> nat
        decreases events.len(),
    {
        if events.len() == 0 {
            0
        } else {
            let before = self.after_all(events.drop_last());
            let answered: nat = match (before.action_spec(), events.last()) {
                (Action::ProbeHealth { .. }, Event::Health(_)) => 1,
                _ => 0,
            };
            self.probes_answered(events.drop_last()) + answered
        }
    }
}

/// No orphans: a child comes into being only where a spawn was asked for and
/// reported, and goes only where its stop was asked for and reported. An
/// attempt that has failed holds no child.
pub proof fn lemma_child_is_accounted_for(sup: Supervisor, event: Event)
    ensures
        !sup.holds_child() && sup.advanced(event).holds_child() ==> sup.action_spec()
            == Action::Spawn && event == Event::Spawned,
        sup.holds_child() && !sup.advanced(event).holds_child() ==> sup.action_spec()
            == Action::StopChild && event == Event::ChildStopped,
        sup.result_spec() matches Some(Err(_)) ==> !sup.holds_child(),
{
}

/// What a driver reports while every probe of the health wait fails: each
/// outcome is followed by the pause that the wait asks for.
pub open spec fn failing_rounds(outcomes: Seq<ProbeOutcome>) -> Seq<Event>
    decreases outcomes.len(),
{
    if outcomes.len() == 0 {
        Seq::empty()
    } else {
        failing_rounds(outcomes.drop_last()).push(Event::Health(outcomes.last())).push(
            Event::Paused,
        )
    }
}

/// An attempt that is over stays as it is, whatever is reported to it.
pub proof fn lemma_finished_is_final(sup: Supervisor, events: Seq<Event>)
    requires
        sup.phase is Finished,
    ensures
        sup.after_all(events) == sup,
    decreases events.len(),
{
    if events.len() > 0 {
        lemma_finished_is_final(sup, events.drop_last());
    }
}

/// Reporting one event and then some more is reporting all of them in order.
pub proof fn lemma_after_first(sup: Supervisor, first: Event, later: Seq<Event>)
    ensures
        sup.after_all(seq![first] + later) == sup.advanced(first).after_all(later),
    decreases later.len(),
{
    let all = seq![first] + later;
    if later.len() == 0 {
        assert(all.drop_last() =~= Seq::<Event>::empty());
        assert(sup.after_all(all.drop_last()) == sup);
    } else {
        assert(all.drop_last() =~= seq![first] + later.drop_last());
        assert(all.last() == later.last());
        lemma_after_first(sup, first, later.drop_last());
    }
}

/// Adoption, not duplication: when the probe of the port shows a healthy
/// sidecar, the attempt ends with `AlreadyRunning`, and no state that it passes
/// through asks for a spawn, whatever the driver reports afterwards.
pub proof fn lemma_healthy_sidecar_is_adopted(
    sup: Supervisor,
    outcome: ProbeOutcome,
    later: Seq<Event>,
)
    requires
        sup.phase == Phase::ProbingExisting,
        is_healthy(outcome),
    ensures
        sup.after_all(seq![Event::Health(outcome)] + later).result_spec() == Some(
            Ok::<Started, StartupError>(Started::AlreadyRunning),
        ),
        !sup.spawns_during(seq![Event::Health(outcome)] + later),
{
    let first = Event::Health(outcome);
    let all = seq![first] + later;
    let adopted = sup.advanced(first);
    assert forall|n: int| 0 <= n <= all.len() implies #[trigger] sup.after_all(
        all.take(n),
    ).action_spec() != Action::Spawn by {
        if n == 0 {
            assert(all.take(0) =~= Seq::<Event>::empty());
        } else {
            assert(all.take(n) =~= seq![first] + later.take(n - 1));
            lemma_after_first(sup, first, later.take(n - 1));
            lemma_finished_is_final(adopted, later.take(n - 1));
        }
    }
    lemma_after_first(sup, first, later);
    lemma_finished_is_final(adopted, later);
}

/// Where the health wait stands after `outcomes.len()` failed probes, at most
/// as many as the wait allows: the attempt has answered that many probes, has
/// paused after each, and either probes again or, at the limit, stops the child.
pub proof fn lemma_after_failing_rounds(sup: Supervisor, outcomes: Seq<ProbeOutcome>)
    requires
        sup.phase == Phase::AwaitingHealth(HealthWait::fresh()),
        outcomes.len() <= HEALTH_PROBE_ATTEMPTS,
        forall|i: int| 0 <= i < outcomes.len() ==> !is_healthy(#[trigger] outcomes[i]),
    ensures
        ({
            let events = failing_rounds(outcomes);
            let end = sup.after_all(events);
            &&& end == sup.in_phase(end.phase)
            &&& outcomes.len() < HEALTH_PROBE_ATTEMPTS ==> end.phase == Phase::AwaitingHealth(
                HealthWait { failed: outcomes.len() as u32, pausing: false },
            )
            &&& outcomes.len() == HEALTH_PROBE_ATTEMPTS ==> end.phase == Phase::Stopping(
                StartupError::StartupFailed { entry: sup.entry_path },
            )
            &&& sup.probes_answered(events) == outcomes.len()
            &&& sup.paused_millis(events) == outcomes.len() * HEALTH_PROBE_INTERVAL_MS
        }),
    decreases outcomes.len(),
{
    if outcomes.len() > 0 {
        let earlier = outcomes.drop_last();
        lemma_after_failing_rounds(sup, earlier);
        let before = failing_rounds(earlier);
        let probed = before.push(Event::Health(outcomes.last()));
        let events = probed.push(Event::Paused);
        assert(events == failing_rounds(outcomes));
        assert(events.drop_last() =~= probed);
        assert(probed.drop_last() =~= before);
        assert(!is_healthy(outcomes.last()));
        let s0 = sup.after_all(before);
        let s1 = s0.advanced(Event::Health(outcomes.last()));
        assert(sup.after_all(probed) == s1);
        assert(s1.phase == Phase::AwaitingHealth(
            HealthWait { failed: outcomes.len() as u32, pausing: true },
        ));
        assert(sup.probes_answered(probed) == outcomes.len());
        assert(sup.paused_millis(probed) == earlier.len() * HEALTH_PROBE_INTERVAL_MS);
        assert(sup.after_all(events) == s1.advanced(Event::Paused));
    } else {
        assert(failing_rounds(outcomes) =~= Seq::<Event>::empty());
    }
}

/// Bounded failure: when the spawned child never answers the liveness endpoint
/// with a 2xx status, the attempt gives up after 25 probes and 25 pauses of
/// 200 ms (5 seconds of waiting in all), asks for the child to be stopped,
/// and then ends with `StartupFailed`, naming the entry point.
pub proof fn lemma_unhealthy_child_fails_in_bounded_time(
    sup: Supervisor,
    outcomes: Seq<ProbeOutcome>,
)
    requires
        sup.phase == Phase::AwaitingHealth(HealthWait::fresh()),
        outcomes.len() == HEALTH_PROBE_ATTEMPTS,
        forall|i: int| 0 <= i < outcomes.len() ==> !is_healthy(#[trigger] outcomes[i]),
    ensures
        ({
            let events = failing_rounds(outcomes);
            let end = sup.after_all(events);
            &&& sup.probes_answered(events) == 25
            &&& sup.paused_millis(events) == 5000
            &&& end.action_spec() == Action::StopChild
            &&& end.advanced(Event::ChildStopped).result_spec() == Some(
                Err::<Started, StartupError>(
                    StartupError::StartupFailed { entry: sup.entry_path },
                ),
            )
        }),
{
    lemma_after_failing_rounds(sup, outcomes);
}

impl Clone for StartupError {
    fn clone(&self) -> (copy: Self)
        ensures
            copy == *self,
    {
        match self {
            StartupError::EntryNotFound => StartupError::EntryNotFound,
            StartupError::SpawnFailed { detail } => StartupError::SpawnFailed {
                detail: detail.clone(),
            },
            StartupError::StartupFailed { entry } => StartupError::StartupFailed {
                entry: entry.clone(),
            },
            StartupError::ConfinementSetupFailed { detail } => StartupError::ConfinementSetupFailed {
                detail: detail.clone(),
            },
        }
    }
}

impl Clone for Phase {
    fn clone(&self) -> (copy: Self)
        ensures
            copy == *self,
    {
        match self {
            Phase::ProbingExisting => Phase::ProbingExisting,
            Phase::Reclaiming => Phase::Reclaiming,
            Phase::Settling => Phase::Settling,
            Phase::Spawning => Phase::Spawning,
            Phase::AwaitingHealth(wait) => Phase::AwaitingHealth(*wait),
            Phase::Confining => Phase::Confining,
            Phase::Stopping(error) => Phase::Stopping(error.clone()),
            Phase::Finished(Ok(started)) => Phase::Finished(Ok(*started)),
            Phase::Finished(Err(error)) => Phase::Finished(Err(error.clone())),
        }
    }
}

impl Clone for Event {
    fn clone(&self) -> (copy: Self)
        ensures
            copy == *self,
    {
        match self {
            Event::Health(outcome) => Event::Health(*outcome),
            Event::PortReclaimed => Event::PortReclaimed,
            Event::Paused => Event::Paused,
            Event::Spawned => Event::Spawned,
            Event::SpawnFailed(detail) => Event::SpawnFailed(detail.clone()),
            Event::ChildStopped => Event::ChildStopped,
            Event::Confined => Event::Confined,
            Event::ConfinementFailed(detail) => Event::ConfinementFailed(detail.clone()),
        }
    }
}

impl Clone for Supervisor {
    fn clone(&self) -> (copy: Self)
        ensures
            copy == *self,
    {
        Supervisor {
            platform: self.platform,
            port: self.port,
            entry_path: self.entry_path.clone(),
            phase: self.phase.clone(),
        }
    }
}

} // verus!
