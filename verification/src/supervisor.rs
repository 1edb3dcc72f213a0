//! The sidecar supervisor: a single-shot state machine that resolves the
//! backend executable, asks for one spawn attempt, and reacts to success or
//! failure according to the chosen policy.

use vstd::prelude::*;

verus! {

/// Failure policy for sidecar startup.
///
/// Strict aborts application startup on any sidecar problem; Tolerant logs
/// a warning and lets the application run without a backend.
#[derive(Clone, Copy, Debug, PartialEq, Eq, Structural)]
pub enum Variant {
    Strict,
    Tolerant,
}

/// The states of the supervisor, in the order they can be entered.
#[derive(Clone, Copy, Debug, PartialEq, Eq, Structural)]
pub enum SupervisorState {
    NotStarted,
    Resolving,
    Resolved,
    ResolutionFailed,
    Spawning,
    Running,
    SpawnFailed,
}

/// Severity of a log entry. Warnings mark tolerated sidecar failures,
/// the single info entry marks a successful start.
#[derive(Clone, Copy, Debug, PartialEq, Eq, Structural)]
pub enum LogLevel {
    Info,
    Warn,
}

/// A structured log entry produced by the supervisor. The detail string
/// carries the platform layer's own description of a failure.
#[derive(Clone, Debug, PartialEq, Eq)]
pub enum LogEntry {
    SidecarStarted,
    SidecarNotFound { detail: String },
    SidecarSpawnFailed { detail: String },
}

impl LogEntry {
    pub open spec fn spec_level(self) -> LogLevel {
        match self {
            LogEntry::SidecarStarted => LogLevel::Info,
            LogEntry::SidecarNotFound { .. } => LogLevel::Warn,
            LogEntry::SidecarSpawnFailed { .. } => LogLevel::Warn,
        }
    }

    pub fn level(&self) -> (l: LogLevel)
        ensures
            l == self.spec_level(),
    {
        match self {
            LogEntry::SidecarStarted => LogLevel::Info,
            LogEntry::SidecarNotFound { .. } => LogLevel::Warn,
            LogEntry::SidecarSpawnFailed { .. } => LogLevel::Warn,
        }
    }
}

/// What the platform layer reported when asked to resolve the sidecar key.
#[derive(Clone, Debug, PartialEq, Eq)]
pub enum ResolveOutcome {
    Found,
    NotFound { detail: String },
}

/// What the operating system reported for the single spawn attempt.
#[derive(Clone, Debug, PartialEq, Eq)]
pub enum SpawnOutcome {
    Spawned,
    Failed { detail: String },
}

/// What the caller driving the supervisor must do next.
#[derive(Clone, Debug, PartialEq, Eq)]
pub enum Action {
    /// The sidecar command resolved; request the spawn and perform it.
    Spawn,
    /// The supervisor is finished and application setup continues.
    Continue,
    /// Application startup must abort with the given diagnostic.
    Abort { detail: String },
}

/// The state a supervisor run ends in, given what the platform layer
/// reported. The spawn outcome matters only when resolution succeeded.
pub open spec fn spec_supervisor_state(resolution: ResolveOutcome, spawn: SpawnOutcome)
    -> SupervisorState {
    match resolution {
        ResolveOutcome::NotFound { .. } => SupervisorState::ResolutionFailed,
        ResolveOutcome::Found => match spawn {
            SpawnOutcome::Spawned => SupervisorState::Running,
            SpawnOutcome::Failed { .. } => SupervisorState::SpawnFailed,
        },
    }
}

/// How many spawn attempts a run makes: one when the command resolved,
/// none otherwise.
pub open spec fn spec_supervisor_attempts(resolution: ResolveOutcome) -> nat {
    if resolution is Found {
        1
    } else {
        0
    }
}

/// The log a run produces. Success is logged under either policy; a
/// failure is logged only under the tolerant one, which carries the
/// platform layer's detail string into the entry.
pub open spec fn spec_supervisor_log(
    variant: Variant,
    resolution: ResolveOutcome,
    spawn: SpawnOutcome,
) -> Seq<LogEntry> {
    match resolution {
        ResolveOutcome::NotFound { detail } => if variant is Tolerant {
            seq![LogEntry::SidecarNotFound { detail }]
        } else {
            Seq::empty()
        },
        ResolveOutcome::Found => match spawn {
            SpawnOutcome::Spawned => seq![LogEntry::SidecarStarted],
            SpawnOutcome::Failed { detail } => if variant is Tolerant {
                seq![LogEntry::SidecarSpawnFailed { detail }]
            } else {
                Seq::empty()
            },
        },
    }
}

/// Whether a run asks the application to abort startup: only the strict
/// policy ever does, and exactly when the sidecar did not end up running.
pub open spec fn spec_supervisor_aborts(
    variant: Variant,
    resolution: ResolveOutcome,
    spawn: SpawnOutcome,
) -> bool {
    variant is Strict && spec_supervisor_state(resolution, spawn) !is Running
}

/// A single-shot supervisor for the sidecar lifecycle.
///
/// Starting it twice in one process is unsupported: `begin` requires the
/// initial state, so a finished supervisor can never be driven again.
#[derive(Debug)]
pub struct Supervisor {
    pub variant: Variant,
    pub state: SupervisorState,
    /// How many times a spawn has been requested; never exceeds one.
    pub spawn_attempts: u32,
    /// The log entries produced so far, oldest first.
    pub log: Vec<LogEntry>,
}

impl Supervisor {
    /// Well-formedness: the spawn counter and the log agree with the state.
    /// Only a tolerant supervisor records failures; either policy records
    /// a successful start.
    pub open spec fn inv(self) -> bool {
        &&& self.spawn_attempts <= 1
        &&& (self.state is NotStarted || self.state is Resolving || self.state is Resolved
            || self.state is ResolutionFailed) ==> self.spawn_attempts == 0
        &&& (self.state is Spawning || self.state is Running || self.state is SpawnFailed)
            ==> self.spawn_attempts == 1
        &&& match self.state {
            SupervisorState::NotStarted => self.log@.len() == 0,
            SupervisorState::Resolving => self.log@.len() == 0,
            SupervisorState::Resolved => self.log@.len() == 0,
            SupervisorState::Spawning => self.log@.len() == 0,
            SupervisorState::ResolutionFailed => if self.variant is Tolerant {
                self.log@.len() == 1 && self.log@[0] is SidecarNotFound
            } else {
                self.log@.len() == 0
            },
            SupervisorState::Running => self.log@.len() == 1
                && self.log@[0] is SidecarStarted,
            SupervisorState::SpawnFailed => if self.variant is Tolerant {
                self.log@.len() == 1 && self.log@[0] is SidecarSpawnFailed
            } else {
                self.log@.len() == 0
            },
        }
    }

    pub fn new(variant: Variant) -> (s: Supervisor)
        ensures
            s.inv(),
            s.variant == variant,
            s.state is NotStarted,
            s.spawn_attempts == 0,
            s.log@.len() == 0,
    {
        Supervisor {
            variant,
            state: SupervisorState::NotStarted,
            spawn_attempts: 0,
            log: Vec::new(),
        }
    }

    /// Start resolving the sidecar command; hands back the lookup key the
    /// platform layer should resolve.
    pub fn begin(&mut self) -> (key: &'static str)
        requires
            old(self).inv(),
            old(self).state is NotStarted,
        ensures
            final(self).inv(),
            final(self).state is Resolving,
            final(self).variant == old(self).variant,
            final(self).spawn_attempts == old(self).spawn_attempts,
            final(self).log@ == old(self).log@,
            key@ == crate::spec_sidecar_name(),
    {
        self.state = SupervisorState::Resolving;
        crate::sidecar_name()
    }

    /// Record the outcome of resolution. A failure is fatal under the
    /// strict policy and a logged warning under the tolerant one.
    pub fn on_resolution(&mut self, outcome: ResolveOutcome) -> (a: Action)
        requires
            old(self).inv(),
            old(self).state is Resolving,
        ensures
            final(self).inv(),
            final(self).variant == old(self).variant,
            final(self).spawn_attempts == old(self).spawn_attempts,
            outcome is Found ==> {
                &&& final(self).state is Resolved
                &&& final(self).log@ == old(self).log@
                &&& a is Spawn
            },
            outcome matches ResolveOutcome::NotFound { detail } ==> {
                &&& final(self).state is ResolutionFailed
                &&& (old(self).variant is Strict ==> final(self).log@ == old(self).log@
                    && a == (Action::Abort { detail }))
                &&& (old(self).variant is Tolerant ==> final(self).log@ == old(self).log@.push(
                    (LogEntry::SidecarNotFound { detail }),
                ) && a is Continue)
            },
    {
        match outcome {
            ResolveOutcome::Found => {
                self.state = SupervisorState::Resolved;
                Action::Spawn
            },
            ResolveOutcome::NotFound { detail } => {
                self.state = SupervisorState::ResolutionFailed;
                match self.variant {
                    Variant::Strict => Action::Abort { detail },
                    Variant::Tolerant => {
                        self.log.push(LogEntry::SidecarNotFound { detail });
                        Action::Continue
                    },
                }
            },
        }
    }

    /// Count the one spawn attempt the supervisor will ever make, just
    /// before the caller performs it.
    pub fn request_spawn(&mut self)
        requires
            old(self).inv(),
            old(self).state is Resolved,
        ensures
            final(self).inv(),
            final(self).variant == old(self).variant,
            final(self).state is Spawning,
            final(self).spawn_attempts == old(self).spawn_attempts + 1,
            final(self).log@ == old(self).log@,
    {
        self.state = SupervisorState::Spawning;
        self.spawn_attempts = self.spawn_attempts + 1;
    }

    /// Record the outcome of the spawn attempt. Success is logged at info
    /// level; a failure is fatal under the strict policy and a logged
    /// warning under the tolerant one.
    pub fn on_spawn(&mut self, outcome: SpawnOutcome) -> (a: Action)
        requires
            old(self).inv(),
            old(self).state is Spawning,
        ensures
            final(self).inv(),
            final(self).variant == old(self).variant,
            final(self).spawn_attempts == old(self).spawn_attempts,
            outcome is Spawned ==> {
                &&& final(self).state is Running
                &&& final(self).log@ == old(self).log@.push(LogEntry::SidecarStarted)
                &&& a is Continue
            },
            outcome matches SpawnOutcome::Failed { detail } ==> {
                &&& final(self).state is SpawnFailed
                &&& (old(self).variant is Strict ==> final(self).log@ == old(self).log@
                    && a == (Action::Abort { detail }))
                &&& (old(self).variant is Tolerant ==> final(self).log@ == old(self).log@.push(
                    (LogEntry::SidecarSpawnFailed { detail }),
                ) && a is Continue)
            },
    {
        match outcome {
            SpawnOutcome::Spawned => {
                self.state = SupervisorState::Running;
                self.log.push(LogEntry::SidecarStarted);
                Action::Continue
            },
            SpawnOutcome::Failed { detail } => {
                self.state = SupervisorState::SpawnFailed;
                match self.variant {
                    Variant::Strict => Action::Abort { detail },
                    Variant::Tolerant => {
                        self.log.push(LogEntry::SidecarSpawnFailed { detail });
                        Action::Continue
                    },
                }
            },
        }
    }
}

/// Drive a fresh supervisor through one complete run, the outcomes of the
/// two outside steps being given. `spawn` stands for what the operating
/// system would answer the one spawn attempt; it is consumed only when
/// resolution succeeded.
pub fn run_supervisor(variant: Variant, resolution: ResolveOutcome, spawn: SpawnOutcome) -> (r: (
    Supervisor,
    Action,
))
    ensures
        r.0.inv(),
        r.0.variant == variant,
        r.0.state == spec_supervisor_state(resolution, spawn),
        r.0.spawn_attempts == spec_supervisor_attempts(resolution),
        r.0.log@ == spec_supervisor_log(variant, resolution, spawn),
        r.1 !is Spawn,
        r.1 is Abort <==> spec_supervisor_aborts(variant, resolution, spawn),
        variant is Strict ==> (resolution matches ResolveOutcome::NotFound { detail } ==> r.1 == (
        Action::Abort { detail })),
        variant is Strict && resolution is Found ==> (spawn matches SpawnOutcome::Failed { detail }
            ==> r.1 == (Action::Abort { detail })),
{
    let mut supervisor = Supervisor::new(variant);
    let _key = supervisor.begin();
    let action = supervisor.on_resolution(resolution);
    let action = match action {
        Action::Spawn => {
            supervisor.request_spawn();
            supervisor.on_spawn(spawn)
        },
        other => other,
    };
    proof {
        assert(supervisor.log@ =~= spec_supervisor_log(variant, resolution, spawn));
    }
    (supervisor, action)
}

/// At most one sidecar spawn attempt occurs per application launch,
/// whatever the policy and whatever the platform layer reports.
pub proof fn lemma_at_most_one_spawn_attempt(resolution: ResolveOutcome)
    ensures
        spec_supervisor_attempts(resolution) <= 1,
{
}

/// Exactly one info-level log entry is produced when the spawn attempt
/// succeeds, and an info-level entry appears only on that outcome — never
/// after a resolution or spawn failure.
pub proof fn lemma_info_logged_exactly_on_success(
    variant: Variant,
    resolution: ResolveOutcome,
    spawn: SpawnOutcome,
)
    ensures
        resolution is Found && spawn is Spawned ==> {
            &&& spec_supervisor_log(variant, resolution, spawn).len() == 1
            &&& spec_supervisor_log(variant, resolution, spawn)[0].spec_level() is Info
        },
        forall|i: int|
            0 <= i < spec_supervisor_log(variant, resolution, spawn).len()
                && (#[trigger] spec_supervisor_log(variant, resolution, spawn)[i].spec_level())
                is Info ==> resolution is Found && spawn is Spawned,
{
}

} // verus!
