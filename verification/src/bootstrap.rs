//! The application bootstrapper: the decisions made during setup — attach
//! the debug logger, run the sidecar supervisor, enter the event loop —
//! modelled as a function of the outcomes the environment reports.
//!
//! The outside steps themselves (registering plugins with the GUI runtime,
//! resolving and spawning the backend, running the event loop) are performed
//! by the embedding program, which feeds their outcomes in and acts on the
//! report that comes back.

use vstd::prelude::*;

use crate::supervisor::run_supervisor;
use crate::supervisor::spec_supervisor_attempts;
use crate::supervisor::spec_supervisor_log;
use crate::supervisor::spec_supervisor_state;
use crate::supervisor::Action;
use crate::supervisor::LogEntry;
use crate::supervisor::LogLevel;
use crate::supervisor::ResolveOutcome;
use crate::supervisor::SpawnOutcome;
use crate::supervisor::Supervisor;
use crate::supervisor::SupervisorState;
use crate::supervisor::Variant;

verus! {

/// Why application setup aborted. The detail string carries the underlying
/// layer's own description of the failure.
#[derive(Clone, Debug, PartialEq, Eq)]
pub enum SetupError {
    /// Registering the debug logger failed; fatal under either policy.
    LoggerRegistration { detail: String },
    /// The sidecar command did not resolve; fatal under the strict policy.
    SidecarResolution { detail: String },
    /// The spawn attempt failed; fatal under the strict policy.
    SidecarSpawn { detail: String },
}

/// Everything setup decided: whether the log plugin was registered, the
/// finished supervisor, and whether setup completed or aborted.
#[derive(Debug)]
pub struct SetupReport {
    pub log_plugin_registered: bool,
    pub supervisor: Supervisor,
    pub result: Result<(), SetupError>,
}

/// A whole launch: the setup report, whether the event loop was entered,
/// and whether the process exits cleanly.
#[derive(Debug)]
pub struct LaunchReport {
    pub setup: SetupReport,
    pub event_loop_entered: bool,
    pub exit_ok: bool,
}

/// When setup completes: the debug logger (attempted only in debug builds)
/// must register, and under the strict policy the sidecar must both
/// resolve and spawn.
pub open spec fn spec_setup_ok(
    variant: Variant,
    debug: bool,
    logger_registration: Result<(), String>,
    resolution: ResolveOutcome,
    spawn: SpawnOutcome,
) -> bool {
    &&& debug ==> logger_registration is Ok
    &&& variant is Strict ==> (resolution is Found && spawn is Spawned)
}

/// The full contract of `run_setup`, as a predicate on its report, so that
/// laws about setup can be stated of any report the routine can produce.
pub open spec fn setup_post(
    variant: Variant,
    debug: bool,
    logger_registration: Result<(), String>,
    resolution: ResolveOutcome,
    spawn: SpawnOutcome,
    r: SetupReport,
) -> bool {
    &&& r.supervisor.inv()
    &&& r.supervisor.variant == variant
    &&& r.log_plugin_registered == (debug && logger_registration is Ok)
    &&& (r.result is Ok <==> spec_setup_ok(variant, debug, logger_registration, resolution, spawn))
    &&& debug && logger_registration is Err ==> {
        &&& r.supervisor.state is NotStarted
        &&& r.supervisor.spawn_attempts == 0
        &&& r.supervisor.log@.len() == 0
        &&& (logger_registration matches Err(detail) ==> r.result == Err::<(), SetupError>(
            (SetupError::LoggerRegistration { detail }),
        ))
    }
    &&& !(debug && logger_registration is Err) ==> {
        &&& r.supervisor.state == spec_supervisor_state(resolution, spawn)
        &&& r.supervisor.spawn_attempts == spec_supervisor_attempts(resolution)
        &&& r.supervisor.log@ == spec_supervisor_log(variant, resolution, spawn)
        &&& (variant is Strict ==> (resolution matches ResolveOutcome::NotFound { detail }
            ==> r.result == Err::<(), SetupError>((SetupError::SidecarResolution { detail }))))
        &&& (variant is Strict && resolution is Found ==> (spawn matches SpawnOutcome::Failed {
            detail } ==> r.result == Err::<(), SetupError>((SetupError::SidecarSpawn { detail }))))
    }
}

/// The setup callback: in a debug build the logger must have registered
/// (a failure aborts setup before the supervisor runs, under either
/// policy); then the supervisor runs once, and its verdict decides whether
/// setup completes.
///
/// `logger_registration` is what registering the log plugin reported; it is
/// consulted only in a debug build, since a release build registers no log
/// plugin. `spawn` is what the one spawn attempt would report; it is
/// consumed only when resolution succeeded.
pub fn run_setup(
    variant: Variant,
    debug: bool,
    logger_registration: Result<(), String>,
    resolution: ResolveOutcome,
    spawn: SpawnOutcome,
) -> (r: SetupReport)
    ensures
        setup_post(variant, debug, logger_registration, resolution, spawn, r),
{
    let mut log_plugin_registered = false;
    if debug {
        match logger_registration {
            Ok(()) => {
                log_plugin_registered = true;
            },
            Err(detail) => {
                return SetupReport {
                    log_plugin_registered: false,
                    supervisor: Supervisor::new(variant),
                    result: Err(SetupError::LoggerRegistration { detail }),
                };
            },
        }
    }
    let (supervisor, action) = run_supervisor(variant, resolution, spawn);
    let result = match action {
        Action::Abort { detail } => match supervisor.state {
            SupervisorState::ResolutionFailed => Err(SetupError::SidecarResolution { detail }),
            _ => Err(SetupError::SidecarSpawn { detail }),
        },
        _ => Ok(()),
    };
    SetupReport { log_plugin_registered, supervisor, result }
}

/// The contract of `launch` as a predicate: the setup contract, plus the
/// event loop being entered exactly when setup completed, and a clean exit
/// exactly when the event loop also started without error.
pub open spec fn launch_post(
    variant: Variant,
    debug: bool,
    logger_registration: Result<(), String>,
    resolution: ResolveOutcome,
    spawn: SpawnOutcome,
    event_loop: Result<(), String>,
    r: LaunchReport,
) -> bool {
    &&& setup_post(variant, debug, logger_registration, resolution, spawn, r.setup)
    &&& r.event_loop_entered == r.setup.result is Ok
    &&& r.exit_ok == (r.setup.result is Ok && event_loop is Ok)
}

/// One whole application launch: run setup, and enter the event loop only
/// if setup completed. `event_loop` is what starting the event loop would
/// report; it is consulted only when the loop is entered. The process
/// exits cleanly exactly when setup completed and the loop ran.
pub fn launch(
    variant: Variant,
    debug: bool,
    logger_registration: Result<(), String>,
    resolution: ResolveOutcome,
    spawn: SpawnOutcome,
    event_loop: Result<(), String>,
) -> (r: LaunchReport)
    ensures
        launch_post(variant, debug, logger_registration, resolution, spawn, event_loop, r),
{
    let setup = run_setup(variant, debug, logger_registration, resolution, spawn);
    let event_loop_entered = setup.result.is_ok();
    let exit_ok = event_loop_entered && event_loop.is_ok();
    LaunchReport { setup, event_loop_entered, exit_ok }
}

/// The verbosity the log plugin is registered at: informational in a debug
/// build, and no plugin at all in a release build.
pub fn log_plugin_level(debug: bool) -> (level: Option<LogLevel>)
    ensures
        debug ==> level == Some(LogLevel::Info),
        !debug ==> level is None,
{
    if debug {
        Some(LogLevel::Info)
    } else {
        None
    }
}

/// The log entries an operator can see: all of them in a debug build, none
/// in a release build, where no log plugin is registered and every log call
/// is a no-op.
pub open spec fn spec_visible_log(debug: bool, log: Seq<LogEntry>) -> Seq<LogEntry> {
    if debug {
        log
    } else {
        Seq::empty()
    }
}

/// Filter the produced log down to what is visible in this build.
pub fn visible_log(debug: bool, log: Vec<LogEntry>) -> (r: Vec<LogEntry>)
    ensures
        r@ == spec_visible_log(debug, log@),
{
    if debug {
        log
    } else {
        let empty: Vec<LogEntry> = Vec::new();
        proof {
            assert(empty@ =~= Seq::<LogEntry>::empty());
        }
        empty
    }
}

/// Strict policy: when sidecar resolution fails, setup aborts and the
/// event loop is never entered.
pub proof fn lemma_strict_resolution_failure_blocks_event_loop(
    debug: bool,
    logger_registration: Result<(), String>,
    resolution: ResolveOutcome,
    spawn: SpawnOutcome,
    event_loop: Result<(), String>,
    r: LaunchReport,
)
    requires
        launch_post(Variant::Strict, debug, logger_registration, resolution, spawn, event_loop, r),
        resolution is NotFound,
    ensures
        r.setup.result is Err,
        !r.event_loop_entered,
{
}

/// Strict policy: when the spawn attempt fails after successful
/// resolution, setup likewise aborts and the event loop is never entered.
pub proof fn lemma_strict_spawn_failure_blocks_event_loop(
    debug: bool,
    logger_registration: Result<(), String>,
    resolution: ResolveOutcome,
    spawn: SpawnOutcome,
    event_loop: Result<(), String>,
    r: LaunchReport,
)
    requires
        launch_post(Variant::Strict, debug, logger_registration, resolution, spawn, event_loop, r),
        resolution is Found,
        spawn is Failed,
    ensures
        r.setup.result is Err,
        !r.event_loop_entered,
{
}

/// Tolerant policy: a resolution failure is not fatal — setup completes,
/// the event loop is entered, and no spawn is ever attempted. (Debug
/// logger registration, the one step fatal under either policy, is assumed
/// to have succeeded.)
pub proof fn lemma_tolerant_resolution_failure_still_launches(
    debug: bool,
    logger_registration: Result<(), String>,
    resolution: ResolveOutcome,
    spawn: SpawnOutcome,
    event_loop: Result<(), String>,
    r: LaunchReport,
)
    requires
        launch_post(
            Variant::Tolerant,
            debug,
            logger_registration,
            resolution,
            spawn,
            event_loop,
            r,
        ),
        resolution is NotFound,
        debug ==> logger_registration is Ok,
    ensures
        r.setup.result is Ok,
        r.event_loop_entered,
        r.setup.supervisor.spawn_attempts == 0,
{
}

/// Tolerant policy: a spawn failure after successful resolution is not
/// fatal — setup completes, the event loop is entered, exactly one
/// warning-level entry is logged, and no second spawn attempt is made.
/// (Debug logger registration is assumed to have succeeded.)
pub proof fn lemma_tolerant_spawn_failure_logs_one_warning(
    debug: bool,
    logger_registration: Result<(), String>,
    resolution: ResolveOutcome,
    spawn: SpawnOutcome,
    event_loop: Result<(), String>,
    r: LaunchReport,
)
    requires
        launch_post(
            Variant::Tolerant,
            debug,
            logger_registration,
            resolution,
            spawn,
            event_loop,
            r,
        ),
        resolution is Found,
        spawn is Failed,
        debug ==> logger_registration is Ok,
    ensures
        r.setup.result is Ok,
        r.event_loop_entered,
        r.setup.supervisor.log@.len() == 1,
        r.setup.supervisor.log@[0].spec_level() is Warn,
        r.setup.supervisor.spawn_attempts == 1,
{
}

/// Debug build with a working sidecar: the visible log holds exactly one
/// entry, at info level, confirming the sidecar started. That the entry
/// appears only once the spawn has succeeded is stated by
/// `lemma_info_logged_exactly_on_success`.
pub proof fn lemma_debug_success_shows_one_info_line(
    variant: Variant,
    logger_registration: Result<(), String>,
    resolution: ResolveOutcome,
    spawn: SpawnOutcome,
    r: SetupReport,
)
    requires
        setup_post(variant, true, logger_registration, resolution, spawn, r),
        logger_registration is Ok,
        resolution is Found,
        spawn is Spawned,
    ensures
        spec_visible_log(true, r.supervisor.log@).len() == 1,
        spec_visible_log(true, r.supervisor.log@)[0] is SidecarStarted,
        spec_visible_log(true, r.supervisor.log@)[0].spec_level() is Info,
{
}

/// Release build: no log plugin is registered and no log line is visible,
/// whatever the sidecar outcome and whichever policy is in force.
pub proof fn lemma_release_build_logs_nothing(
    variant: Variant,
    logger_registration: Result<(), String>,
    resolution: ResolveOutcome,
    spawn: SpawnOutcome,
    r: SetupReport,
)
    requires
        setup_post(variant, false, logger_registration, resolution, spawn, r),
    ensures
        !r.log_plugin_registered,
        spec_visible_log(false, r.supervisor.log@).len() == 0,
{
}

/// At most one spawn attempt occurs per launch, under both policies, in
/// both build configurations, whatever the environment reports.
pub proof fn lemma_launch_spawns_at_most_once(
    variant: Variant,
    debug: bool,
    logger_registration: Result<(), String>,
    resolution: ResolveOutcome,
    spawn: SpawnOutcome,
    r: SetupReport,
)
    requires
        setup_post(variant, debug, logger_registration, resolution, spawn, r),
    ensures
        r.supervisor.spawn_attempts <= 1,
{
}

} // verus!
