use crate::compositor::{lemma_selection_leaves_logging, CompositorSettings, WindowType};
use crate::env_var::EnvVar;
use crate::log_options::LoggingEnvVars;
use crate::overlay::{effective_value, lemma_overlay_wins, EnvPair, EnvironmentOverlay};
use crate::process::{
    ProcessHandle, ProcessState, SpawnError, SpawnOutcome, TerminateError, WaitOutcome,
};
use crate::pump::{OutputPump, PhaseView, PumpState};
use vstd::prelude::*;
use vstd::string::*;

verus! {

/// How one of the standard streams of the child is connected.
#[derive(Debug, PartialEq, Eq, Clone, Copy, Structural)]
pub enum Redirection {
    /// Not connected to the panel, which neither feeds nor reads it.
    Disconnected,
    /// Connected to a pipe that the panel reads.
    Pipe,
    /// Sent wherever the other output stream goes.
    Merge,
}

/// Everything the host needs to start the service: the executable, looked up
/// on the search path and run without arguments, the environment laid over
/// the inherited one, and the connection of the three standard streams.
pub struct SpawnRequest {
    pub executable: String,
    pub overlay: EnvironmentOverlay,
    pub stdin: Redirection,
    pub stdout: Redirection,
    pub stderr: Redirection,
}

/// What the host has to do for a start request, in this order: signal and
/// collect the child named by `terminate`, if there is one, then start the
/// service as `request` says.
pub struct StartPlan {
    pub terminate: Option<u32>,
    pub request: SpawnRequest,
}

/// Whether a child is held and alive.
pub open spec fn running(process: Option<ProcessState>) -> bool {
    process matches Some(state) && state.alive
}

/// The child that a start request has the host end first: the one that runs.
pub open spec fn replaced_by_start(process: Option<ProcessState>) -> Option<u32> {
    if running(process) {
        Some(process->Some_0.pid)
    } else {
        None
    }
}

/// What an instance holds once the host has reported how the start went: the
/// new child, its output already bound to a pump, or nothing where the start
/// failed.
pub open spec fn after_start(outcome: SpawnOutcome) -> Option<ProcessState> {
    match outcome {
        SpawnOutcome::Started(pid) => Some(
            ProcessState { pid, alive: true, pipe_available: false },
        ),
        SpawnOutcome::Failed(_) => None,
    }
}

/// What a stop request is answered with: the child to signal and collect
/// where one runs, `NotRunning` where none does.
pub open spec fn stop_result(process: Option<ProcessState>) -> Result<u32, TerminateError> {
    if running(process) {
        Ok(process->Some_0.pid)
    } else {
        Err(TerminateError::NotRunning)
    }
}

/// Whether the child `pid` runs.
pub open spec fn runs(process: Option<ProcessState>, pid: u32) -> bool {
    running(process) && process->Some_0.pid == pid
}

/// What the host is told when it reports how the stop of `pid` went: that no
/// such child runs, that the child is gone, or that it is still there.
pub open spec fn stop_report(process: Option<ProcessState>, pid: u32, confirmed: bool) -> Result<
    (),
    TerminateError,
> {
    if !runs(process, pid) {
        Err(TerminateError::NotRunning)
    } else if confirmed {
        Ok(())
    } else {
        Err(TerminateError::Failed)
    }
}

/// What an instance holds after the host has reported how the stop of `pid`
/// went: nothing where that child ran and the host has signalled and
/// collected it, and what it held before in every other case.
pub open spec fn after_stop(process: Option<ProcessState>, pid: u32, confirmed: bool) -> Option<
    ProcessState,
> {
    if runs(process, pid) && confirmed {
        None
    } else {
        process
    }
}

/// Whether a restart may go on to start the new child, once the host has
/// reported how ending the child `pid` went: only where that child is gone,
/// or was not running in the first place.
pub open spec fn restart_goes_on(
    process: Option<ProcessState>,
    pid: u32,
    confirmed: bool,
) -> bool {
    confirmed || !runs(process, pid)
}

/// What an instance holds after a wait on its child came back.
pub open spec fn after_probe(process: Option<ProcessState>, outcome: WaitOutcome) -> Option<
    ProcessState,
> {
    match process {
        Some(state) => Some(state.observe(outcome)),
        None => None,
    }
}

/// A stop request on an instance that runs no child is answered with
/// `NotRunning`, and no report changes such an instance; so is the stop
/// request that follows a confirmed stop. A stop that the host could not
/// carry out leaves the child with the instance, and the result says so.
pub proof fn lemma_stop_is_idempotent(process: Option<ProcessState>, pid: u32, confirmed: bool)
    ensures
        !running(process) ==> stop_result(process) == Err::<u32, TerminateError>(
            TerminateError::NotRunning,
        ) && after_stop(process, pid, confirmed) == process,
        running(process) ==> stop_result(after_stop(process, process->Some_0.pid, true)) == Err::<
            u32,
            TerminateError,
        >(TerminateError::NotRunning),
        after_stop(process, pid, false) == process,
        runs(process, pid) ==> stop_report(process, pid, false) == Err::<(), TerminateError>(
            TerminateError::Failed,
        ),
        after_stop(after_stop(process, pid, confirmed), pid, confirmed) == after_stop(
            process,
            pid,
            confirmed,
        ),
{
}

/// After a start and a confirmed stop the instance runs nothing, and the next
/// start finds nothing of the earlier child to end: it brings up the new
/// child whenever the host can.
pub proof fn lemma_restart_after_stop(first: u32, second: u32)
    ensures
        running(after_start(SpawnOutcome::Started(first))),
        stop_result(after_start(SpawnOutcome::Started(first))) == Ok::<u32, TerminateError>(first),
        !running(after_stop(after_start(SpawnOutcome::Started(first)), first, true)),
        replaced_by_start(after_stop(after_start(SpawnOutcome::Started(first)), first, true))
            is None,
        running(after_start(SpawnOutcome::Started(second))),
        after_start(SpawnOutcome::Started(second))->Some_0.pid == second,
{
}

/// A start request on an instance that runs a child has that child ended
/// first, and the instance runs a child before the request and after it,
/// provided the host can bring up the new one; it never holds two.
pub proof fn lemma_start_while_running_restarts(process: Option<ProcessState>, pid: u32)
    requires
        running(process),
    ensures
        replaced_by_start(process) == Some(process->Some_0.pid),
        running(after_start(SpawnOutcome::Started(pid))),
        after_start(SpawnOutcome::Started(pid))->Some_0.pid == pid,
{
}

/// A restart goes on only when the old child has been ended: while the child
/// that the plan named still runs and the host could not end it, the new one
/// is not started, so that the instance never runs two.
pub proof fn lemma_restart_waits_for_the_end(process: Option<ProcessState>)
    requires
        running(process),
    ensures
        replaced_by_start(process) == Some(process->Some_0.pid),
        !restart_goes_on(process, process->Some_0.pid, false),
        restart_goes_on(process, process->Some_0.pid, true),
{
}

/// A start that fails leaves the instance stopped.
pub proof fn lemma_failed_start_leaves_stopped(error: SpawnError)
    ensures
        !running(after_start(SpawnOutcome::Failed(error))),
        after_start(SpawnOutcome::Failed(error)) is None,
{
}

/// Where the panel and an instance both set the logging level of the
/// compositor, the service sees the level of the instance.
pub proof fn lemma_instance_level_counts(instance: MonadoInstance, logging_env_vars: LoggingEnvVars)
    ensures
        effective_value(instance.overlay(&logging_env_vars), "XRT_COMPOSITOR_LOG"@) == Some(
            instance.env_vars.logging_env_vars.compositor_log.name(),
        ),
{
    let key = "XRT_COMPOSITOR_LOG"@;
    let own = instance.env_vars.logging_env_vars.overlay();
    let selection = instance.env_vars.window_type.overlay();
    lemma_selection_leaves_logging(instance.env_vars.window_type);
    lemma_overlay_wins(own, selection, key);
    assert(own.last().0 == key);
    lemma_overlay_wins(logging_env_vars.overlay(), own + selection, key);
}

/// One named supervision unit: how the service is configured, and the child
/// that runs under that configuration, if any.
pub struct MonadoInstance {
    pub env_vars: EnvVar,
    pub compositor_settings: CompositorSettings,
    pub child: Option<ProcessHandle>,
}

impl MonadoInstance {
    /// What is known of the child that the instance holds.
    pub open spec fn process(&self) -> Option<ProcessState> {
        match self.child {
            Some(handle) => Some(handle@),
            None => None,
        }
    }

    /// The same configuration.
    pub open spec fn same_config(&self, other: &MonadoInstance) -> bool {
        &&& self.env_vars == other.env_vars
        &&& self.compositor_settings == other.compositor_settings
    }

    /// The pairs that the service is started with: the logging levels of the
    /// panel, then the instance's own configuration, which counts where both
    /// set a key.
    pub open spec fn overlay(&self, logging_env_vars: &LoggingEnvVars) -> Seq<EnvPair> {
        logging_env_vars.overlay() + self.env_vars.overlay()
    }

    /// Whether `request` starts the service for this instance: the
    /// executable `monado-service`, with the instance's environment, its
    /// input not connected, its output piped and its errors merged into the
    /// output.
    pub open spec fn is_request_of(
        &self,
        logging_env_vars: &LoggingEnvVars,
        request: SpawnRequest,
    ) -> bool {
        &&& request.executable@ == "monado-service"@
        &&& request.overlay@ == self.overlay(logging_env_vars)
        &&& request.stdin == Redirection::Disconnected
        &&& request.stdout == Redirection::Pipe
        &&& request.stderr == Redirection::Merge
    }

    /// An instance as it comes out of its stored configuration: with no
    /// child.
    pub fn create_load(env_vars: EnvVar, compositor_settings: CompositorSettings) -> (instance:
        Self)
        ensures
            instance.env_vars == env_vars,
            instance.compositor_settings == compositor_settings,
            instance.child is None,
    {
        MonadoInstance { env_vars, compositor_settings, child: None }
    }

    /// Whether the instance runs a child.
    pub fn is_alive(&self) -> (alive: bool)
        ensures
            alive == running(self.process()),
    {
        match &self.child {
            Some(handle) => handle.is_alive(),
            None => false,
        }
    }

    /// Takes in the outcome of a wait on the instance's child and says
    /// whether the instance runs a child after it.
    pub fn observe(&mut self, outcome: WaitOutcome) -> (alive: bool)
        ensures
            final(self).process() == after_probe(old(self).process(), outcome),
            final(self).same_config(old(self)),
            alive == running(final(self).process()),
    {
        match &mut self.child {
            Some(handle) => handle.observe(outcome),
            None => false,
        }
    }

    /// The request that starts the service for this instance.
    pub fn spawn_request(&self, logging_env_vars: &LoggingEnvVars) -> (request: SpawnRequest)
        ensures
            self.is_request_of(logging_env_vars, request),
    {
        let mut command = EnvironmentOverlay::new();
        command = logging_env_vars.set_vars(command);
        command = self.env_vars.set_vars(command);
        assert(command@ =~= self.overlay(logging_env_vars));
        SpawnRequest {
            executable: String::from_str("monado-service"),
            overlay: command,
            stdin: Redirection::Disconnected,
            stdout: Redirection::Pipe,
            stderr: Redirection::Merge,
        }
    }

    /// The first half of a start: what the host has to do. A child that runs
    /// is to be ended first, so that the request restarts the service. The
    /// instance itself changes only when the host reports back, through
    /// `spawn_finished`.
    pub fn start_monado(&self, logging_env_vars: &LoggingEnvVars) -> (plan: StartPlan)
        ensures
            plan.terminate == replaced_by_start(self.process()),
            self.is_request_of(logging_env_vars, plan.request),
    {
        let terminate = match &self.child {
            Some(handle) => if handle.is_alive() {
                Some(handle.pid())
            } else {
                None
            },
            None => None,
        };
        StartPlan { terminate, request: self.spawn_request(logging_env_vars) }
    }

    /// Between the two halves of a restart: takes in whether the host has
    /// signalled and collected the child `pid` that the plan named, and says
    /// whether the host may go on to start the new one. It may not while the
    /// old child still runs: an instance never runs two. The instance itself
    /// does not change.
    pub fn restart_confirmed(&self, pid: u32, confirmed: bool) -> (go_on: bool)
        ensures
            go_on == restart_goes_on(self.process(), pid, confirmed),
    {
        let held = match &self.child {
            Some(handle) => handle.is_alive() && handle.pid() == pid,
            None => false,
        };
        confirmed || !held
    }

    /// The second half of a start: takes in how the host fared. Where the
    /// child came up the instance holds it, in place of any earlier one, and
    /// the result is the pump bound to its output; where it did not, the
    /// instance holds nothing and the result is the error.
    pub fn spawn_finished(&mut self, outcome: SpawnOutcome) -> (pump: Result<
        OutputPump,
        SpawnError,
    >)
        ensures
            final(self).process() == after_start(outcome),
            final(self).same_config(old(self)),
            match outcome {
                SpawnOutcome::Started(pid) => pump is Ok && pump->Ok_0@ == (PumpState {
                    pid,
                    phase: PhaseView::Probing,
                }),
                SpawnOutcome::Failed(error) => pump is Err && pump->Err_0 == error,
            },
    {
        match ProcessHandle::spawn(outcome) {
            Ok(handle) => {
                let mut handle = handle;
                let pipe = handle.take_output_pipe().unwrap();
                self.child = Some(handle);
                Ok(OutputPump::new(pipe))
            },
            Err(error) => {
                self.child = None;
                Err(error)
            },
        }
    }

    /// The first half of a stop: the identifier of the child that the host
    /// must signal and collect, or `NotRunning` where none runs. The instance
    /// changes only when the host reports back, through `kill_finished`.
    pub fn kill_monado(&self) -> (order: Result<u32, TerminateError>)
        ensures
            order == stop_result(self.process()),
    {
        match &self.child {
            Some(handle) => handle.terminate(),
            None => Err(TerminateError::NotRunning),
        }
    }

    /// The second half of a stop: takes in whether the host has signalled and
    /// collected the child `pid`. Only then does the instance let go of it. A
    /// child that could not be ended stays with the instance and the result
    /// is `Failed`; a report about a child that the instance does not run
    /// changes nothing and the result is `NotRunning`.
    pub fn kill_finished(&mut self, pid: u32, confirmed: bool) -> (done: Result<
        (),
        TerminateError,
    >)
        ensures
            done == stop_report(old(self).process(), pid, confirmed),
            final(self).process() == after_stop(old(self).process(), pid, confirmed),
            !(runs(old(self).process(), pid) && confirmed) ==> final(self).child == old(self).child,
            final(self).same_config(old(self)),
    {
        let held = match &self.child {
            Some(handle) => handle.is_alive() && handle.pid() == pid,
            None => false,
        };
        if !held {
            Err(TerminateError::NotRunning)
        } else if confirmed {
            self.child = None;
            Ok(())
        } else {
            Err(TerminateError::Failed)
        }
    }
}

impl Default for MonadoInstance {
    fn default() -> (instance: Self)
        ensures
            instance.child is None,
            instance.env_vars.logging_env_vars == LoggingEnvVars::initial(),
            instance.env_vars.window_type == WindowType::Auto,
            instance.compositor_settings.forcing.is_unset(),
    {
        MonadoInstance {
            env_vars: EnvVar::default(),
            compositor_settings: CompositorSettings::default(),
            child: None,
        }
    }
}

} // verus!
