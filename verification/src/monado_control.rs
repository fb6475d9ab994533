use crate::channel::another_sender;
use crate::control_panel::ControlButtons;
use crate::env_var::EnvVar;
use crate::instance::{Redirection, SpawnRequest};
use crate::overlay::EnvironmentOverlay;
use crate::process::{ProcessHandle, TerminateError};
use std::sync::mpsc::SyncSender;
use vstd::prelude::*;
use vstd::string::*;

verus! {

/// The control section of the panel: it keeps the sending end of the output
/// channel, from which every pump gets a sender of its own.
pub struct MonadoControl {
    pub stdout_sender: SyncSender<String>,
}

impl MonadoControl {
    /// The section that sends on `sender`.
    pub fn new(sender: SyncSender<String>) -> (control: Self)
        ensures
            control.stdout_sender == sender,
    {
        MonadoControl { stdout_sender: sender }
    }

    /// Another sender into the same channel, for a pump to hold.
    pub fn sender(&self) -> (sender: SyncSender<String>)
        ensures
            sender == self.stdout_sender,
    {
        another_sender(&self.stdout_sender)
    }
}

/// The request that starts the service with the environment of
/// `monado_env_var` alone: its input not connected, its output piped and its
/// errors merged into the output.
pub fn start_monado(monado_env_var: &EnvVar) -> (request: SpawnRequest)
    ensures
        request.executable@ == "monado-service"@,
        request.overlay@ == monado_env_var.overlay(),
        request.stdin == Redirection::Disconnected,
        request.stdout == Redirection::Pipe,
        request.stderr == Redirection::Merge,
{
    let command = monado_env_var.set_vars(EnvironmentOverlay::new());
    assert(command@ =~= monado_env_var.overlay());
    SpawnRequest {
        executable: String::from_str("monado-service"),
        overlay: command,
        stdin: Redirection::Disconnected,
        stdout: Redirection::Pipe,
        stderr: Redirection::Merge,
    }
}

/// What the control section offers for the child it holds: a start only
/// without a child, a stop and a restart only with one.
pub fn buttons(child: &Option<ProcessHandle>) -> (shown: ControlButtons)
    ensures
        shown.start_enabled == (*child is None),
        shown.stop_enabled == (*child is Some),
        shown.restarts == (*child is Some),
{
    let held = child.is_some();
    ControlButtons { start_enabled: !held, restarts: held, stop_enabled: held }
}

/// The first half of a stop of `child`: the identifier that the host must
/// signal and collect, or `NotRunning` where the child is no longer held.
pub fn kill_monado(child: &ProcessHandle) -> (order: Result<u32, TerminateError>)
    ensures
        order == child@.termination(),
{
    child.terminate()
}

/// The second half of a stop: takes in whether the host has signalled and
/// collected the child. Only then does the section let go of it; a child
/// that could not be ended stays. A slot whose child is no longer held is
/// emptied.
pub fn release(child: &mut Option<ProcessHandle>, confirmed: bool) -> (done: Result<
    (),
    TerminateError,
>)
    ensures
        *old(child) matches Some(handle) ==> done == handle@.termination_report(confirmed),
        *old(child) is None ==> done == Err::<(), TerminateError>(TerminateError::NotRunning),
        done == Err::<(), TerminateError>(TerminateError::Failed) ==> *final(child) == *old(child),
        done != Err::<(), TerminateError>(TerminateError::Failed) ==> *final(child) is None,
{
    let done = match child {
        Some(handle) => handle.terminate(),
        None => Err(TerminateError::NotRunning),
    };
    match done {
        Ok(_) => if confirmed {
            *child = None;
            Ok(())
        } else {
            Err(TerminateError::Failed)
        },
        Err(error) => {
            *child = None;
            Err(error)
        },
    }
}

} // verus!
