use crate::ansi::{ansi_pieces, parse_ansi, plain_of, plain_text};
use crate::instance::{
    after_start, after_stop, replaced_by_start, restart_goes_on, running, stop_report,
    stop_result, StartPlan,
};
use crate::process::{SpawnOutcome, TerminateError};
use crate::pump::{OutputPump, PhaseView, PumpState};
use crate::registry::StartError;
use crate::rex_app::RexApp;
use vstd::prelude::*;
use vstd::string::*;

verus! {

/// What the control buttons offer.
#[derive(Debug, PartialEq, Eq, Clone, Copy, Structural)]
pub struct ControlButtons {
    /// Whether the start button can be pressed.
    pub start_enabled: bool,
    /// Whether the start button restarts a service that runs.
    pub restarts: bool,
    /// Whether the stop button can be pressed.
    pub stop_enabled: bool,
}

/// Whether the selected instance runs a child.
pub open spec fn monado_active(state: &RexApp) -> bool {
    state.has_current() && running(state.current().process())
}

/// What the control buttons offer in this state: a start wherever an instance
/// is selected, which is a restart where its service runs, and a stop only
/// there.
pub fn buttons(state: &RexApp) -> (shown: ControlButtons)
    ensures
        shown.start_enabled == state.has_current(),
        shown.restarts == monado_active(state),
        shown.stop_enabled == monado_active(state),
{
    match &state.current_instance {
        Some(name) => {
            let instance_active = state.instances.contains(name);
            let active = state.instances.is_alive(name);
            ControlButtons {
                start_enabled: instance_active,
                restarts: active,
                stop_enabled: active,
            }
        },
        None => ControlButtons { start_enabled: false, restarts: false, stop_enabled: false },
    }
}

/// The start button was pressed: the first half of a start of the selected
/// instance. With an instance selected the console is emptied and the result
/// is what the host has to do; a service that runs is to be ended first.
/// Without one nothing happens.
pub fn start_clicked(state: &mut RexApp) -> (plan: Option<StartPlan>)
    ensures
        final(state).same_but_console(old(state)),
        plan is Some <==> old(state).has_current(),
        !old(state).has_current() ==> final(state).console@ == old(state).console@,
        plan matches Some(plan) ==> {
            &&& final(state).console@ == Seq::<char>::empty()
            &&& plan.terminate == replaced_by_start(old(state).current().process())
            &&& old(state).current().is_request_of(&old(state).logging_env_vars, plan.request)
        },
{
    let plan = match &state.current_instance {
        Some(name) => state.instances.start(name, &state.logging_env_vars),
        None => None,
    };
    if plan.is_some() {
        state.console = String::new();
    }
    plan
}

/// Between the two halves of a restart of the selected instance: takes in
/// whether the host has signalled and collected the child `pid` that the plan
/// named, and says whether the host may go on to start the new one. It may
/// not while the old child still runs, nor without a selected instance. The
/// panel does not change.
pub fn restart_confirmed(state: &RexApp, pid: u32, confirmed: bool) -> (go_on: bool)
    ensures
        go_on == (state.has_current() && restart_goes_on(
            state.current().process(),
            pid,
            confirmed,
        )),
{
    match &state.current_instance {
        Some(name) => state.instances.restart_confirmed(name, pid, confirmed),
        None => false,
    }
}

/// The second half of a start of the selected instance: takes in how the host
/// fared. Where the child came up the instance holds it, in place of any
/// earlier one, and the result is the pump bound to its output; where it did
/// not, the instance holds nothing and the result is the error. Without a
/// selected instance nothing changes.
pub fn start_finished(state: &mut RexApp, outcome: SpawnOutcome) -> (pump: Result<
    OutputPump,
    StartError,
>)
    ensures
        final(state).same_but_instances(old(state)),
        !old(state).has_current() ==> final(state).instances@ == old(state).instances@ && pump
            == Err::<OutputPump, StartError>(StartError::UnknownInstance),
        old(state).has_current() ==> {
            &&& final(state).instances@ == old(state).instances@.insert(
                old(state).selected()->Some_0,
                final(state).current(),
            )
            &&& final(state).current().process() == after_start(outcome)
            &&& final(state).current().same_config(&old(state).current())
            &&& match outcome {
                SpawnOutcome::Started(pid) => pump is Ok && pump->Ok_0@ == (PumpState {
                    pid,
                    phase: PhaseView::Probing,
                }),
                SpawnOutcome::Failed(error) => pump == Err::<OutputPump, StartError>(
                    StartError::Spawn(error),
                ),
            }
        },
{
    match &state.current_instance {
        Some(name) => state.instances.spawn_finished(name, outcome),
        None => Err(StartError::UnknownInstance),
    }
}

/// The stop button was pressed: the first half of a stop of the selected
/// instance. The result is the identifier of the child that the host must
/// signal and collect, or `NotRunning` where the service of the selected
/// instance does not run. The panel changes only when the host reports back,
/// through `stop_finished`.
pub fn stop_clicked(state: &RexApp) -> (order: Result<u32, TerminateError>)
    ensures
        !state.has_current() ==> order == Err::<u32, TerminateError>(TerminateError::NotRunning),
        state.has_current() ==> order == stop_result(state.current().process()),
{
    match &state.current_instance {
        Some(name) => state.instances.stop(name),
        None => Err(TerminateError::NotRunning),
    }
}

/// The second half of a stop of the selected instance: takes in whether the
/// host has signalled and collected the child `pid`. Only then does the
/// instance let go of it. A child that could not be ended stays with the
/// instance and the result is `Failed`; a report about a child that the
/// selected instance does not run changes nothing and the result is
/// `NotRunning`.
pub fn stop_finished(state: &mut RexApp, pid: u32, confirmed: bool) -> (done: Result<
    (),
    TerminateError,
>)
    ensures
        final(state).same_but_instances(old(state)),
        !old(state).has_current() ==> final(state).instances@ == old(state).instances@ && done
            == Err::<(), TerminateError>(TerminateError::NotRunning),
        old(state).has_current() ==> {
            &&& final(state).instances@ == old(state).instances@.insert(
                old(state).selected()->Some_0,
                final(state).current(),
            )
            &&& done == stop_report(old(state).current().process(), pid, confirmed)
            &&& final(state).current().process() == after_stop(
                old(state).current().process(),
                pid,
                confirmed,
            )
            &&& final(state).current().same_config(&old(state).current())
        },
{
    match &state.current_instance {
        Some(name) => state.instances.stop_finished(name, pid, confirmed),
        None => Err(TerminateError::NotRunning),
    }
}

/// The clear button was pressed: the console is emptied.
pub fn clear_clicked(state: &mut RexApp)
    ensures
        final(state).console@ == Seq::<char>::empty(),
        final(state).same_but_console(old(state)),
{
    state.console = String::new();
}

/// The copy button was pressed: the text of the console without its escape
/// sequences, for the clipboard.
pub fn copy_clicked(state: &RexApp) -> (copied: String)
    ensures
        copied@ == plain_of(ansi_pieces(state.console@)),
{
    let pieces = parse_ansi(state.console.as_str());
    plain_text(&pieces)
}

} // verus!
