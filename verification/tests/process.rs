use monado_gui::monado_control::{buttons, kill_monado, release};
use monado_gui::process::{
    ProcessHandle, SpawnError, SpawnOutcome, TerminateError, WaitOutcome,
};

#[test]
fn spawned_child_is_alive() {
    let handle = ProcessHandle::spawned(4711);
    assert_eq!(handle.pid(), 4711);
    assert!(handle.is_alive());
    assert!(handle.needs_probe());
}

#[test]
fn spawn_reports_the_child() {
    let handle = ProcessHandle::spawn(SpawnOutcome::Started(12)).unwrap();
    assert_eq!(handle.pid(), 12);
    assert!(handle.is_alive());
}

#[test]
fn spawn_surfaces_not_found() {
    let failed = ProcessHandle::spawn(SpawnOutcome::Failed(SpawnError::NotFound));
    assert_eq!(failed.err(), Some(SpawnError::NotFound));
}

#[test]
fn spawn_surfaces_refusal() {
    let failed = ProcessHandle::spawn(SpawnOutcome::Failed(SpawnError::Refused));
    assert_eq!(failed.err(), Some(SpawnError::Refused));
}

#[test]
fn probe_of_a_running_child_changes_nothing() {
    let mut handle = ProcessHandle::spawned(5);
    assert!(handle.observe(WaitOutcome::StillAlive));
    assert!(handle.observe(WaitOutcome::StillAlive));
    assert!(handle.is_alive());
    assert_eq!(handle.pid(), 5);
}

#[test]
fn exit_is_seen_once_and_stays() {
    let mut handle = ProcessHandle::spawned(5);
    assert!(!handle.observe(WaitOutcome::Exited));
    assert!(!handle.is_alive());
    assert!(!handle.needs_probe());
    assert!(!handle.observe(WaitOutcome::StillAlive));
    assert!(!handle.observe(WaitOutcome::NoChild));
    assert!(!handle.is_alive());
    assert_eq!(handle.pid(), 5);
}

#[test]
fn missing_child_counts_as_gone() {
    let mut handle = ProcessHandle::spawned(5);
    assert!(!handle.observe(WaitOutcome::NoChild));
    assert!(!handle.is_alive());
}

#[test]
fn terminate_names_the_child() {
    let mut handle = ProcessHandle::spawned(77);
    assert_eq!(handle.terminate(), Ok(77));
    assert!(handle.is_alive());
    assert_eq!(handle.terminate_finished(true), Ok(()));
    assert!(!handle.is_alive());
    assert_eq!(handle.pid(), 77);
}

#[test]
fn terminate_twice_reports_not_running() {
    let mut handle = ProcessHandle::spawned(77);
    assert_eq!(handle.terminate(), Ok(77));
    assert_eq!(handle.terminate_finished(true), Ok(()));
    assert_eq!(handle.terminate(), Err(TerminateError::NotRunning));
    assert_eq!(handle.terminate_finished(true), Err(TerminateError::NotRunning));
    assert_eq!(handle.terminate(), Err(TerminateError::NotRunning));
    assert_eq!(handle.terminate_finished(false), Err(TerminateError::NotRunning));
}

#[test]
fn failed_termination_keeps_the_child() {
    let mut handle = ProcessHandle::spawned(77);
    assert_eq!(handle.terminate(), Ok(77));
    assert_eq!(handle.terminate_finished(false), Err(TerminateError::Failed));
    assert!(handle.is_alive());
    assert!(handle.needs_probe());
    assert_eq!(handle.terminate(), Ok(77));
    assert_eq!(handle.terminate_finished(true), Ok(()));
    assert!(!handle.is_alive());
}

#[test]
fn terminate_after_exit_reports_not_running() {
    let mut handle = ProcessHandle::spawned(77);
    handle.observe(WaitOutcome::Exited);
    assert_eq!(handle.terminate(), Err(TerminateError::NotRunning));
    assert_eq!(handle.terminate_finished(true), Err(TerminateError::NotRunning));
}

#[test]
fn probe_after_terminate_is_tolerated() {
    let mut handle = ProcessHandle::spawned(77);
    assert_eq!(handle.terminate(), Ok(77));
    assert_eq!(handle.terminate_finished(true), Ok(()));
    assert!(!handle.observe(WaitOutcome::NoChild));
    assert!(!handle.observe(WaitOutcome::Exited));
    assert!(!handle.observe(WaitOutcome::StillAlive));
}

#[test]
fn output_pipe_is_handed_out_once() {
    let mut handle = ProcessHandle::spawned(31);
    let pipe = handle.take_output_pipe();
    assert_eq!(pipe.map(|p| p.pid()), Some(31));
    assert!(handle.take_output_pipe().is_none());
    assert!(handle.is_alive());
}

#[test]
fn control_section_stops_its_child() {
    let mut child = Some(ProcessHandle::spawned(9));
    assert_eq!(kill_monado(child.as_ref().unwrap()), Ok(9));
    assert_eq!(release(&mut child, false), Err(TerminateError::Failed));
    assert!(child.as_ref().unwrap().is_alive());
    assert_eq!(kill_monado(child.as_ref().unwrap()), Ok(9));
    assert_eq!(release(&mut child, true), Ok(()));
    assert!(child.is_none());
    assert_eq!(release(&mut child, true), Err(TerminateError::NotRunning));
    assert!(child.is_none());
}

#[test]
fn control_section_empties_a_slot_whose_child_is_gone() {
    let mut handle = ProcessHandle::spawned(9);
    handle.observe(WaitOutcome::Exited);
    assert_eq!(kill_monado(&handle), Err(TerminateError::NotRunning));
    let mut child = Some(handle);
    assert_eq!(release(&mut child, false), Err(TerminateError::NotRunning));
    assert!(child.is_none());
}

#[test]
fn control_section_buttons() {
    let shown = buttons(&None);
    assert!(shown.start_enabled && !shown.stop_enabled && !shown.restarts);
    let shown = buttons(&Some(ProcessHandle::spawned(1)));
    assert!(!shown.start_enabled && shown.stop_enabled && shown.restarts);
}
