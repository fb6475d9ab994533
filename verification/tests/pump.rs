use monado_gui::process::{ProcessHandle, WaitOutcome};
use monado_gui::pump::{OutputPump, PumpCommand, PumpEvent, PumpExit};
use std::sync::mpsc::sync_channel;

fn pump_for(pid: u32) -> OutputPump {
    let mut handle = ProcessHandle::spawned(pid);
    OutputPump::new(handle.take_output_pipe().unwrap())
}

fn line(text: &str) -> PumpEvent {
    PumpEvent::LineRead(Some(text.to_string()))
}

fn reading(pid: u32) -> OutputPump {
    let mut pump = pump_for(pid);
    pump.step(PumpEvent::Probed(WaitOutcome::StillAlive));
    pump.step(PumpEvent::PipeOpened(true));
    pump
}

#[test]
fn new_pump_probes_its_child() {
    let pump = pump_for(8);
    assert_eq!(pump.command(), PumpCommand::Probe(8));
    assert!(!pump.is_finished());
}

#[test]
fn one_round_of_the_pump() {
    let mut pump = pump_for(8);
    assert_eq!(pump.step(PumpEvent::Probed(WaitOutcome::StillAlive)), PumpCommand::OpenPipe);
    assert_eq!(pump.step(PumpEvent::PipeOpened(true)), PumpCommand::ReadLine);
    assert_eq!(pump.step(line("a\n")), PumpCommand::Forward("a\n".to_string()));
    assert_eq!(pump.command(), PumpCommand::Forward("a\n".to_string()));
    assert_eq!(pump.step(PumpEvent::Sent(true)), PumpCommand::Probe(8));
}

#[test]
fn dead_child_ends_the_pump() {
    let mut pump = pump_for(8);
    assert_eq!(
        pump.step(PumpEvent::Probed(WaitOutcome::Exited)),
        PumpCommand::Stop(PumpExit::ChildExited)
    );
    assert!(pump.is_finished());
    let mut pump = pump_for(8);
    assert_eq!(
        pump.step(PumpEvent::Probed(WaitOutcome::NoChild)),
        PumpCommand::Stop(PumpExit::ChildExited)
    );
    assert!(pump.is_finished());
}

#[test]
fn pipe_that_cannot_be_opened_ends_the_pump() {
    let mut pump = pump_for(8);
    pump.step(PumpEvent::Probed(WaitOutcome::StillAlive));
    assert_eq!(pump.step(PumpEvent::PipeOpened(false)), PumpCommand::Stop(PumpExit::PipeFailed));
    assert!(pump.is_finished());
}

#[test]
fn failed_read_ends_the_pump() {
    let mut pump = reading(8);
    assert_eq!(pump.step(PumpEvent::LineRead(None)), PumpCommand::Stop(PumpExit::PipeFailed));
    assert!(pump.is_finished());
}

#[test]
fn empty_read_is_tried_again() {
    let mut pump = reading(8);
    assert_eq!(pump.step(line("")), PumpCommand::Probe(8));
    assert!(!pump.is_finished());
    assert_eq!(pump.step(PumpEvent::Probed(WaitOutcome::StillAlive)), PumpCommand::OpenPipe);
    assert_eq!(pump.step(PumpEvent::PipeOpened(true)), PumpCommand::ReadLine);
}

#[test]
fn closed_channel_ends_the_pump() {
    let mut pump = reading(8);
    pump.step(line("x\n"));
    assert_eq!(pump.step(PumpEvent::Sent(false)), PumpCommand::Stop(PumpExit::ChannelClosed));
    assert!(pump.is_finished());
}

#[test]
fn finished_pump_stays_finished() {
    let mut pump = pump_for(8);
    pump.step(PumpEvent::Probed(WaitOutcome::Exited));
    let stop = PumpCommand::Stop(PumpExit::ChildExited);
    assert_eq!(pump.step(PumpEvent::Probed(WaitOutcome::StillAlive)), stop);
    assert_eq!(pump.step(PumpEvent::PipeOpened(true)), stop);
    assert_eq!(pump.step(line("late\n")), stop);
    assert_eq!(pump.step(PumpEvent::Sent(true)), stop);
    assert_eq!(pump.command(), stop);
    assert!(pump.is_finished());
}

#[test]
fn event_that_was_not_asked_for_changes_nothing() {
    let mut pump = pump_for(8);
    assert_eq!(pump.step(line("early\n")), PumpCommand::Probe(8));
    assert_eq!(pump.step(PumpEvent::Sent(false)), PumpCommand::Probe(8));
    assert_eq!(pump.step(PumpEvent::PipeOpened(false)), PumpCommand::Probe(8));
    let mut pump = reading(8);
    assert_eq!(pump.step(PumpEvent::Probed(WaitOutcome::Exited)), PumpCommand::ReadLine);
    pump.step(line("held\n"));
    assert_eq!(pump.step(line("other\n")), PumpCommand::Forward("held\n".to_string()));
    assert_eq!(
        pump.step(PumpEvent::Probed(WaitOutcome::Exited)),
        PumpCommand::Forward("held\n".to_string())
    );
}

#[test]
fn hello_then_exit() {
    let mut pump = pump_for(21);
    let mut forwarded: Vec<String> = Vec::new();
    let events = vec![
        PumpEvent::Probed(WaitOutcome::StillAlive),
        PumpEvent::PipeOpened(true),
        line("hello\n"),
        PumpEvent::Sent(true),
        PumpEvent::Probed(WaitOutcome::Exited),
    ];
    for event in events {
        if let PumpCommand::Forward(text) = pump.step(event) {
            forwarded.push(text);
        }
    }
    assert_eq!(forwarded, vec!["hello\n".to_string()]);
    assert_eq!(pump.command(), PumpCommand::Stop(PumpExit::ChildExited));
    assert!(pump.is_finished());
}

#[test]
fn hello_reaches_the_channel_once() {
    let (sender, receiver) = sync_channel::<String>(4);
    let mut pump = reading(21);
    pump.step(line("hello\n"));
    assert_eq!(pump.deliver(&sender), PumpCommand::Probe(21));
    assert_eq!(
        pump.step(PumpEvent::Probed(WaitOutcome::Exited)),
        PumpCommand::Stop(PumpExit::ChildExited)
    );
    assert_eq!(pump.deliver(&sender), PumpCommand::Stop(PumpExit::ChildExited));
    assert_eq!(receiver.try_recv().ok(), Some("hello\n".to_string()));
    assert!(receiver.try_recv().is_err());
}

#[test]
fn deliver_without_a_line_sends_nothing() {
    let (sender, receiver) = sync_channel::<String>(4);
    let mut pump = pump_for(3);
    assert_eq!(pump.deliver(&sender), PumpCommand::Probe(3));
    assert!(receiver.try_recv().is_err());
}

#[test]
fn deliver_to_a_dropped_receiver_ends_the_pump() {
    let (sender, receiver) = sync_channel::<String>(4);
    drop(receiver);
    let mut pump = reading(3);
    pump.step(line("lost\n"));
    assert_eq!(pump.deliver(&sender), PumpCommand::Stop(PumpExit::ChannelClosed));
    assert!(pump.is_finished());
}

#[test]
fn lines_keep_their_order_through_the_channel() {
    let (sender, receiver) = sync_channel::<String>(16);
    let mut pump = pump_for(5);
    let written = vec!["one\n", "two\n", "", "three\n", "four\n"];
    for text in &written {
        assert_eq!(pump.step(PumpEvent::Probed(WaitOutcome::StillAlive)), PumpCommand::OpenPipe);
        assert_eq!(pump.step(PumpEvent::PipeOpened(true)), PumpCommand::ReadLine);
        match pump.step(line(text)) {
            PumpCommand::Forward(held) => {
                assert_eq!(held, *text);
                assert_eq!(pump.deliver(&sender), PumpCommand::Probe(5));
            }
            other => assert_eq!(other, PumpCommand::Probe(5)),
        }
    }
    pump.step(PumpEvent::Probed(WaitOutcome::Exited));
    assert!(pump.is_finished());
    let mut received: Vec<String> = Vec::new();
    while let Ok(text) = receiver.try_recv() {
        received.push(text);
    }
    assert_eq!(received, vec!["one\n", "two\n", "three\n", "four\n"]);
    assert!(receiver.try_recv().is_err());
}
