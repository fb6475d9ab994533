use crate::channel::send_line;
use crate::process::{OutputPipe, WaitOutcome};
use std::sync::mpsc::SyncSender;
use vstd::prelude::*;
use vstd::string::*;

verus! {

/// Why a pump came to its end.
#[derive(Debug, PartialEq, Eq, Clone, Copy, Structural)]
pub enum PumpExit {
    /// The child was found not to be alive.
    ChildExited,
    /// The pipe could not be opened, or a read from it failed.
    PipeFailed,
    /// The receiving end of the channel is gone.
    ChannelClosed,
}

/// Where a pump stands in its round.
#[derive(Debug, PartialEq, Eq, Clone)]
pub enum PumpPhase {
    /// About to ask whether the child is alive.
    Probing,
    /// About to open the read end of the pipe.
    Opening,
    /// About to read one line.
    Reading,
    /// Holding a line that is to go into the channel.
    Sending(String),
    /// At its end: nothing more is read or sent.
    Finished(PumpExit),
}

/// What the host reports back to a pump.
#[derive(Debug, PartialEq, Eq, Clone)]
pub enum PumpEvent {
    /// The outcome of the wait on the child.
    Probed(WaitOutcome),
    /// Whether the read end of the pipe could be opened.
    PipeOpened(bool),
    /// The line that was read, terminator included, or `None` where the read
    /// failed. A read at the end of the stream gives an empty line.
    LineRead(Option<String>),
    /// Whether the channel took the line.
    Sent(bool),
}

/// What a pump asks of its host.
#[derive(Debug, PartialEq, Eq, Clone)]
pub enum PumpCommand {
    /// Wait on this child without blocking.
    Probe(u32),
    /// Open the read end of the pipe.
    OpenPipe,
    /// Read one line, blocking until it is there.
    ReadLine,
    /// Put this line into the channel.
    Forward(String),
    /// Leave the loop.
    Stop(PumpExit),
}

/// A phase, with the held line as a sequence of characters.
pub enum PhaseView {
    Probing,
    Opening,
    Reading,
    Sending(Seq<char>),
    Finished(PumpExit),
}

/// An event, with the line as a sequence of characters.
pub enum Signal {
    Probed(WaitOutcome),
    PipeOpened(bool),
    LineRead(Option<Seq<char>>),
    Sent(bool),
}

/// A command, with the line as a sequence of characters.
pub enum Order {
    Probe(u32),
    OpenPipe,
    ReadLine,
    Forward(Seq<char>),
    Stop(PumpExit),
}

impl View for PumpPhase {
    type V = PhaseView;

    open spec fn view(&self) -> PhaseView {
        match self {
            PumpPhase::Probing => PhaseView::Probing,
            PumpPhase::Opening => PhaseView::Opening,
            PumpPhase::Reading => PhaseView::Reading,
            PumpPhase::Sending(line) => PhaseView::Sending(line@),
            PumpPhase::Finished(exit) => PhaseView::Finished(*exit),
        }
    }
}

impl View for PumpEvent {
    type V = Signal;

    open spec fn view(&self) -> Signal {
        match self {
            PumpEvent::Probed(outcome) => Signal::Probed(*outcome),
            PumpEvent::PipeOpened(opened) => Signal::PipeOpened(*opened),
            PumpEvent::LineRead(Some(line)) => Signal::LineRead(Some(line@)),
            PumpEvent::LineRead(None) => Signal::LineRead(None),
            PumpEvent::Sent(delivered) => Signal::Sent(*delivered),
        }
    }
}

impl View for PumpCommand {
    type V = Order;

    open spec fn view(&self) -> Order {
        match self {
            PumpCommand::Probe(pid) => Order::Probe(*pid),
            PumpCommand::OpenPipe => Order::OpenPipe,
            PumpCommand::ReadLine => Order::ReadLine,
            PumpCommand::Forward(line) => Order::Forward(line@),
            PumpCommand::Stop(exit) => Order::Stop(*exit),
        }
    }
}

/// The phase that follows `phase` on `signal`. A signal that the phase did
/// not ask for changes nothing.
pub open spec fn next_phase(phase: PhaseView, signal: Signal) -> PhaseView {
    match (phase, signal) {
        (PhaseView::Probing, Signal::Probed(WaitOutcome::StillAlive)) => PhaseView::Opening,
        (PhaseView::Probing, Signal::Probed(_)) => PhaseView::Finished(PumpExit::ChildExited),
        (PhaseView::Opening, Signal::PipeOpened(true)) => PhaseView::Reading,
        (PhaseView::Opening, Signal::PipeOpened(false)) => PhaseView::Finished(
            PumpExit::PipeFailed,
        ),
        (PhaseView::Reading, Signal::LineRead(Some(line))) => if line.len() == 0 {
            PhaseView::Probing
        } else {
            PhaseView::Sending(line)
        },
        (PhaseView::Reading, Signal::LineRead(None)) => PhaseView::Finished(PumpExit::PipeFailed),
        (PhaseView::Sending(_), Signal::Sent(true)) => PhaseView::Probing,
        (PhaseView::Sending(_), Signal::Sent(false)) => PhaseView::Finished(
            PumpExit::ChannelClosed,
        ),
        (unchanged, _) => unchanged,
    }
}

/// The state of a pump: the child it is bound to and its phase.
pub struct PumpState {
    pub pid: u32,
    pub phase: PhaseView,
}

impl PumpState {
    /// The state after `signal`.
    pub open spec fn step(self, signal: Signal) -> PumpState {
        PumpState { pid: self.pid, phase: next_phase(self.phase, signal) }
    }

    /// What the pump asks of its host in this state.
    pub open spec fn order(self) -> Order {
        match self.phase {
            PhaseView::Probing => Order::Probe(self.pid),
            PhaseView::Opening => Order::OpenPipe,
            PhaseView::Reading => Order::ReadLine,
            PhaseView::Sending(line) => Order::Forward(line),
            PhaseView::Finished(exit) => Order::Stop(exit),
        }
    }

    /// The state after each of `signals`, first to last.
    pub open spec fn run(self, signals: Seq<Signal>) -> PumpState
        decreases signals.len(),
    {
        if signals.len() == 0 {
            self
        } else {
            self.run(signals.drop_last()).step(signals.last())
        }
    }

    /// The lines that the pump took from the pipe to send on while it went
    /// through `signals`: the lines read that were not empty, in the order in
    /// which they were read.
    pub open spec fn accepted(self, signals: Seq<Signal>) -> Seq<Seq<char>>
        decreases signals.len(),
    {
        if signals.len() == 0 {
            Seq::empty()
        } else {
            let before = self.run(signals.drop_last());
            let lines = self.accepted(signals.drop_last());
            match (before.phase, signals.last()) {
                (PhaseView::Reading, Signal::LineRead(Some(line))) => if line.len() == 0 {
                    lines
                } else {
                    lines.push(line)
                },
                _ => lines,
            }
        }
    }

    /// The lines that the channel took from the pump while it went through
    /// `signals`, in the order in which it took them.
    pub open spec fn delivered(self, signals: Seq<Signal>) -> Seq<Seq<char>>
        decreases signals.len(),
    {
        if signals.len() == 0 {
            Seq::empty()
        } else {
            let before = self.run(signals.drop_last());
            let lines = self.delivered(signals.drop_last());
            match (before.phase, signals.last()) {
                (PhaseView::Sending(line), Signal::Sent(true)) => lines.push(line),
                _ => lines,
            }
        }
    }
}

/// A pump that has come to its end stays there: whatever is reported to it
/// afterwards, it takes no further line from the pipe, hands none to the
/// channel, and asks only to stop.
pub proof fn lemma_finished_is_final(state: PumpState, signals: Seq<Signal>)
    requires
        state.phase is Finished,
    ensures
        state.run(signals) == state,
        state.accepted(signals) == Seq::<Seq<char>>::empty(),
        state.delivered(signals) == Seq::<Seq<char>>::empty(),
        state.order() is Stop,
    decreases signals.len(),
{
    if signals.len() > 0 {
        lemma_finished_is_final(state, signals.drop_last());
    }
}

/// A line goes to the channel only when it has been read and is not empty:
/// the pump holds a line to send after a step exactly if it read that line
/// in this step, or held it before and was not told how the sending went.
pub proof fn lemma_forward_follows_read(state: PumpState, signal: Signal, line: Seq<char>)
    ensures
        state.step(signal).phase == PhaseView::Sending(line) <==> {
            ||| state.phase is Reading && signal == Signal::LineRead(Some(line)) && line.len() > 0
            ||| state.phase == PhaseView::Sending(line) && !(signal is Sent)
        },
{
}

/// The channel is handed the lines in the order in which the pump read them,
/// each once: what it has taken is always the front part of what the pump has
/// read, short by at most the one line in hand. Unless the channel has
/// closed, a pump that holds no line has delivered all that it read; so a
/// pump that ends because the child is gone has lost nothing.
pub proof fn lemma_delivery_keeps_reading_order(state: PumpState, signals: Seq<Signal>)
    requires
        !(state.phase is Sending),
    ensures
        state.delivered(signals).is_prefix_of(state.accepted(signals)),
        state.accepted(signals).len() <= state.delivered(signals).len() + 1,
        state.run(signals).phase matches PhaseView::Sending(line) ==> state.accepted(signals)
            == state.delivered(signals).push(line),
        !(state.run(signals).phase is Sending) && state.run(signals).phase != PhaseView::Finished(
            PumpExit::ChannelClosed,
        ) ==> state.accepted(signals) == state.delivered(signals),
    decreases signals.len(),
{
    if signals.len() > 0 {
        let earlier = signals.drop_last();
        lemma_delivery_keeps_reading_order(state, earlier);
        let before = state.run(earlier);
        let read = state.accepted(earlier);
        let sent = state.delivered(earlier);
        assert(sent.is_prefix_of(read.push(signals.last()->LineRead_0->Some_0))) by {
            assert(read.push(signals.last()->LineRead_0->Some_0).subrange(0, sent.len() as int)
                =~= read.subrange(0, sent.len() as int));
        }
        match before.phase {
            PhaseView::Sending(line) => {
                assert(read == sent.push(line));
                assert(sent.push(line).is_prefix_of(read)) by {
                    assert(read.subrange(0, read.len() as int) =~= read);
                }
            },
            _ => {},
        }
    }
}

/// The loop that carries the output of one child into the channel, as a
/// machine that the host drives: the host does what the pump asks and reports
/// the outcome, and the pump decides what comes next.
#[derive(Debug)]
pub struct OutputPump {
    pid: u32,
    phase: PumpPhase,
}

impl View for OutputPump {
    type V = PumpState;

    closed spec fn view(&self) -> PumpState {
        PumpState { pid: self.pid, phase: self.phase@ }
    }
}

impl OutputPump {
    /// The pump for the child whose output `pipe` is, about to make its first
    /// probe.
    pub fn new(pipe: OutputPipe) -> (pump: Self)
        ensures
            pump@ == (PumpState { pid: pipe.source(), phase: PhaseView::Probing }),
    {
        OutputPump { pid: pipe.pid(), phase: PumpPhase::Probing }
    }

    /// What the host has to do now.
    pub fn command(&self) -> (command: PumpCommand)
        ensures
            command@ == self@.order(),
    {
        match &self.phase {
            PumpPhase::Probing => PumpCommand::Probe(self.pid),
            PumpPhase::Opening => PumpCommand::OpenPipe,
            PumpPhase::Reading => PumpCommand::ReadLine,
            PumpPhase::Sending(line) => PumpCommand::Forward(line.clone()),
            PumpPhase::Finished(exit) => PumpCommand::Stop(*exit),
        }
    }

    /// Whether the pump has come to its end.
    pub fn is_finished(&self) -> (finished: bool)
        ensures
            finished == (self@.phase is Finished),
    {
        match &self.phase {
            PumpPhase::Finished(_) => true,
            _ => false,
        }
    }

    /// Takes in what the host reports and says what it has to do next.
    pub fn step(&mut self, event: PumpEvent) -> (command: PumpCommand)
        ensures
            final(self)@ == old(self)@.step(event@),
            command@ == final(self)@.order(),
    {
        let next: Option<PumpPhase> = match (&self.phase, event) {
            (PumpPhase::Probing, PumpEvent::Probed(outcome)) => match outcome {
                WaitOutcome::StillAlive => Some(PumpPhase::Opening),
                WaitOutcome::Exited => Some(PumpPhase::Finished(PumpExit::ChildExited)),
                WaitOutcome::NoChild => Some(PumpPhase::Finished(PumpExit::ChildExited)),
            },
            (PumpPhase::Opening, PumpEvent::PipeOpened(opened)) => if opened {
                Some(PumpPhase::Reading)
            } else {
                Some(PumpPhase::Finished(PumpExit::PipeFailed))
            },
            (PumpPhase::Reading, PumpEvent::LineRead(read)) => match read {
                Some(line) => if line.as_str().is_empty() {
                    Some(PumpPhase::Probing)
                } else {
                    Some(PumpPhase::Sending(line))
                },
                None => Some(PumpPhase::Finished(PumpExit::PipeFailed)),
            },
            (PumpPhase::Sending(_), PumpEvent::Sent(delivered)) => if delivered {
                Some(PumpPhase::Probing)
            } else {
                Some(PumpPhase::Finished(PumpExit::ChannelClosed))
            },
            _ => None,
        };
        match next {
            Some(phase) => {
                self.phase = phase;
            },
            None => {},
        }
        self.command()
    }

    /// Puts the held line into the channel and goes on with the outcome, as
    /// `step` does with `Sent`. A pump that holds no line does nothing.
    pub fn deliver(&mut self, sender: &SyncSender<String>) -> (command: PumpCommand)
        ensures
            old(self)@.phase is Sending ==> final(self)@ == old(self)@.step(Signal::Sent(true))
                || final(self)@ == old(self)@.step(Signal::Sent(false)),
            !(old(self)@.phase is Sending) ==> final(self)@ == old(self)@,
            command@ == final(self)@.order(),
    {
        match self.command() {
            PumpCommand::Forward(line) => {
                let delivered = send_line(sender, line);
                self.step(PumpEvent::Sent(delivered))
            },
            pending => pending,
        }
    }
}

} // verus!
