use vstd::prelude::*;

verus! {

/// Why a start request could not bring up a child.
#[derive(Debug, PartialEq, Eq, Clone, Copy, Structural)]
pub enum SpawnError {
    /// The executable was not found on the search path.
    NotFound,
    /// The system refused to create the process.
    Refused,
}

/// Why a termination request did nothing.
#[derive(Debug, PartialEq, Eq, Clone, Copy, Structural)]
pub enum TerminateError {
    /// No child is held.
    NotRunning,
    /// The host could not signal or collect the child, which is still held.
    Failed,
}

/// What the host found when it tried to start the child.
#[derive(Debug, PartialEq, Eq, Clone, Copy, Structural)]
pub enum SpawnOutcome {
    /// The child runs under this process identifier.
    Started(u32),
    /// The start failed.
    Failed(SpawnError),
}

/// What a wait on the child that does not block came back with.
#[derive(Debug, PartialEq, Eq, Clone, Copy, Structural)]
pub enum WaitOutcome {
    /// The child has not changed state.
    StillAlive,
    /// The child has ended and the wait collected its status.
    Exited,
    /// The system knows no such child: its status was collected elsewhere.
    NoChild,
}

/// What is known of a child process.
pub struct ProcessState {
    pub pid: u32,
    pub alive: bool,
    pub pipe_available: bool,
}

/// One child process: its identifier, whether it is still held, and whether
/// the read end of its output is still to be handed out.
#[derive(Debug)]
pub struct ProcessHandle {
    pid: u32,
    alive: bool,
    pipe_available: bool,
}

/// The right to read what one child writes. A handle gives it out once.
#[derive(Debug)]
pub struct OutputPipe {
    pid: u32,
}

impl OutputPipe {
    /// The child whose output this is.
    pub closed spec fn source(&self) -> u32 {
        self.pid
    }

    /// The identifier of the child whose output this is.
    pub fn pid(&self) -> (pid: u32)
        ensures
            pid == self.source(),
    {
        self.pid
    }
}

impl View for ProcessHandle {
    type V = ProcessState;

    closed spec fn view(&self) -> ProcessState {
        ProcessState { pid: self.pid, alive: self.alive, pipe_available: self.pipe_available }
    }
}

impl ProcessState {
    /// The state of a child that has just been started as `pid`.
    pub open spec fn started(pid: u32) -> ProcessState {
        ProcessState { pid, alive: true, pipe_available: true }
    }

    /// The state after a wait came back with `outcome`. A child that is no
    /// longer held stays so whatever a later wait claims.
    pub open spec fn observe(self, outcome: WaitOutcome) -> ProcessState {
        ProcessState { alive: self.alive && outcome == WaitOutcome::StillAlive, ..self }
    }

    /// What a termination request is answered with: the identifier to signal
    /// and collect where a child is held, and `NotRunning` where none is.
    pub open spec fn termination(self) -> Result<u32, TerminateError> {
        if self.alive {
            Ok(self.pid)
        } else {
            Err(TerminateError::NotRunning)
        }
    }

    /// What the host is told when it reports how the termination went: that
    /// no child was held, that the child is gone, or that it is still there.
    pub open spec fn termination_report(self, confirmed: bool) -> Result<(), TerminateError> {
        if !self.alive {
            Err(TerminateError::NotRunning)
        } else if confirmed {
            Ok(())
        } else {
            Err(TerminateError::Failed)
        }
    }

    /// The state after the host has reported how the termination went: the
    /// child is let go of only where the host has signalled and collected it.
    pub open spec fn terminate_finished(self, confirmed: bool) -> ProcessState {
        ProcessState { alive: self.alive && !confirmed, ..self }
    }
}

/// A child that has just been started is alive, and stays so for as long as
/// the waits on it find it running and nobody asks for its end.
pub proof fn lemma_started_child_is_alive(pid: u32)
    ensures
        ProcessState::started(pid).alive,
        ProcessState::started(pid).observe(WaitOutcome::StillAlive).alive,
{
}

/// Once a child is no longer held, no later wait brings it back, whatever it
/// reports.
pub proof fn lemma_end_is_final(state: ProcessState, outcome: WaitOutcome)
    requires
        !state.alive,
    ensures
        state.observe(outcome) == state,
{
}

/// A wait that finds the child gone, in either way, ends it; one that finds
/// it running changes nothing.
pub proof fn lemma_observe_cases(state: ProcessState)
    ensures
        state.observe(WaitOutcome::StillAlive) == state,
        !state.observe(WaitOutcome::Exited).alive,
        !state.observe(WaitOutcome::NoChild).alive,
{
}

/// Termination is idempotent: once the host has confirmed it, a further
/// request is answered with `NotRunning`; where no child is held it is
/// answered so at once, and no report changes anything. A termination that
/// the host could not carry out leaves the child held.
pub proof fn lemma_terminate_is_idempotent(state: ProcessState, confirmed: bool)
    ensures
        state.terminate_finished(true).termination() == Err::<u32, TerminateError>(
            TerminateError::NotRunning,
        ),
        !state.alive ==> state.termination() == Err::<u32, TerminateError>(
            TerminateError::NotRunning,
        ) && state.terminate_finished(confirmed) == state,
        state.alive ==> state.terminate_finished(false) == state && state.termination_report(
            false,
        ) == Err::<(), TerminateError>(TerminateError::Failed),
{
}

impl ProcessHandle {
    /// The handle of a child that the host has just started as `pid`: alive,
    /// with its output still to be taken.
    pub fn spawned(pid: u32) -> (handle: Self)
        ensures
            handle@ == ProcessState::started(pid),
    {
        ProcessHandle { pid, alive: true, pipe_available: true }
    }

    /// Turns what the host reports of a start into a handle, or into the
    /// error that the caller is owed.
    pub fn spawn(outcome: SpawnOutcome) -> (started: Result<Self, SpawnError>)
        ensures
            match outcome {
                SpawnOutcome::Started(pid) => started is Ok && started->Ok_0@
                    == ProcessState::started(pid),
                SpawnOutcome::Failed(error) => started is Err && started->Err_0 == error,
            },
    {
        match outcome {
            SpawnOutcome::Started(pid) => Ok(ProcessHandle::spawned(pid)),
            SpawnOutcome::Failed(error) => Err(error),
        }
    }

    /// The identifier that the child was started under.
    pub fn pid(&self) -> (pid: u32)
        ensures
            pid == self@.pid,
    {
        self.pid
    }

    /// Whether the child is still held: started, and neither seen to have
    /// ended nor terminated.
    pub fn is_alive(&self) -> (alive: bool)
        ensures
            alive == self@.alive,
    {
        self.alive
    }

    /// Whether the host should wait on the child at all: a child that is no
    /// longer held must not be waited on again.
    pub fn needs_probe(&self) -> (wanted: bool)
        ensures
            wanted == self@.alive,
    {
        self.alive
    }

    /// Takes in the outcome of a wait that did not block and says whether the
    /// child is alive after it.
    pub fn observe(&mut self, outcome: WaitOutcome) -> (alive: bool)
        ensures
            final(self)@ == old(self)@.observe(outcome),
            alive == final(self)@.alive,
    {
        if self.alive {
            match outcome {
                WaitOutcome::StillAlive => {},
                WaitOutcome::Exited => {
                    self.alive = false;
                },
                WaitOutcome::NoChild => {
                    self.alive = false;
                },
            }
        }
        self.alive
    }

    /// The first half of a termination: the identifier that the host must
    /// signal and then collect, or `NotRunning` where no child is held. The
    /// handle changes only when the host reports back, through
    /// `terminate_finished`.
    pub fn terminate(&self) -> (order: Result<u32, TerminateError>)
        ensures
            order == self@.termination(),
    {
        if self.alive {
            Ok(self.pid)
        } else {
            Err(TerminateError::NotRunning)
        }
    }

    /// The second half of a termination: takes in whether the host has
    /// signalled and collected the child. Only then does the handle let go of
    /// it; a child that could not be ended is still held, and the result
    /// says so.
    pub fn terminate_finished(&mut self, confirmed: bool) -> (done: Result<(), TerminateError>)
        ensures
            done == old(self)@.termination_report(confirmed),
            final(self)@ == old(self)@.terminate_finished(confirmed),
    {
        if !self.alive {
            Err(TerminateError::NotRunning)
        } else if confirmed {
            self.alive = false;
            Ok(())
        } else {
            Err(TerminateError::Failed)
        }
    }

    /// Hands out the right to read the child's output, the first time it is
    /// asked for.
    pub fn take_output_pipe(&mut self) -> (pipe: Option<OutputPipe>)
        ensures
            final(self)@ == (ProcessState { pipe_available: false, ..old(self)@ }),
            pipe is Some <==> old(self)@.pipe_available,
            pipe is Some ==> pipe->Some_0.source() == old(self)@.pid,
    {
        if self.pipe_available {
            self.pipe_available = false;
            Some(OutputPipe { pid: self.pid })
        } else {
            None
        }
    }
}

} // verus!
