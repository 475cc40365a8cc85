//! The script driver: a state machine that decides, event by event, what the
//! program around it must do next with the engine process.
//!
//! The driver never touches the process itself. It asks for an action
//! ([`Action`]); the caller performs it and reports the outcome as an
//! [`Event`]. Every failure is fatal to the run, but a run that started a
//! child always waits for that child before it ends.
use vstd::prelude::*;

use crate::condition::{satisfies, WaitCondition, WaitSpec};

verus! {

/// Why a run was aborted.
#[derive(Clone, Copy, Debug, PartialEq, Eq, Structural)]
pub enum Failure {
    /// The engine could not be launched.
    Spawn,
    /// A read, a write or the wait for exit failed on the transport.
    Io,
    /// The engine's output ended before the awaited line arrived.
    StreamClosed,
    /// An event that the current step cannot receive, or a child whose
    /// pipes were not captured.
    ProtocolViolation,
}

/// What the caller reports after performing an action.
#[derive(Debug, PartialEq, Eq)]
pub enum Event {
    /// The child was started and both of its pipes were taken.
    Spawned,
    /// The command line was handed to the child's input in full.
    Written,
    /// One line was read from the child's output, terminator included.
    LineRead(String),
    /// The child has exited and was reaped.
    Exited,
    /// The action failed.
    Failed(Failure),
}

/// An [`Event`] as a mathematical value.
pub enum EventSpec {
    Spawned,
    Written,
    LineRead(Seq<char>),
    Exited,
    Failed(Failure),
}

impl View for Event {
    type V = EventSpec;

    open spec fn view(&self) -> EventSpec {
        match self {
            Event::Spawned => EventSpec::Spawned,
            Event::Written => EventSpec::Written,
            Event::LineRead(line) => EventSpec::LineRead(line@),
            Event::Exited => EventSpec::Exited,
            Event::Failed(f) => EventSpec::Failed(*f),
        }
    }
}

/// What the driver asks the caller to do next.
#[derive(Debug, PartialEq, Eq)]
pub enum Action {
    /// Launch the engine with piped input and output.
    Spawn,
    /// Write this line, terminator included, to the child's input.
    Send(String),
    /// Read one line from the child's output.
    ReadLine,
    /// Wait for the child to exit.
    WaitExit,
    /// Close the pipes, stop the child and wait for it.
    Reap,
    /// The script ran to its end.
    Finish,
    /// The run failed for this reason.
    Abort(Failure),
}

/// An [`Action`] as a mathematical value.
pub enum ActionSpec {
    Spawn,
    Send(Seq<char>),
    ReadLine,
    WaitExit,
    Reap,
    Finish,
    Abort(Failure),
}

impl View for Action {
    type V = ActionSpec;

    open spec fn view(&self) -> ActionSpec {
        match self {
            Action::Spawn => ActionSpec::Spawn,
            Action::Send(line) => ActionSpec::Send(line@),
            Action::ReadLine => ActionSpec::ReadLine,
            Action::WaitExit => ActionSpec::WaitExit,
            Action::Reap => ActionSpec::Reap,
            Action::Finish => ActionSpec::Finish,
            Action::Abort(f) => ActionSpec::Abort(*f),
        }
    }
}

/// One step of a script: a command, and the condition that ends its reply,
/// if the command has one.
pub struct Step {
    pub command: String,
    pub wait: Option<WaitCondition>,
}

/// A [`Step`] as a mathematical value.
pub struct StepSpec {
    pub command: Seq<char>,
    pub wait: Option<WaitSpec>,
}

impl View for Step {
    type V = StepSpec;

    open spec fn view(&self) -> StepSpec {
        StepSpec {
            command: self.command@,
            wait: match self.wait {
                Some(w) => Some(w@),
                None => None,
            },
        }
    }
}

/// Where a run stands.
#[derive(Clone, Copy, Debug, PartialEq, Eq, Structural)]
pub enum Phase {
    /// The engine is being launched.
    Spawning,
    /// The command of the current step is being written.
    Writing,
    /// Lines are being read until one ends the current step's reply.
    Reading,
    /// All commands were sent; the child is being waited for.
    Exiting,
    /// The run failed with a child alive; it is being stopped and reaped.
    Reaping(Failure),
    /// The run is over and succeeded.
    Done,
    /// The run is over and failed.
    Aborted(Failure),
}

/// The state of a run: the index of the current step, and the phase.
pub struct DriverState {
    pub pos: nat,
    pub phase: Phase,
}

pub open spec fn initial_state() -> DriverState {
    DriverState { pos: 0, phase: Phase::Spawning }
}

/// The states a run over `script` can be in.
pub open spec fn valid_state(script: Seq<StepSpec>, s: DriverState) -> bool {
    &&& s.pos <= script.len()
    &&& ((s.phase is Writing || s.phase is Reading) ==> s.pos < script.len())
    &&& (s.phase is Reading ==> script[s.pos as int].wait is Some)
}

/// Starts step `i`: its command is sent; past the last step, the child is
/// waited for.
pub open spec fn enter(script: Seq<StepSpec>, i: nat) -> (DriverState, ActionSpec) {
    if i < script.len() {
        (DriverState { pos: i, phase: Phase::Writing }, ActionSpec::Send(script[i as int].command))
    } else {
        (DriverState { pos: script.len(), phase: Phase::Exiting }, ActionSpec::WaitExit)
    }
}

/// A failure while the child may be alive: stop it and wait for it first.
pub open spec fn reap(s: DriverState, f: Failure) -> (DriverState, ActionSpec) {
    (DriverState { pos: s.pos, phase: Phase::Reaping(f) }, ActionSpec::Reap)
}

/// The transition of a run over `script` on event `e`.
pub open spec fn next(script: Seq<StepSpec>, s: DriverState, e: EventSpec) -> (DriverState, ActionSpec) {
    match s.phase {
        Phase::Spawning => match e {
            EventSpec::Spawned => enter(script, 0),
            EventSpec::Failed(Failure::Spawn) => (
                DriverState { pos: s.pos, phase: Phase::Aborted(Failure::Spawn) },
                ActionSpec::Abort(Failure::Spawn),
            ),
            EventSpec::Failed(f) => reap(s, f),
            _ => reap(s, Failure::ProtocolViolation),
        },
        Phase::Writing => match e {
            EventSpec::Written => match script[s.pos as int].wait {
                Some(_) => (DriverState { pos: s.pos, phase: Phase::Reading }, ActionSpec::ReadLine),
                None => enter(script, s.pos + 1),
            },
            EventSpec::Failed(f) => reap(s, f),
            _ => reap(s, Failure::ProtocolViolation),
        },
        Phase::Reading => match e {
            EventSpec::LineRead(line) => if satisfies(script[s.pos as int].wait->Some_0, line) {
                enter(script, s.pos + 1)
            } else {
                (s, ActionSpec::ReadLine)
            },
            EventSpec::Failed(f) => reap(s, f),
            _ => reap(s, Failure::ProtocolViolation),
        },
        Phase::Exiting => match e {
            EventSpec::Exited => (DriverState { pos: s.pos, phase: Phase::Done }, ActionSpec::Finish),
            EventSpec::Failed(f) => (
                DriverState { pos: s.pos, phase: Phase::Aborted(f) },
                ActionSpec::Abort(f),
            ),
            _ => reap(s, Failure::ProtocolViolation),
        },
        Phase::Reaping(f) => (DriverState { pos: s.pos, phase: Phase::Aborted(f) }, ActionSpec::Abort(f)),
        Phase::Done => (s, ActionSpec::Finish),
        Phase::Aborted(f) => (s, ActionSpec::Abort(f)),
    }
}

pub open spec fn steps_of(script: Seq<Step>) -> Seq<StepSpec> {
    script.map_values(|st: Step| st@)
}

/// Runs a fixed script against one engine process.
pub struct Driver {
    script: Vec<Step>,
    pos: usize,
    phase: Phase,
}

impl Driver {
    /// The script this driver runs.
    pub closed spec fn steps(&self) -> Seq<StepSpec> {
        steps_of(self.script@)
    }

    /// Where the run stands.
    pub closed spec fn state(&self) -> DriverState {
        DriverState { pos: self.pos as nat, phase: self.phase }
    }

    pub closed spec fn wf(&self) -> bool {
        valid_state(self.steps(), self.state())
    }

    /// A driver for `script`, and its first action: launch the engine.
    pub fn start(script: Vec<Step>) -> (r: (Driver, Action))
        ensures
            r.0.wf(),
            r.0.steps() == steps_of(script@),
            r.0.state() == initial_state(),
            r.1@ == ActionSpec::Spawn,
    {
        (Driver { script, pos: 0, phase: Phase::Spawning }, Action::Spawn)
    }

    /// The phase the run is in.
    pub fn phase(&self) -> (r: Phase)
        ensures
            r == self.state().phase,
    {
        self.phase
    }

    /// The index of the current step.
    pub fn position(&self) -> (r: usize)
        ensures
            r == self.state().pos,
    {
        self.pos
    }

    fn enter_step(&mut self, i: usize) -> (r: Action)
        requires
            i <= old(self).script@.len(),
        ensures
            final(self).script == old(self).script,
            (final(self).state(), r@) == enter(old(self).steps(), i as nat),
    {
        if i < self.script.len() {
            self.pos = i;
            self.phase = Phase::Writing;
            Action::Send(self.script[i].command.clone())
        } else {
            self.pos = self.script.len();
            self.phase = Phase::Exiting;
            Action::WaitExit
        }
    }

    fn reap_on(&mut self, f: Failure) -> (r: Action)
        ensures
            final(self).script == old(self).script,
            (final(self).state(), r@) == reap(old(self).state(), f),
    {
        self.phase = Phase::Reaping(f);
        Action::Reap
    }

    /// Takes the outcome of the last action and returns the next one.
    pub fn on_event(&mut self, event: Event) -> (r: Action)
        requires
            old(self).wf(),
        ensures
            final(self).wf(),
            final(self).steps() == old(self).steps(),
            (final(self).state(), r@) == next(old(self).steps(), old(self).state(), event@),
    {
        let ghost steps = self.steps();
        let count: usize = self.script.len();
        assert(steps.len() == count);
        let r = match self.phase {
            Phase::Spawning => match event {
                Event::Spawned => self.enter_step(0),
                Event::Failed(Failure::Spawn) => {
                    self.phase = Phase::Aborted(Failure::Spawn);
                    Action::Abort(Failure::Spawn)
                },
                Event::Failed(f) => self.reap_on(f),
                _ => self.reap_on(Failure::ProtocolViolation),
            },
            Phase::Writing => match event {
                Event::Written => {
                    if self.script[self.pos].wait.is_some() {
                        self.phase = Phase::Reading;
                        Action::ReadLine
                    } else {
                        let following: usize = self.pos + 1;
                        self.enter_step(following)
                    }
                },
                Event::Failed(f) => self.reap_on(f),
                _ => self.reap_on(Failure::ProtocolViolation),
            },
            Phase::Reading => match event {
                Event::LineRead(line) => {
                    let done = match &self.script[self.pos].wait {
                        Some(w) => w.is_satisfied_by(line.as_str()),
                        None => false,
                    };
                    if done {
                        let following: usize = self.pos + 1;
                        self.enter_step(following)
                    } else {
                        Action::ReadLine
                    }
                },
                Event::Failed(f) => self.reap_on(f),
                _ => self.reap_on(Failure::ProtocolViolation),
            },
            Phase::Exiting => match event {
                Event::Exited => {
                    self.phase = Phase::Done;
                    Action::Finish
                },
                Event::Failed(f) => {
                    self.phase = Phase::Aborted(f);
                    Action::Abort(f)
                },
                _ => self.reap_on(Failure::ProtocolViolation),
            },
            Phase::Reaping(f) => {
                self.phase = Phase::Aborted(f);
                Action::Abort(f)
            },
            Phase::Done => Action::Finish,
            Phase::Aborted(f) => Action::Abort(f),
        };
        assert(self.steps() == steps);
        r
    }
}

} // verus!
