//! Bringing a pseudo-terminal session up.
//!
//! Creating a session alternates work that only the operating system can do
//! (allocate the pseudo-terminal and fork, read and write descriptor flags,
//! replace the process image) with decisions. The decisions live here: a
//! setup is stepped with the result of the last piece of work and answers
//! with the next piece of work to do. Every failure on the way is fatal.

use crate::flags::{nonblocking_flags, nonblocking_flags_spec};
use vstd::prelude::*;

verus! {

/// Which side of the fork a process finds itself on.
#[derive(Debug, PartialEq, Eq)]
pub enum ForkSide<D> {
    /// The parent: it holds the master side of the pseudo-terminal.
    Parent(D),
    /// The child: it is attached to the slave side and is to become the
    /// shell.
    Child,
}

/// Why a session could not be brought up. Each carries the raw error number
/// of the step that failed, except `Protocol`.
#[derive(Clone, Copy, Debug, PartialEq, Eq, Structural)]
pub enum SetupError {
    /// The pseudo-terminal could not be allocated or the fork failed.
    PtyAllocation(i32),
    /// The child could not replace its process image with the shell.
    ShellLaunch(i32),
    /// The flags of the master descriptor could not be read.
    FlagsRead(i32),
    /// The flags of the master descriptor could not be written.
    FlagsWrite(i32),
    /// The setup was handed a result it was not waiting for.
    Protocol,
}

/// How the child becomes the shell: one variable is removed from its
/// environment, one is set, and the program is looked up on the executable
/// search path and started without arguments.
#[derive(Clone, Copy, Debug, PartialEq, Eq)]
pub struct ShellLaunch {
    /// The shell program, found through the search path.
    pub program: &'static str,
    /// The inherited prompt customisation to remove.
    pub cleared_variable: &'static str,
    /// The variable that holds the prompt.
    pub prompt_variable: &'static str,
    /// The plain prompt to force.
    pub prompt: &'static str,
}

/// The launch of the interactive shell with a minimal prompt.
pub open spec fn interactive_shell() -> ShellLaunch {
    ShellLaunch {
        program: "zsh",
        cleared_variable: "PROMPT_COMMAND",
        prompt_variable: "PS1",
        prompt: "$ ",
    }
}

/// The result of a piece of work, handed to the setup.
#[derive(Debug, PartialEq, Eq)]
pub enum SetupEvent<D> {
    /// Nothing was done yet: the setup is asked to begin.
    Start,
    /// The pseudo-terminal was allocated and the process forked, or that
    /// failed with the given error number.
    Forked(Result<ForkSide<D>, i32>),
    /// The flags of the master descriptor were read, or that failed.
    FlagsRead(Result<i32, i32>),
    /// The flags of the master descriptor were written, or that failed.
    FlagsWritten(Result<(), i32>),
    /// Replacing the process image returned, which it only does on failure.
    LaunchFailed(i32),
}

/// The next piece of work the setup asks for.
#[derive(Clone, Copy, Debug, PartialEq, Eq)]
pub enum SetupAction {
    /// Allocate a pseudo-terminal and fork.
    ForkPty,
    /// In the child: prepare the environment and become the shell.
    LaunchShell(ShellLaunch),
    /// Read the status flags of the master descriptor.
    ReadFlags,
    /// Write these status flags to the master descriptor.
    WriteFlags(i32),
    /// The session is active: start ticking.
    Run,
    /// Setup failed for good: terminate the process.
    Abort(SetupError),
}

/// Where a setup stands.
#[derive(Debug, PartialEq, Eq)]
pub enum Phase<D> {
    /// Nothing has been asked for yet.
    Uninitialized,
    /// The fork is outstanding.
    Allocating,
    /// The child is about to become the shell.
    Launching,
    /// The parent holds the master descriptor and waits for its flags.
    ReadingFlags { master: D },
    /// The parent waits for the non-blocking flags to be written.
    WritingFlags { master: D },
    /// The master descriptor is non-blocking: the session is active.
    Active { master: D },
    /// Setup failed; no session will come of it.
    Failed { error: SetupError },
}

/// The decision table of the setup: the phase and the piece of work that
/// follow from a phase and the result handed in.
///
/// `Active` and `Failed` are final. A result that the phase was not waiting
/// for fails the setup.
pub open spec fn step_spec<D>(phase: Phase<D>, event: SetupEvent<D>) -> (Phase<D>, SetupAction) {
    match phase {
        Phase::Uninitialized => match event {
            SetupEvent::Start => (Phase::Allocating, SetupAction::ForkPty),
            _ => failed(SetupError::Protocol),
        },
        Phase::Allocating => match event {
            SetupEvent::Forked(Ok(ForkSide::Parent(master))) => (
                Phase::ReadingFlags { master },
                SetupAction::ReadFlags,
            ),
            SetupEvent::Forked(Ok(ForkSide::Child)) => (
                Phase::Launching,
                SetupAction::LaunchShell(interactive_shell()),
            ),
            SetupEvent::Forked(Err(code)) => failed(SetupError::PtyAllocation(code)),
            _ => failed(SetupError::Protocol),
        },
        Phase::Launching => match event {
            SetupEvent::LaunchFailed(code) => failed(SetupError::ShellLaunch(code)),
            _ => failed(SetupError::Protocol),
        },
        Phase::ReadingFlags { master } => match event {
            SetupEvent::FlagsRead(Ok(current)) => (
                Phase::WritingFlags { master },
                SetupAction::WriteFlags(nonblocking_flags_spec(current)),
            ),
            SetupEvent::FlagsRead(Err(code)) => failed(SetupError::FlagsRead(code)),
            _ => failed(SetupError::Protocol),
        },
        Phase::WritingFlags { master } => match event {
            SetupEvent::FlagsWritten(Ok(_)) => (Phase::Active { master }, SetupAction::Run),
            SetupEvent::FlagsWritten(Err(code)) => failed(SetupError::FlagsWrite(code)),
            _ => failed(SetupError::Protocol),
        },
        Phase::Active { master } => (Phase::Active { master }, SetupAction::Run),
        Phase::Failed { error } => failed(error),
    }
}

/// The failed phase with the order to abort.
pub open spec fn failed<D>(error: SetupError) -> (Phase<D>, SetupAction) {
    (Phase::Failed { error }, SetupAction::Abort(error))
}

/// The phase a setup is in after the results `events` were handed to it one
/// after the other, starting from `phase`.
pub open spec fn run_spec<D>(phase: Phase<D>, events: Seq<SetupEvent<D>>) -> Phase<D>
    decreases events.len(),
{
    if events.len() == 0 {
        phase
    } else {
        step_spec(run_spec(phase, events.drop_last()), events.last()).0
    }
}

/// What a run of results must have been for a setup to come out of it with
/// the master descriptor in a given phase.
pub open spec fn led_to<D>(events: Seq<SetupEvent<D>>, phase: Phase<D>) -> bool {
    match phase {
        Phase::Uninitialized => events.len() == 0,
        Phase::Allocating => events.len() == 1 && events[0] == SetupEvent::<D>::Start,
        Phase::Launching => {
            &&& events.len() == 2
            &&& events[0] == SetupEvent::<D>::Start
            &&& events[1] == SetupEvent::<D>::Forked(Ok(ForkSide::Child))
        },
        Phase::ReadingFlags { master } => {
            &&& events.len() == 2
            &&& events[0] == SetupEvent::<D>::Start
            &&& events[1] == SetupEvent::Forked(Ok(ForkSide::Parent(master)))
        },
        Phase::WritingFlags { master } => {
            &&& events.len() == 3
            &&& events[0] == SetupEvent::<D>::Start
            &&& events[1] == SetupEvent::Forked(Ok(ForkSide::Parent(master)))
            &&& events[2] matches SetupEvent::FlagsRead(Ok(_))
        },
        Phase::Active { master } => {
            &&& events.len() >= 4
            &&& events[0] == SetupEvent::<D>::Start
            &&& events[1] == SetupEvent::Forked(Ok(ForkSide::Parent(master)))
            &&& events[2] matches SetupEvent::FlagsRead(Ok(_))
            &&& events[3] matches SetupEvent::FlagsWritten(Ok(_))
        },
        Phase::Failed { error } => events.len() > 0,
    }
}

/// A failed setup stays failed, with the error it failed with, whatever it
/// is handed afterwards.
pub proof fn lemma_failed_is_final<D>(error: SetupError, events: Seq<SetupEvent<D>>)
    ensures
        run_spec(Phase::<D>::Failed { error }, events) == (Phase::<D>::Failed { error }),
    decreases events.len(),
{
    if events.len() > 0 {
        lemma_failed_is_final(error, events.drop_last());
    }
}

/// An active session stays active, on the same descriptor, whatever the
/// setup is handed afterwards.
pub proof fn lemma_active_is_final<D>(master: D, events: Seq<SetupEvent<D>>)
    ensures
        run_spec(Phase::Active { master }, events) == (Phase::Active { master }),
    decreases events.len(),
{
    if events.len() > 0 {
        lemma_active_is_final(master, events.drop_last());
    }
}

/// Handing a setup two runs of results in a row is handing it the second run
/// from where the first one left it.
pub proof fn lemma_run_concat<D>(
    phase: Phase<D>,
    first: Seq<SetupEvent<D>>,
    second: Seq<SetupEvent<D>>,
)
    ensures
        run_spec(phase, first + second) == run_spec(run_spec(phase, first), second),
    decreases second.len(),
{
    if second.len() == 0 {
        assert(first + second =~= first);
    } else {
        lemma_run_concat(phase, first, second.drop_last());
        assert((first + second).drop_last() =~= first + second.drop_last());
        assert((first + second).last() == second.last());
    }
}

/// Fatal path: when allocating the pseudo-terminal fails, the setup fails
/// with that error and nothing handed to it later brings it to life. Such a
/// setup never holds a descriptor and never yields a session.
pub proof fn lemma_failed_allocation_is_fatal<D>(code: i32, later: Seq<SetupEvent<D>>)
    ensures
        run_spec(
            Phase::<D>::Uninitialized,
            seq![SetupEvent::<D>::Start, SetupEvent::<D>::Forked(Err(code))] + later,
        ) == (Phase::<D>::Failed { error: SetupError::PtyAllocation(code) }),
{
    let error = SetupError::PtyAllocation(code);
    let first = seq![SetupEvent::<D>::Start, SetupEvent::<D>::Forked(Err(code))];
    lemma_run_concat(Phase::<D>::Uninitialized, first, later);
    assert(first.drop_last() =~= seq![SetupEvent::<D>::Start]);
    assert(first.drop_last().drop_last() =~= Seq::<SetupEvent<D>>::empty());
    assert(run_spec(Phase::<D>::Uninitialized, first.drop_last().drop_last())
        == Phase::<D>::Uninitialized);
    assert(run_spec(Phase::<D>::Uninitialized, first.drop_last()) == Phase::<D>::Allocating);
    lemma_failed_is_final(error, later);
}

/// No half-made session: whatever a setup was handed since it was new, it
/// holds a descriptor only if the fork succeeded on the parent side with that
/// descriptor, and it is active only if after that the flags were read and
/// the non-blocking flags were written, in this order and with nothing in
/// between.
pub proof fn lemma_phase_tells_history<D>(events: Seq<SetupEvent<D>>)
    ensures
        led_to(events, run_spec(Phase::<D>::Uninitialized, events)),
    decreases events.len(),
{
    if events.len() > 0 {
        let earlier = events.drop_last();
        lemma_phase_tells_history(earlier);
        if earlier.len() >= 1 {
            assert(events[0] == earlier[0]);
        }
        if earlier.len() >= 2 {
            assert(events[1] == earlier[1]);
        }
        if earlier.len() >= 3 {
            assert(events[2] == earlier[2]);
        }
        if earlier.len() >= 4 {
            assert(events[3] == earlier[3]);
        }
    }
}

/// An active session: the master side of a pseudo-terminal whose descriptor
/// has been made non-blocking.
///
/// The session owns the descriptor and hands out only shared references to
/// it. A session is only ever made from a setup that reached its active
/// phase.
pub struct PtySession<D> {
    master: D,
}

impl<D> PtySession<D> {
    /// The master descriptor that the session owns.
    pub closed spec fn descriptor(&self) -> D {
        self.master
    }

    /// The master descriptor, to read from.
    pub fn master(&self) -> (master: &D)
        ensures
            *master == self.descriptor(),
    {
        &self.master
    }
}

/// A session on its way up.
pub struct SessionSetup<D> {
    phase: Phase<D>,
}

impl<D> View for SessionSetup<D> {
    type V = Phase<D>;

    closed spec fn view(&self) -> Phase<D> {
        self.phase
    }
}

impl<D> SessionSetup<D> {
    /// A setup that has not begun.
    pub fn new() -> (setup: Self)
        ensures
            setup@ == Phase::<D>::Uninitialized,
    {
        SessionSetup { phase: Phase::Uninitialized }
    }

    /// Hands the setup the result of the last piece of work and gets the
    /// setup in its next phase together with the next piece of work.
    pub fn step(self, event: SetupEvent<D>) -> (next: (Self, SetupAction))
        ensures
            next.0@ == step_spec(self@, event).0,
            next.1 == step_spec(self@, event).1,
    {
        match self.phase {
            Phase::Uninitialized => match event {
                SetupEvent::Start => (SessionSetup { phase: Phase::Allocating }, SetupAction::ForkPty),
                _ => Self::fail(SetupError::Protocol),
            },
            Phase::Allocating => match event {
                SetupEvent::Forked(Ok(ForkSide::Parent(master))) => (
                    SessionSetup { phase: Phase::ReadingFlags { master } },
                    SetupAction::ReadFlags,
                ),
                SetupEvent::Forked(Ok(ForkSide::Child)) => (
                    SessionSetup { phase: Phase::Launching },
                    SetupAction::LaunchShell(shell_launch()),
                ),
                SetupEvent::Forked(Err(code)) => Self::fail(SetupError::PtyAllocation(code)),
                _ => Self::fail(SetupError::Protocol),
            },
            Phase::Launching => match event {
                SetupEvent::LaunchFailed(code) => Self::fail(SetupError::ShellLaunch(code)),
                _ => Self::fail(SetupError::Protocol),
            },
            Phase::ReadingFlags { master } => match event {
                SetupEvent::FlagsRead(Ok(current)) => (
                    SessionSetup { phase: Phase::WritingFlags { master } },
                    SetupAction::WriteFlags(nonblocking_flags(current)),
                ),
                SetupEvent::FlagsRead(Err(code)) => Self::fail(SetupError::FlagsRead(code)),
                _ => Self::fail(SetupError::Protocol),
            },
            Phase::WritingFlags { master } => match event {
                SetupEvent::FlagsWritten(Ok(_)) => (
                    SessionSetup { phase: Phase::Active { master } },
                    SetupAction::Run,
                ),
                SetupEvent::FlagsWritten(Err(code)) => Self::fail(SetupError::FlagsWrite(code)),
                _ => Self::fail(SetupError::Protocol),
            },
            Phase::Active { master } => (
                SessionSetup { phase: Phase::Active { master } },
                SetupAction::Run,
            ),
            Phase::Failed { error } => Self::fail(error),
        }
    }

    fn fail(error: SetupError) -> (next: (Self, SetupAction))
        ensures
            next.0@ == failed::<D>(error).0,
            next.1 == failed::<D>(error).1,
    {
        (SessionSetup { phase: Phase::Failed { error } }, SetupAction::Abort(error))
    }

    /// The phase the setup is in.
    pub fn phase(&self) -> (phase: &Phase<D>)
        ensures
            *phase == self@,
    {
        &self.phase
    }

    /// The master descriptor, in the phases in which the parent holds one.
    pub fn master(&self) -> (master: Option<&D>)
        ensures
            master == match self@ {
                Phase::ReadingFlags { master } => Some(&master),
                Phase::WritingFlags { master } => Some(&master),
                Phase::Active { master } => Some(&master),
                _ => None,
            },
    {
        match &self.phase {
            Phase::ReadingFlags { master } => Some(master),
            Phase::WritingFlags { master } => Some(master),
            Phase::Active { master } => Some(master),
            _ => None,
        }
    }

    /// The error of a setup that failed.
    pub fn error(&self) -> (error: Option<SetupError>)
        ensures
            error == match self@ {
                Phase::Failed { error } => Some(error),
                _ => None,
            },
    {
        match &self.phase {
            Phase::Failed { error } => Some(*error),
            _ => None,
        }
    }

    /// Turns a setup that reached its active phase into the session. In every
    /// other phase there is no session, and the setup is dropped with
    /// whatever it held.
    pub fn into_session(self) -> (session: Option<PtySession<D>>)
        ensures
            match self@ {
                Phase::Active { master } => session matches Some(s) && s.descriptor() == master,
                _ => session is None,
            },
    {
        match self.phase {
            Phase::Active { master } => Some(PtySession { master }),
            _ => None,
        }
    }
}

/// The launch of the interactive shell, for the child to carry out.
pub fn shell_launch() -> (launch: ShellLaunch)
    ensures
        launch == interactive_shell(),
{
    ShellLaunch {
        program: "zsh",
        cleared_variable: "PROMPT_COMMAND",
        prompt_variable: "PS1",
        prompt: "$ ",
    }
}

} // verus!
