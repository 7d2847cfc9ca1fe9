//! The handling of one connection, as a state machine.
//!
//! The session decides; its driver acts. The driver carries out the [`Step`]
//! it was given, reports the [`Outcome`], and gets the next step, until the
//! step is [`Step::Close`]. The session reads one framed request, has the
//! source written into a workspace of its own, has the interpreter run on it
//! and its output relayed, and has the workspace removed again on every path
//! that created it.

use vstd::prelude::*;
use vstd::string::StringExecFns;
use crate::error::{DecodeFault, HandlerError, IoStage};
use crate::frame::{declared_length, frame_payload, payload_of};
use crate::message::{decode_message, parse_message, MessageType};
use crate::relay::{Action, ActionView, Event, EventView, Relay, Source};
use crate::varint::le_value;
use crate::workspace::{dir_of, interpreter, is_workspace_id, script_of, Workspace};

verus! {

/// What the driver reports of the step it carried out.
#[derive(Clone, Debug, PartialEq, Eq)]
pub enum Outcome {
    /// A read brought these bytes: as many as were asked for, or fewer if the
    /// stream ended first.
    Bytes(Vec<u8>),
    /// The step succeeded.
    Done,
    /// The interpreter was launched, but an output pipe could not be had.
    NoPipes,
    /// One of the sources waited on has reported.
    Output(Event),
    /// The step failed.
    Failed,
}

/// An outcome as a mathematical value.
pub enum OutcomeView {
    Bytes(Seq<u8>),
    Done,
    NoPipes,
    Output(EventView),
    Failed,
}

impl View for Outcome {
    type V = OutcomeView;

    open spec fn view(&self) -> OutcomeView {
        match self {
            Outcome::Bytes(bytes) => OutcomeView::Bytes(bytes@),
            Outcome::Done => OutcomeView::Done,
            Outcome::NoPipes => OutcomeView::NoPipes,
            Outcome::Output(event) => OutcomeView::Output(event@),
            Outcome::Failed => OutcomeView::Failed,
        }
    }
}

/// What the driver is to do next.
#[derive(Debug, PartialEq, Eq)]
pub enum Step {
    /// Read this many bytes from the connection.
    Read(u32),
    /// Create the directory at this path.
    CreateDir(String),
    /// Write the code, as it is, to the file at this path.
    WriteSource { path: String, code: String },
    /// Launch the program with the script's path as its only argument and
    /// with both of its output streams piped.
    Spawn { program: String, script: String },
    /// Wait for the first of the named sources to report.
    Poll { stdout: bool, stderr: bool, exit: bool },
    /// Write the text to the connection and flush.
    Send(String),
    /// Remove the directory at this path with all that is in it.
    RemoveDir(String),
    /// Close the connection: the handling has ended with this result.
    Close(Result<(), HandlerError>),
}

/// A step as a mathematical value.
pub enum StepView {
    Read(nat),
    CreateDir(Seq<char>),
    WriteSource { path: Seq<char>, code: Seq<char> },
    Spawn { program: Seq<char>, script: Seq<char> },
    Poll { stdout: bool, stderr: bool, exit: bool },
    Send(Seq<char>),
    RemoveDir(Seq<char>),
    Close(Result<(), HandlerError>),
}

impl View for Step {
    type V = StepView;

    open spec fn view(&self) -> StepView {
        match self {
            Step::Read(count) => StepView::Read(*count as nat),
            Step::CreateDir(path) => StepView::CreateDir(path@),
            Step::WriteSource { path, code } => StepView::WriteSource { path: path@, code: code@ },
            Step::Spawn { program, script } => StepView::Spawn {
                program: program@,
                script: script@,
            },
            Step::Poll { stdout, stderr, exit } => StepView::Poll {
                stdout: *stdout,
                stderr: *stderr,
                exit: *exit,
            },
            Step::Send(text) => StepView::Send(text@),
            Step::RemoveDir(path) => StepView::RemoveDir(path@),
            Step::Close(result) => StepView::Close(*result),
        }
    }
}

/// Where a session stands: the step whose outcome it awaits.
#[derive(Debug)]
pub enum Phase {
    /// The header of the frame is being read.
    Header,
    /// The payload of the announced length is being read.
    Payload { declared: u32 },
    /// The workspace directory is being created; the code waits to be written.
    Directory { code: String },
    /// The source file is being written.
    Source,
    /// The interpreter is being launched.
    Launch,
    /// The driver waits on the sources that the relay names.
    Polling { relay: Relay },
    /// A line is being written to the connection.
    Sending { relay: Relay },
    /// The workspace is being removed; the result is what the handling came to.
    Removal { result: Result<(), HandlerError> },
    /// The connection is closed.
    Closed { result: Result<(), HandlerError> },
}

/// A phase as a mathematical value.
pub enum PhaseView {
    Header,
    Payload { declared: nat },
    Directory { code: Seq<char> },
    Source,
    Launch,
    Polling { relay: Relay },
    Sending { relay: Relay },
    Removal { result: Result<(), HandlerError> },
    Closed { result: Result<(), HandlerError> },
}

impl View for Phase {
    type V = PhaseView;

    open spec fn view(&self) -> PhaseView {
        match self {
            Phase::Header => PhaseView::Header,
            Phase::Payload { declared } => PhaseView::Payload { declared: *declared as nat },
            Phase::Directory { code } => PhaseView::Directory { code: code@ },
            Phase::Source => PhaseView::Source,
            Phase::Launch => PhaseView::Launch,
            Phase::Polling { relay } => PhaseView::Polling { relay: *relay },
            Phase::Sending { relay } => PhaseView::Sending { relay: *relay },
            Phase::Removal { result } => PhaseView::Removal { result: *result },
            Phase::Closed { result } => PhaseView::Closed { result: *result },
        }
    }
}

/// The step that has the driver wait on what `relay` still listens to.
pub open spec fn poll_of(relay: Relay) -> StepView {
    StepView::Poll {
        stdout: relay.is_open(Source::Stdout),
        stderr: relay.is_open(Source::Stderr),
        exit: relay.armed(),
    }
}

/// Ending without a workspace to remove.
pub open spec fn closing(result: Result<(), HandlerError>) -> (PhaseView, StepView) {
    (PhaseView::Closed { result }, StepView::Close(result))
}

/// Ending with the workspace `id` still on disk: it is removed first.
pub open spec fn removing(id: Seq<char>, result: Result<(), HandlerError>) -> (
    PhaseView,
    StepView,
) {
    (PhaseView::Removal { result }, StepView::RemoveDir(dir_of(id)))
}

/// After the header: the payload is read, unless the stream ended or failed.
pub open spec fn after_header(outcome: OutcomeView) -> (PhaseView, StepView) {
    match outcome {
        OutcomeView::Bytes(bytes) => if bytes.len() < 4 {
            closing(Err(HandlerError::DecodeError(DecodeFault::UnexpectedEnd)))
        } else {
            (
                PhaseView::Payload { declared: le_value(bytes.take(4)) },
                StepView::Read(le_value(bytes.take(4))),
            )
        },
        _ => closing(Err(HandlerError::IoError(IoStage::ReadRequest))),
    }
}

/// After the payload: a message that asks for execution has its workspace
/// created. One that does not decode ends the session, and so does the
/// reserved kind, with nothing done.
pub open spec fn after_payload(id: Seq<char>, declared: nat, outcome: OutcomeView) -> (
    PhaseView,
    StepView,
) {
    match outcome {
        OutcomeView::Bytes(bytes) => match payload_of(declared, bytes) {
            Err(fault) => closing(Err(HandlerError::DecodeError(fault))),
            Ok(payload) => match parse_message(payload) {
                Err(fault) => closing(Err(HandlerError::DecodeError(fault))),
                Ok(message) => match message.message_type {
                    MessageType::Execution => (
                        PhaseView::Directory { code: message.code },
                        StepView::CreateDir(dir_of(id)),
                    ),
                    MessageType::Stdin => closing(Ok(())),
                },
            },
        },
        _ => closing(Err(HandlerError::IoError(IoStage::ReadRequest))),
    }
}

/// While polling: the relay decides. A line is sent on, the taken exit has
/// the workspace removed, and a source that failed ends the relaying.
pub open spec fn after_poll(id: Seq<char>, relay: Relay, outcome: OutcomeView) -> (
    PhaseView,
    StepView,
) {
    match outcome {
        OutcomeView::Output(event) => match relay.step(event).1 {
            ActionView::Send(text) => (
                PhaseView::Sending { relay: relay.step(event).0 },
                StepView::Send(text),
            ),
            ActionView::Wait => (
                PhaseView::Polling { relay: relay.step(event).0 },
                poll_of(relay.step(event).0),
            ),
            ActionView::Finish => removing(id, Ok(())),
        },
        _ => removing(id, Err(HandlerError::IoError(IoStage::ReadOutput))),
    }
}

/// After the removal: the session closes with the result it had come to. A
/// removal that failed is reported only where nothing had failed before it.
pub open spec fn after_removal(result: Result<(), HandlerError>, outcome: OutcomeView) -> (
    PhaseView,
    StepView,
) {
    match outcome {
        OutcomeView::Done => closing(result),
        _ => match result {
            Ok(_) => closing(Err(HandlerError::IoError(IoStage::RemoveWorkspace))),
            Err(_) => closing(result),
        },
    }
}

/// The phase and the step that follow `phase` on `outcome`, for the session
/// whose workspace is named `id`. Any outcome but the one with which the
/// awaited step succeeds counts as that step's failure.
pub open spec fn transition(id: Seq<char>, phase: PhaseView, outcome: OutcomeView) -> (
    PhaseView,
    StepView,
) {
    match phase {
        PhaseView::Header => after_header(outcome),
        PhaseView::Payload { declared } => after_payload(id, declared, outcome),
        PhaseView::Directory { code } => match outcome {
            OutcomeView::Done => (
                PhaseView::Source,
                StepView::WriteSource { path: script_of(id), code },
            ),
            _ => closing(Err(HandlerError::IoError(IoStage::CreateWorkspace))),
        },
        PhaseView::Source => match outcome {
            OutcomeView::Done => (
                PhaseView::Launch,
                StepView::Spawn { program: "node"@, script: script_of(id) },
            ),
            _ => removing(id, Err(HandlerError::IoError(IoStage::WriteSource))),
        },
        PhaseView::Launch => match outcome {
            OutcomeView::Done => (
                PhaseView::Polling { relay: Relay::initial() },
                poll_of(Relay::initial()),
            ),
            OutcomeView::NoPipes => removing(id, Err(HandlerError::ProcessIOError)),
            _ => removing(id, Err(HandlerError::SpawnError)),
        },
        PhaseView::Polling { relay } => after_poll(id, relay, outcome),
        PhaseView::Sending { relay } => match outcome {
            OutcomeView::Done => (PhaseView::Polling { relay }, poll_of(relay)),
            _ => removing(id, Err(HandlerError::IoError(IoStage::Relay))),
        },
        PhaseView::Removal { result } => after_removal(result, outcome),
        PhaseView::Closed { result } => closing(result),
    }
}

/// The handling of one connection.
pub struct Session {
    workspace: Workspace,
    phase: Phase,
}

/// A session as a mathematical value: the name of its workspace and its
/// phase.
pub struct SessionView {
    pub id: Seq<char>,
    pub phase: PhaseView,
}

impl View for Session {
    type V = SessionView;

    closed spec fn view(&self) -> SessionView {
        SessionView { id: self.workspace@, phase: self.phase@ }
    }
}

impl SessionView {
    /// The session that has just been opened on the workspace `id`.
    pub open spec fn initial(id: Seq<char>) -> SessionView {
        SessionView { id, phase: PhaseView::Header }
    }

    /// The step with which every session starts: reading the header.
    pub open spec fn first_step() -> StepView {
        StepView::Read(4)
    }

    /// The session and the step after `outcome`.
    pub open spec fn next(self, outcome: OutcomeView) -> (SessionView, StepView) {
        (
            SessionView { id: self.id, phase: transition(self.id, self.phase, outcome).0 },
            transition(self.id, self.phase, outcome).1,
        )
    }

    /// The result of the handling, once the connection is closed.
    pub open spec fn result(self) -> Option<Result<(), HandlerError>> {
        match self.phase {
            PhaseView::Closed { result } => Some(result),
            _ => None,
        }
    }
}

fn close_with(result: Result<(), HandlerError>) -> (r: (Phase, Step))
    ensures
        (r.0@, r.1@) == closing(result),
{
    (Phase::Closed { result }, Step::Close(result))
}

fn remove_with(workspace: &Workspace, result: Result<(), HandlerError>) -> (r: (Phase, Step))
    ensures
        (r.0@, r.1@) == removing(workspace@, result),
{
    (Phase::Removal { result }, Step::RemoveDir(workspace.dir_path()))
}

fn poll(relay: Relay) -> (r: (Phase, Step))
    ensures
        (r.0@, r.1@) == (PhaseView::Polling { relay }, poll_of(relay)),
{
    let step = Step::Poll {
        stdout: relay.polls(Source::Stdout),
        stderr: relay.polls(Source::Stderr),
        exit: relay.exit_armed(),
    };
    (Phase::Polling { relay }, step)
}

fn on_header(outcome: Outcome) -> (r: (Phase, Step))
    ensures
        (r.0@, r.1@) == after_header(outcome@),
{
    match outcome {
        Outcome::Bytes(bytes) => {
            if bytes.len() < 4 {
                close_with(Err(HandlerError::DecodeError(DecodeFault::UnexpectedEnd)))
            } else {
                let header: [u8; 4] = [bytes[0], bytes[1], bytes[2], bytes[3]];
                assert(header@ == bytes@.take(4));
                let declared = declared_length(&header);
                (Phase::Payload { declared }, Step::Read(declared))
            }
        },
        _ => close_with(Err(HandlerError::IoError(IoStage::ReadRequest))),
    }
}

fn on_payload(workspace: &Workspace, declared: u32, outcome: Outcome) -> (r: (Phase, Step))
    ensures
        (r.0@, r.1@) == after_payload(workspace@, declared as nat, outcome@),
{
    match outcome {
        Outcome::Bytes(bytes) => {
            let payload = match frame_payload(declared, bytes.as_slice()) {
                Ok(payload) => payload,
                Err(fault) => { return close_with(Err(HandlerError::DecodeError(fault))); },
            };
            let message = match decode_message(payload) {
                Ok(message) => message,
                Err(fault) => { return close_with(Err(HandlerError::DecodeError(fault))); },
            };
            match message.message_type {
                MessageType::Execution => (
                    Phase::Directory { code: message.code },
                    Step::CreateDir(workspace.dir_path()),
                ),
                MessageType::Stdin => close_with(Ok(())),
            }
        },
        _ => close_with(Err(HandlerError::IoError(IoStage::ReadRequest))),
    }
}

fn on_poll(workspace: &Workspace, relay: Relay, outcome: Outcome) -> (r: (Phase, Step))
    ensures
        (r.0@, r.1@) == after_poll(workspace@, relay, outcome@),
{
    match outcome {
        Outcome::Output(event) => {
            let mut relay = relay;
            match relay.handle(event) {
                Action::Send(text) => (Phase::Sending { relay }, Step::Send(text)),
                Action::Wait => poll(relay),
                Action::Finish => remove_with(workspace, Ok(())),
            }
        },
        _ => remove_with(workspace, Err(HandlerError::IoError(IoStage::ReadOutput))),
    }
}

fn on_removal(result: Result<(), HandlerError>, outcome: Outcome) -> (r: (Phase, Step))
    ensures
        (r.0@, r.1@) == after_removal(result, outcome@),
{
    match outcome {
        Outcome::Done => close_with(result),
        _ => match result {
            Ok(_) => close_with(Err(HandlerError::IoError(IoStage::RemoveWorkspace))),
            Err(_) => close_with(result),
        },
    }
}

fn step_from(workspace: &Workspace, phase: Phase, outcome: Outcome) -> (r: (Phase, Step))
    ensures
        (r.0@, r.1@) == transition(workspace@, phase@, outcome@),
{
    match phase {
        Phase::Header => on_header(outcome),
        Phase::Payload { declared } => on_payload(workspace, declared, outcome),
        Phase::Directory { code } => match outcome {
            Outcome::Done => (
                Phase::Source,
                Step::WriteSource { path: workspace.script_path(), code },
            ),
            _ => close_with(Err(HandlerError::IoError(IoStage::CreateWorkspace))),
        },
        Phase::Source => match outcome {
            Outcome::Done => (
                Phase::Launch,
                Step::Spawn {
                    program: String::from_str(interpreter()),
                    script: workspace.script_path(),
                },
            ),
            _ => remove_with(workspace, Err(HandlerError::IoError(IoStage::WriteSource))),
        },
        Phase::Launch => match outcome {
            Outcome::Done => poll(Relay::new()),
            Outcome::NoPipes => remove_with(workspace, Err(HandlerError::ProcessIOError)),
            _ => remove_with(workspace, Err(HandlerError::SpawnError)),
        },
        Phase::Polling { relay } => on_poll(workspace, relay, outcome),
        Phase::Sending { relay } => match outcome {
            Outcome::Done => poll(relay),
            _ => remove_with(workspace, Err(HandlerError::IoError(IoStage::Relay))),
        },
        Phase::Removal { result } => on_removal(result, outcome),
        Phase::Closed { result } => close_with(result),
    }
}

impl Session {
    /// Opens a session on `workspace`, and gives its first step.
    pub fn open(workspace: Workspace) -> (r: (Session, Step))
        ensures
            r.0@ == SessionView::initial(workspace@),
            r.1@ == SessionView::first_step(),
    {
        (Session { workspace, phase: Phase::Header }, Step::Read(4))
    }

    /// Opens a session on a workspace of a freshly drawn name.
    pub fn start() -> (r: (Session, Step))
        ensures
            is_workspace_id(r.0@.id),
            r.0@ == SessionView::initial(r.0@.id),
            r.1@ == SessionView::first_step(),
    {
        Session::open(Workspace::fresh())
    }

    /// Takes the outcome of the step last given, and gives the next step.
    pub fn advance(self, outcome: Outcome) -> (r: (Session, Step))
        ensures
            (r.0@, r.1@) == self@.next(outcome@),
    {
        let Session { workspace, phase } = self;
        let (phase, step) = step_from(&workspace, phase, outcome);
        (Session { workspace, phase }, step)
    }

    /// The workspace of this session.
    pub fn workspace(&self) -> (workspace: &Workspace)
        ensures
            workspace@ == self@.id,
    {
        &self.workspace
    }

    /// The result of the handling, once the connection is closed.
    pub fn result(&self) -> (result: Option<Result<(), HandlerError>>)
        ensures
            result == self@.result(),
    {
        match &self.phase {
            Phase::Closed { result } => Some(*result),
            _ => None,
        }
    }
}

} // verus!
