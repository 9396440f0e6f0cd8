//! The relay loop as a state machine. The relay names the operation to
//! perform; the driver performs it and reports the outcome; the relay
//! answers with the next operation. The relay itself touches nothing.

use crate::config::READ_DEADLINE_SECONDS;
use crate::diagnostics::{decimal_digits, join, join_count};
use crate::protocol::{
    encode_message, frame, header_meaning, read_header, FrameError, HEADER_LEN,
};
use crate::response::{
    closed_text, connect_failure_text, deadline_failure_text, error_body, error_response,
    read_failure_text, send_failure_text, strip_terminator, terminate, with_terminator,
    without_terminator,
};
use vstd::prelude::*;
use vstd::string::*;

verus! {

/// How much of the relay is switched on.
#[derive(Debug, Clone, Copy, PartialEq, Eq, Structural)]
pub enum Mode {
    /// Waits for the application's reply, within a deadline, answers every
    /// message with one frame, and keeps a diagnostic log.
    Verbose,
    /// Forwards each message and does no more: no deadline, no reply, no
    /// frame on the output, no log, whatever becomes of the connection.
    Minimal,
}

/// How an operation ended.
#[derive(Debug, PartialEq, Eq)]
pub enum Outcome {
    /// It succeeded. Holds the bytes read, if it was a read, else nothing.
    Done(Vec<u8>),
    /// It failed, for this reason.
    Failed(String),
}

/// An operation for the driver to perform.
#[derive(Debug, PartialEq, Eq)]
pub enum Action {
    /// Read up to four bytes from the input, fewer only where the input
    /// ends first.
    ReadHeader,
    /// Read `length` bytes from the input, fewer only where the input ends
    /// first.
    ReadBody { length: u32 },
    /// Open a new connection to the socket at `path`. Each message gets a
    /// connection of its own; the one before is not used again.
    Connect { path: String },
    /// Limit the time that a read from the connection may take.
    SetReadDeadline { seconds: u64 },
    /// Write `bytes` to the connection.
    Send { bytes: Vec<u8> },
    /// Read from the connection up to and including the next line feed, or
    /// to the end of what comes.
    ReadLine,
    /// Write `bytes` to the output and flush it.
    WriteFrame { bytes: Vec<u8> },
}

/// Why the relay gave up.
#[derive(Debug, PartialEq, Eq)]
pub enum Fatal {
    /// The input broke off inside a frame.
    Framing(FrameError),
    /// A read produced more bytes than were asked for.
    Overrun,
    /// The input could not be read.
    Input(String),
    /// The output could not be written.
    Output(String),
}

/// What the relay is waiting for.
#[derive(Debug)]
enum Phase {
    Header,
    Body { length: u32 },
    Connect { message: Vec<u8> },
    Deadline { message: Vec<u8> },
    Send,
    Reply,
    Output { report: String },
}

/// The relay between two operations.
#[derive(Debug)]
pub struct Relay {
    mode: Mode,
    path: String,
    phase: Phase,
}

/// What follows an outcome.
#[derive(Debug)]
pub enum Next {
    /// The relay goes on: perform `action` and report to `relay`.
    Perform { relay: Relay, action: Action },
    /// The input has ended between two frames: the relay is done.
    Finish,
    /// The relay cannot go on.
    Abort(Fatal),
}

/// The relay's answer to an outcome.
#[derive(Debug)]
pub struct Step {
    pub next: Next,
    /// An entry for the diagnostic log, if there is something to record.
    pub note: Option<String>,
}

/// An outcome as plain values.
#[verifier::ext_equal]
pub enum OutcomeView {
    Done(Seq<u8>),
    Failed(Seq<char>),
}

/// An operation as plain values.
#[verifier::ext_equal]
pub enum ActionView {
    ReadHeader,
    ReadBody { length: nat },
    Connect { path: Seq<char> },
    SetReadDeadline { seconds: nat },
    Send { bytes: Seq<u8> },
    ReadLine,
    WriteFrame { bytes: Seq<u8> },
}

/// A reason to give up, as plain values.
#[verifier::ext_equal]
pub enum FatalView {
    Framing(FrameError),
    Overrun,
    Input(Seq<char>),
    Output(Seq<char>),
}

/// What a relay is waiting for.
#[verifier::ext_equal]
pub enum PhaseView {
    /// Waiting for the bytes of a length header.
    Header,
    /// Waiting for the `length` bytes of a message.
    Body { length: nat },
    /// Waiting for the connection over which `message` will go.
    Connect { message: Seq<u8> },
    /// Waiting for the read deadline to be set.
    Deadline { message: Seq<u8> },
    /// Waiting for the message to be sent.
    Send,
    /// Waiting for the application's reply.
    Reply,
    /// Waiting for the response to be written; `report` records it.
    Output { report: Seq<char> },
}

/// A relay between two operations: its mode, the socket path it was
/// started with, and what it is waiting for.
#[verifier::ext_equal]
pub struct RelayView {
    pub mode: Mode,
    pub path: Seq<char>,
    pub phase: PhaseView,
}

/// What follows an outcome, as plain values.
#[verifier::ext_equal]
pub enum NextView {
    Perform { relay: RelayView, action: ActionView },
    Finish,
    Abort(FatalView),
}

/// The relay's answer to an outcome, as plain values.
#[verifier::ext_equal]
pub struct StepView {
    pub next: NextView,
    pub note: Option<Seq<char>>,
}

impl View for Outcome {
    type V = OutcomeView;

    open spec fn view(&self) -> OutcomeView {
        match self {
            Outcome::Done(bytes) => OutcomeView::Done(bytes@),
            Outcome::Failed(reason) => OutcomeView::Failed(reason@),
        }
    }
}

impl View for Action {
    type V = ActionView;

    open spec fn view(&self) -> ActionView {
        match self {
            Action::ReadHeader => ActionView::ReadHeader,
            Action::ReadBody { length } => ActionView::ReadBody { length: *length as nat },
            Action::Connect { path } => ActionView::Connect { path: path@ },
            Action::SetReadDeadline { seconds } => ActionView::SetReadDeadline {
                seconds: *seconds as nat,
            },
            Action::Send { bytes } => ActionView::Send { bytes: bytes@ },
            Action::ReadLine => ActionView::ReadLine,
            Action::WriteFrame { bytes } => ActionView::WriteFrame { bytes: bytes@ },
        }
    }
}

impl View for Fatal {
    type V = FatalView;

    open spec fn view(&self) -> FatalView {
        match self {
            Fatal::Framing(error) => FatalView::Framing(*error),
            Fatal::Overrun => FatalView::Overrun,
            Fatal::Input(reason) => FatalView::Input(reason@),
            Fatal::Output(reason) => FatalView::Output(reason@),
        }
    }
}

impl View for Phase {
    type V = PhaseView;

    closed spec fn view(&self) -> PhaseView {
        match self {
            Phase::Header => PhaseView::Header,
            Phase::Body { length } => PhaseView::Body { length: *length as nat },
            Phase::Connect { message } => PhaseView::Connect { message: message@ },
            Phase::Deadline { message } => PhaseView::Deadline { message: message@ },
            Phase::Send => PhaseView::Send,
            Phase::Reply => PhaseView::Reply,
            Phase::Output { report } => PhaseView::Output { report: report@ },
        }
    }
}

impl View for Relay {
    type V = RelayView;

    closed spec fn view(&self) -> RelayView {
        RelayView { mode: self.mode, path: self.path@, phase: self.phase@ }
    }
}

impl View for Next {
    type V = NextView;

    open spec fn view(&self) -> NextView {
        match self {
            Next::Perform { relay, action } => NextView::Perform { relay: relay@, action: action@ },
            Next::Finish => NextView::Finish,
            Next::Abort(fatal) => NextView::Abort(fatal@),
        }
    }
}

/// A note as a sequence of characters.
pub open spec fn note_view(note: Option<String>) -> Option<Seq<char>> {
    match note {
        Some(text) => Some(text@),
        None => None,
    }
}

impl View for Step {
    type V = StepView;

    open spec fn view(&self) -> StepView {
        StepView { next: self.next@, note: note_view(self.note) }
    }
}

/// A note is taken in verbose mode only.
pub open spec fn noted(mode: Mode, text: Seq<char>) -> Option<Seq<char>> {
    match mode {
        Mode::Verbose => Some(text),
        Mode::Minimal => None,
    }
}

/// The relay moves to `phase` and asks for `action`.
pub open spec fn proceed(
    mode: Mode,
    path: Seq<char>,
    phase: PhaseView,
    action: ActionView,
    note: Option<Seq<char>>,
) -> StepView {
    StepView { next: NextView::Perform { relay: RelayView { mode, path, phase }, action }, note }
}

/// The relay gives up.
pub open spec fn abort(fatal: FatalView) -> StepView {
    StepView { next: NextView::Abort(fatal), note: None }
}

/// The relay turns to the next frame of the input.
pub open spec fn next_frame(mode: Mode, path: Seq<char>, note: Option<Seq<char>>) -> StepView {
    proceed(mode, path, PhaseView::Header, ActionView::ReadHeader, note)
}

/// The relay answers the host with an error object that holds `text`.
pub open spec fn answer_error(mode: Mode, path: Seq<char>, text: Seq<char>, note: Seq<char>)
    -> StepView {
    proceed(
        mode,
        path,
        PhaseView::Output { report: "Sent error response: "@ + text },
        ActionView::WriteFrame { bytes: frame(error_body(text)) },
        noted(mode, note),
    )
}

/// The relay answers the host with the application's reply.
pub open spec fn answer_reply(mode: Mode, path: Seq<char>, payload: Seq<u8>) -> StepView {
    proceed(
        mode,
        path,
        PhaseView::Output {
            report: "Sent native response: "@ + decimal_digits(payload.len()) + " bytes"@,
        },
        ActionView::WriteFrame { bytes: frame(payload) },
        noted(mode, "Received response: "@ + decimal_digits(payload.len()) + " bytes"@),
    )
}

/// The first step of a relay: it asks for the first header.
pub open spec fn start_model(mode: Mode, path: Seq<char>) -> StepView {
    next_frame(mode, path, noted(mode, "Native host started"@))
}

/// After a read of the length header. No bytes: the input has ended and
/// the relay is done. One to three: the frame is broken. Four: the body is
/// read next.
pub open spec fn after_header(mode: Mode, path: Seq<char>, outcome: OutcomeView) -> StepView {
    match outcome {
        OutcomeView::Failed(reason) => abort(FatalView::Input(reason)),
        OutcomeView::Done(bytes) => if bytes.len() > 4 {
            abort(FatalView::Overrun)
        } else {
            match header_meaning(bytes) {
                Err(error) => abort(FatalView::Framing(error)),
                Ok(None) => StepView {
                    next: NextView::Finish,
                    note: noted(mode, "Native host exiting (stdin closed)"@),
                },
                Ok(Some(length)) => proceed(
                    mode,
                    path,
                    PhaseView::Body { length },
                    ActionView::ReadBody { length },
                    None,
                ),
            }
        },
    }
}

/// After a read of the message. Too few bytes: the frame is broken. The
/// announced number: the message is complete and a connection is opened
/// for it.
pub open spec fn after_body(mode: Mode, path: Seq<char>, length: nat, outcome: OutcomeView)
    -> StepView {
    match outcome {
        OutcomeView::Failed(reason) => abort(FatalView::Input(reason)),
        OutcomeView::Done(bytes) => if bytes.len() > length {
            abort(FatalView::Overrun)
        } else if bytes.len() < length {
            abort(FatalView::Framing(FrameError::ShortBody))
        } else {
            proceed(
                mode,
                path,
                PhaseView::Connect { message: bytes },
                ActionView::Connect { path },
                noted(mode, "Received message: "@ + decimal_digits(bytes.len()) + " bytes"@),
            )
        },
    }
}

/// After the attempt to connect. In verbose mode a failure is answered
/// with an error object, and a connection gets its read deadline. In
/// minimal mode a failure is passed over, and the message is sent at once.
pub open spec fn after_connect(
    mode: Mode,
    path: Seq<char>,
    message: Seq<u8>,
    outcome: OutcomeView,
) -> StepView {
    match mode {
        Mode::Verbose => match outcome {
            OutcomeView::Done(_) => proceed(
                mode,
                path,
                PhaseView::Deadline { message },
                ActionView::SetReadDeadline { seconds: READ_DEADLINE_SECONDS as nat },
                Some("Connected to socket at "@ + path),
            ),
            OutcomeView::Failed(reason) => answer_error(
                mode,
                path,
                connect_failure_text(reason),
                "Failed to connect to socket: "@ + reason,
            ),
        },
        Mode::Minimal => match outcome {
            OutcomeView::Done(_) => proceed(
                mode,
                path,
                PhaseView::Send,
                ActionView::Send { bytes: with_terminator(message) },
                None,
            ),
            OutcomeView::Failed(_) => next_frame(mode, path, None),
        },
    }
}

/// After the deadline was set: the message is sent, followed by one line
/// feed. Without a deadline nothing is sent, and the failure is answered
/// with an error object.
pub open spec fn after_deadline(
    mode: Mode,
    path: Seq<char>,
    message: Seq<u8>,
    outcome: OutcomeView,
) -> StepView {
    match outcome {
        OutcomeView::Done(_) => proceed(
            mode,
            path,
            PhaseView::Send,
            ActionView::Send { bytes: with_terminator(message) },
            None,
        ),
        OutcomeView::Failed(reason) => answer_error(
            mode,
            path,
            deadline_failure_text(reason),
            "Failed to set read deadline: "@ + reason,
        ),
    }
}

/// After the message was sent. In verbose mode the reply is read next, and
/// a failure to send is answered with an error object. In minimal mode the
/// relay turns to the next frame either way.
pub open spec fn after_send(mode: Mode, path: Seq<char>, outcome: OutcomeView) -> StepView {
    match mode {
        Mode::Verbose => match outcome {
            OutcomeView::Done(_) => proceed(
                mode,
                path,
                PhaseView::Reply,
                ActionView::ReadLine,
                Some("Message forwarded to socket"@),
            ),
            OutcomeView::Failed(reason) => answer_error(
                mode,
                path,
                send_failure_text(reason),
                "Failed to forward message: "@ + reason,
            ),
        },
        Mode::Minimal => next_frame(mode, path, None),
    }
}

/// After the read of the reply. No bytes: the application hung up. A line:
/// it is the reply, once its line feed is taken off. A failure, a deadline
/// that passed among them: the reason is reported. Each way one frame goes
/// to the output.
pub open spec fn after_reply(mode: Mode, path: Seq<char>, outcome: OutcomeView) -> StepView {
    match outcome {
        OutcomeView::Done(line) => if line.len() == 0 {
            answer_error(mode, path, closed_text(), "Socket closed without response"@)
        } else {
            answer_reply(mode, path, without_terminator(line))
        },
        OutcomeView::Failed(reason) => answer_error(
            mode,
            path,
            read_failure_text(reason),
            "Failed to read response: "@ + reason,
        ),
    }
}

/// After the response was written: the relay turns to the next frame. An
/// output that cannot be written is fatal.
pub open spec fn after_output(
    mode: Mode,
    path: Seq<char>,
    report: Seq<char>,
    outcome: OutcomeView,
) -> StepView {
    match outcome {
        OutcomeView::Done(_) => next_frame(mode, path, noted(mode, report)),
        OutcomeView::Failed(reason) => abort(FatalView::Output(reason)),
    }
}

/// The relay's answer to the outcome of the operation it asked for.
pub open spec fn step_model(relay: RelayView, outcome: OutcomeView) -> StepView {
    match relay.phase {
        PhaseView::Header => after_header(relay.mode, relay.path, outcome),
        PhaseView::Body { length } => after_body(relay.mode, relay.path, length, outcome),
        PhaseView::Connect { message } => after_connect(relay.mode, relay.path, message, outcome),
        PhaseView::Deadline { message } => after_deadline(
            relay.mode,
            relay.path,
            message,
            outcome,
        ),
        PhaseView::Send => after_send(relay.mode, relay.path, outcome),
        PhaseView::Reply => after_reply(relay.mode, relay.path, outcome),
        PhaseView::Output { report } => after_output(relay.mode, relay.path, report, outcome),
    }
}

/// A fixed note, where notes are taken.
fn note(mode: Mode, text: &str) -> (out: Option<String>)
    ensures
        note_view(out) == noted(mode, text@),
{
    match mode {
        Mode::Verbose => Some(String::from_str(text)),
        Mode::Minimal => None,
    }
}

/// A note that holds a count, where notes are taken.
fn note_count(mode: Mode, before: &str, count: usize, after: &str) -> (out: Option<String>)
    ensures
        note_view(out) == noted(mode, before@ + decimal_digits(count as nat) + after@),
{
    match mode {
        Mode::Verbose => Some(join_count(before, count, after)),
        Mode::Minimal => None,
    }
}

/// The step that gives up.
fn abort_with(fatal: Fatal) -> (step: Step)
    ensures
        step@ == abort(fatal@),
{
    Step { next: Next::Abort(fatal), note: None }
}

impl Relay {
    /// Starts a relay for the application that listens at `path`. The first
    /// operation is a read of the first length header.
    pub fn start(mode: Mode, path: String) -> (step: Step)
        ensures
            step@ == start_model(mode, path@),
    {
        let relay = Relay { mode, path, phase: Phase::Header };
        Step {
            next: Next::Perform { relay, action: Action::ReadHeader },
            note: note(mode, "Native host started"),
        }
    }

    /// The mode that the relay was started in.
    pub fn mode(&self) -> (mode: Mode)
        ensures
            mode == self@.mode,
    {
        self.mode
    }

    /// Takes the outcome of the operation that the relay asked for last and
    /// answers with what comes next.
    pub fn step(self, outcome: Outcome) -> (step: Step)
        ensures
            step@ == step_model(self@, outcome@),
    {
        let Relay { mode, path, phase } = self;
        match phase {
            Phase::Header => Self::on_header(mode, path, outcome),
            Phase::Body { length } => Self::on_body(mode, path, length, outcome),
            Phase::Connect { message } => Self::on_connect(mode, path, message, outcome),
            Phase::Deadline { message } => Self::on_deadline(mode, path, message, outcome),
            Phase::Send => Self::on_send(mode, path, outcome),
            Phase::Reply => Self::on_reply(mode, path, outcome),
            Phase::Output { report } => Self::on_output(mode, path, report, outcome),
        }
    }

    /// The step that moves on to `phase` and asks for `action`.
    fn go(
        mode: Mode,
        path: String,
        phase: Phase,
        action: Action,
        note: Option<String>,
    ) -> (step: Step)
        ensures
            step@ == proceed(mode, path@, phase@, action@, note_view(note)),
    {
        Step { next: Next::Perform { relay: Relay { mode, path, phase }, action }, note }
    }

    /// The step after a read of the length header.
    fn on_header(mode: Mode, path: String, outcome: Outcome) -> (step: Step)
        ensures
            step@ == after_header(mode, path@, outcome@),
    {
        match outcome {
            Outcome::Failed(reason) => abort_with(Fatal::Input(reason)),
            Outcome::Done(bytes) => {
                if bytes.len() > HEADER_LEN {
                    abort_with(Fatal::Overrun)
                } else {
                    match read_header(bytes.as_slice()) {
                        Err(error) => abort_with(Fatal::Framing(error)),
                        Ok(None) => Step {
                            next: Next::Finish,
                            note: note(mode, "Native host exiting (stdin closed)"),
                        },
                        Ok(Some(length)) => Self::go(
                            mode,
                            path,
                            Phase::Body { length },
                            Action::ReadBody { length },
                            None,
                        ),
                    }
                }
            },
        }
    }

    /// The step after a read of the message.
    fn on_body(mode: Mode, path: String, length: u32, outcome: Outcome) -> (step: Step)
        ensures
            step@ == after_body(mode, path@, length as nat, outcome@),
    {
        match outcome {
            Outcome::Failed(reason) => abort_with(Fatal::Input(reason)),
            Outcome::Done(bytes) => {
                if bytes.len() > length as usize {
                    abort_with(Fatal::Overrun)
                } else if bytes.len() < length as usize {
                    abort_with(Fatal::Framing(FrameError::ShortBody))
                } else {
                    let note = note_count(mode, "Received message: ", bytes.len(), " bytes");
                    let target = path.clone();
                    Self::go(
                        mode,
                        path,
                        Phase::Connect { message: bytes },
                        Action::Connect { path: target },
                        note,
                    )
                }
            },
        }
    }

    /// The step after the attempt to connect.
    fn on_connect(mode: Mode, path: String, message: Vec<u8>, outcome: Outcome) -> (step: Step)
        ensures
            step@ == after_connect(mode, path@, message@, outcome@),
    {
        match mode {
            Mode::Verbose => match outcome {
                Outcome::Done(_) => {
                    let note = Some(join("Connected to socket at ", path.as_str()));
                    Self::go(
                        mode,
                        path,
                        Phase::Deadline { message },
                        Action::SetReadDeadline { seconds: READ_DEADLINE_SECONDS },
                        note,
                    )
                },
                Outcome::Failed(reason) => {
                    let text = join("App not running: ", reason.as_str());
                    let note = join("Failed to connect to socket: ", reason.as_str());
                    Self::error(mode, path, text, note)
                },
            },
            Mode::Minimal => match outcome {
                Outcome::Done(_) => Self::go(
                    mode,
                    path,
                    Phase::Send,
                    Action::Send { bytes: terminate(message) },
                    None,
                ),
                Outcome::Failed(_) => Self::go(mode, path, Phase::Header, Action::ReadHeader, None),
            },
        }
    }

    /// The step after the read deadline was set, or could not be.
    fn on_deadline(mode: Mode, path: String, message: Vec<u8>, outcome: Outcome) -> (step: Step)
        ensures
            step@ == after_deadline(mode, path@, message@, outcome@),
    {
        match outcome {
            Outcome::Done(_) => Self::go(
                mode,
                path,
                Phase::Send,
                Action::Send { bytes: terminate(message) },
                None,
            ),
            Outcome::Failed(reason) => {
                let text = join("Connection setup failed: ", reason.as_str());
                let note = join("Failed to set read deadline: ", reason.as_str());
                Self::error(mode, path, text, note)
            },
        }
    }

    /// The step after the message was sent, or could not be.
    fn on_send(mode: Mode, path: String, outcome: Outcome) -> (step: Step)
        ensures
            step@ == after_send(mode, path@, outcome@),
    {
        match mode {
            Mode::Verbose => match outcome {
                Outcome::Done(_) => Self::go(
                    mode,
                    path,
                    Phase::Reply,
                    Action::ReadLine,
                    Some(String::from_str("Message forwarded to socket")),
                ),
                Outcome::Failed(reason) => {
                    let text = join("Send failed: ", reason.as_str());
                    let note = join("Failed to forward message: ", reason.as_str());
                    Self::error(mode, path, text, note)
                },
            },
            Mode::Minimal => Self::go(mode, path, Phase::Header, Action::ReadHeader, None),
        }
    }

    /// The step after the read of the reply.
    fn on_reply(mode: Mode, path: String, outcome: Outcome) -> (step: Step)
        ensures
            step@ == after_reply(mode, path@, outcome@),
    {
        match outcome {
            Outcome::Done(line) => {
                if line.len() == 0 {
                    Self::error(
                        mode,
                        path,
                        String::from_str("App closed connection"),
                        String::from_str("Socket closed without response"),
                    )
                } else {
                    let payload = strip_terminator(line);
                    let size: usize = payload.len();
                    let note = note_count(mode, "Received response: ", size, " bytes");
                    let report = join_count("Sent native response: ", size, " bytes");
                    Self::go(
                        mode,
                        path,
                        Phase::Output { report },
                        Action::WriteFrame { bytes: encode_message(payload.as_slice()) },
                        note,
                    )
                }
            },
            Outcome::Failed(reason) => {
                let text = join("Read timeout: ", reason.as_str());
                let note = join("Failed to read response: ", reason.as_str());
                Self::error(mode, path, text, note)
            },
        }
    }

    /// The step after the response was written, or could not be.
    fn on_output(mode: Mode, path: String, report: String, outcome: Outcome) -> (step: Step)
        ensures
            step@ == after_output(mode, path@, report@, outcome@),
    {
        match outcome {
            Outcome::Done(_) => {
                let note = match mode {
                    Mode::Verbose => Some(report),
                    Mode::Minimal => None,
                };
                Self::go(mode, path, Phase::Header, Action::ReadHeader, note)
            },
            Outcome::Failed(reason) => abort_with(Fatal::Output(reason)),
        }
    }

    /// The step that answers the host with an error object.
    fn error(mode: Mode, path: String, text: String, note: String) -> (step: Step)
        ensures
            step@ == answer_error(mode, path@, text@, note@),
    {
        let body = error_response(text.as_str());
        let report = join("Sent error response: ", text.as_str());
        let note = match mode {
            Mode::Verbose => Some(note),
            Mode::Minimal => None,
        };
        Self::go(
            mode,
            path,
            Phase::Output { report },
            Action::WriteFrame { bytes: encode_message(body.as_slice()) },
            note,
        )
    }
}

} // verus!
