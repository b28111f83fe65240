//! What the tasks have in common: how processes are connected, what a task
//! asks of its caller, and how it fails.

use crate::process::Input;
use crate::process::InputView;
use crate::process::Invocation;
use crate::process::InvocationView;
use crate::process::Report;
use crate::process::Stream;
use crate::resolve::Event;
use crate::process::Outcome;
use crate::text::decimal;
use crate::text::decimal_text;
use crate::text::text_from_utf8;
use crate::text::utf8_error;
use vstd::prelude::*;
use vstd::string::*;
use vstd::utf8::decode_utf8;
use vstd::utf8::valid_utf8;

verus! {

/// Why a task did not come to an end.
#[derive(Debug)]
pub enum TaskError {
    /// A file operation or the start of a process failed; the text says why.
    Io(String),
    /// A process that has to succeed did not.
    Unsuccessful,
    /// Bytes that have to be text are not; the text says why.
    NotText(String),
    /// The text is too short to identify a commit safely.
    UnsafeCommitId(String),
    /// The manifest does not say how the packs are archived.
    NoPackSpecification,
    /// The manifest does not say where the archive of the packs is found.
    NoArtifactLocation,
    /// The server kept redirecting.
    TooManyRedirects { location: String, status: u16, status_text: String },
    /// The server refused the request, or failed.
    BadRequest { location: String, status: u16, status_text: String },
    /// The caller reported something that the current step cannot produce.
    Unexpected,
}

/// The mathematical value of a [`TaskError`].
pub enum TaskErrorView {
    Io(Seq<char>),
    Unsuccessful,
    NotText(Seq<char>),
    UnsafeCommitId(Seq<char>),
    NoPackSpecification,
    NoArtifactLocation,
    TooManyRedirects { location: Seq<char>, status: u16, status_text: Seq<char> },
    BadRequest { location: Seq<char>, status: u16, status_text: Seq<char> },
    Unexpected,
}

impl View for TaskError {
    type V = TaskErrorView;

    open spec fn view(&self) -> TaskErrorView {
        match self {
            TaskError::Io(why) => TaskErrorView::Io(why@),
            TaskError::Unsuccessful => TaskErrorView::Unsuccessful,
            TaskError::NotText(why) => TaskErrorView::NotText(why@),
            TaskError::UnsafeCommitId(text) => TaskErrorView::UnsafeCommitId(text@),
            TaskError::NoPackSpecification => TaskErrorView::NoPackSpecification,
            TaskError::NoArtifactLocation => TaskErrorView::NoArtifactLocation,
            TaskError::TooManyRedirects { location, status, status_text } => {
                TaskErrorView::TooManyRedirects {
                    location: location@,
                    status: *status,
                    status_text: status_text@,
                }
            },
            TaskError::BadRequest { location, status, status_text } => TaskErrorView::BadRequest {
                location: location@,
                status: *status,
                status_text: status_text@,
            },
            TaskError::Unexpected => TaskErrorView::Unexpected,
        }
    }
}

impl TaskErrorView {
    /// The lines that tell the cause.
    pub open spec fn diagnostic(self) -> Seq<char> {
        match self {
            TaskErrorView::Io(why) => why,
            TaskErrorView::Unsuccessful => "other error"@,
            TaskErrorView::NotText(why) => why,
            TaskErrorView::UnsafeCommitId(text) => "Unlikely to be a safe Git Object ID: "@ + text,
            TaskErrorView::NoPackSpecification => "No `` specified in `Cargo.toml`"@,
            TaskErrorView::NoArtifactLocation => "No `` specified in `Cargo.toml`"@,
            TaskErrorView::TooManyRedirects { location, status, status_text } => "Server sent too many redirects following artifact location "@
                + location + ".\nTry following it with your browser?\nTechnical details: "@
                + decimal(status as nat) + " "@ + status_text,
            TaskErrorView::BadRequest { location, status, status_text } => "Bad request following artifact location "@
                + location + "\nTechnical details: "@ + decimal(status as nat) + " "@
                + status_text + "\n<server response could not be read>"@,
            TaskErrorView::Unexpected => "The steps were reported out of order"@,
        }
    }
}

impl TaskError {
    /// The lines that tell the cause.
    pub fn message(&self) -> (text: String)
        ensures
            text@ == self@.diagnostic(),
    {
        match self {
            TaskError::Io(why) => why.clone(),
            TaskError::Unsuccessful => String::from_str("other error"),
            TaskError::NotText(why) => why.clone(),
            TaskError::UnsafeCommitId(text) => String::from_str(
                "Unlikely to be a safe Git Object ID: ",
            ).concat(text.as_str()),
            TaskError::NoPackSpecification => String::from_str("No `` specified in `Cargo.toml`"),
            TaskError::NoArtifactLocation => String::from_str("No `` specified in `Cargo.toml`"),
            TaskError::TooManyRedirects { location, status, status_text } => String::from_str(
                "Server sent too many redirects following artifact location ",
            ).concat(location.as_str()).concat(
                ".\nTry following it with your browser?\nTechnical details: ",
            ).concat(decimal_text(*status).as_str()).concat(" ").concat(status_text.as_str()),
            TaskError::BadRequest { location, status, status_text } => String::from_str(
                "Bad request following artifact location ",
            ).concat(location.as_str()).concat("\nTechnical details: ").concat(
                decimal_text(*status).as_str(),
            ).concat(" ").concat(status_text.as_str()).concat(
                "\n<server response could not be read>",
            ),
            TaskError::Unexpected => String::from_str("The steps were reported out of order"),
        }
    }
}

impl InvocationView {
    /// With standard output sent to the diagnostic stream.
    pub open spec fn mute_stdout(self) -> InvocationView {
        self.stdout(Stream::Diagnostic)
    }

    /// Run for its exit status alone, with nothing printed to the caller's
    /// output.
    pub open spec fn success(self) -> InvocationView {
        self.mute_stdout()
    }

    /// Run with its output captured.
    pub open spec fn output(self) -> InvocationView {
        self.stdout(Stream::Piped)
    }

    /// Run with `inp` as its input and its output captured.
    pub open spec fn input_output(self, inp: Seq<u8>) -> InvocationView {
        self.input(InputView::Bytes(inp)).stdout(Stream::Piped)
    }

    /// Run with both its output and its errors captured.
    pub open spec fn captured(self) -> InvocationView {
        self.stdout(Stream::Piped).stderr(Stream::Piped)
    }
}

impl Invocation {
    /// Sends standard output to the diagnostic stream, so that nothing is
    /// printed by accident to the output of the caller.
    pub fn mute_stdout(&mut self)
        ensures
            final(self)@ == old(self)@.mute_stdout(),
    {
        self.stdout(Stream::Diagnostic);
    }

    /// The process as it is run for its exit status alone.
    pub fn success(self) -> (cmd: Invocation)
        ensures
            cmd@ == self@.success(),
    {
        let mut cmd = self;
        cmd.mute_stdout();
        cmd
    }

    /// The process as it is run with its output captured.
    pub fn output(self) -> (cmd: Invocation)
        ensures
            cmd@ == self@.output(),
    {
        let mut cmd = self;
        cmd.stdout(Stream::Piped);
        cmd
    }

    /// The process as it is run with `inp` as its input and its output
    /// captured.
    pub fn input_output(self, inp: Vec<u8>) -> (cmd: Invocation)
        ensures
            cmd@ == self@.input_output(inp@),
    {
        let mut cmd = self;
        cmd.input(Input::Bytes(inp));
        cmd.stdout(Stream::Piped);
        cmd
    }

    /// The process as it is run with both its output and its errors
    /// captured.
    pub fn captured(self) -> (cmd: Invocation)
        ensures
            cmd@ == self@.captured(),
    {
        let mut cmd = self;
        cmd.stdout(Stream::Piped);
        cmd.stderr(Stream::Piped);
        cmd
    }
}

/// What a reported process amounts to where it has to succeed: what it
/// printed, or why it counts as failed.
pub open spec fn good_output(event: Event) -> Result<Seq<u8>, TaskErrorView> {
    match event {
        Event::Ran(Report::Exited(outcome)) => if outcome.success {
            Ok(outcome.stdout@)
        } else {
            Err(TaskErrorView::Unsuccessful)
        },
        Event::Ran(Report::Failed(why)) => Err(TaskErrorView::Io(why@)),
        Event::Failed(why) => Err(TaskErrorView::Io(why@)),
        _ => Err(TaskErrorView::Unexpected),
    }
}

/// What the report of a file operation amounts to: nothing where it was
/// done, or why it was not.
pub open spec fn done(event: Event) -> Option<TaskErrorView> {
    match event {
        Event::Done => None,
        Event::Failed(why) => Some(TaskErrorView::Io(why@)),
        _ => Some(TaskErrorView::Unexpected),
    }
}

/// Whether `r` is the exec form of `expected`.
pub open spec fn bytes_match(r: Result<Vec<u8>, TaskError>, expected: Result<Seq<u8>, TaskErrorView>)
    -> bool {
    match r {
        Ok(bytes) => expected == Ok::<Seq<u8>, TaskErrorView>(bytes@),
        Err(e) => expected == Err::<Seq<u8>, TaskErrorView>(e@),
    }
}

/// Holds a reported process to having succeeded and hands out what it
/// printed.
pub fn expect_good(event: Event) -> (r: Result<Vec<u8>, TaskError>)
    ensures
        bytes_match(r, good_output(event)),
{
    match event {
        Event::Ran(Report::Exited(outcome)) => {
            if outcome.success {
                Ok(outcome.stdout)
            } else {
                Err(TaskError::Unsuccessful)
            }
        },
        Event::Ran(Report::Failed(why)) => Err(TaskError::Io(why)),
        Event::Failed(why) => Err(TaskError::Io(why)),
        _ => Err(TaskError::Unexpected),
    }
}

/// Holds a file operation to having been done.
pub fn expect_done(event: Event) -> (r: Result<(), TaskError>)
    ensures
        match r {
            Ok(_) => done(event) is None,
            Err(e) => done(event) == Some(e@),
        },
{
    match event {
        Event::Done => Ok(()),
        Event::Failed(why) => Err(TaskError::Io(why)),
        _ => Err(TaskError::Unexpected),
    }
}

/// What the output of a process amounts to as text.
pub open spec fn output_text(outcome: Outcome) -> Result<Seq<char>, TaskErrorView> {
    if valid_utf8(outcome.stdout@) {
        Ok(decode_utf8(outcome.stdout@))
    } else {
        Err(TaskErrorView::NotText(utf8_error(outcome.stdout@)))
    }
}

impl Outcome {
    /// What the process printed, as text.
    pub fn into_string(self) -> (r: Result<String, TaskError>)
        ensures
            match r {
                Ok(text) => output_text(self) == Ok::<Seq<char>, TaskErrorView>(text@),
                Err(e) => output_text(self) == Err::<Seq<char>, TaskErrorView>(e@),
            },
    {
        match text_from_utf8(self.stdout.as_slice()) {
            Ok(text) => Ok(text),
            Err(why) => Err(TaskError::NotText(why)),
        }
    }
}

} // verus!
