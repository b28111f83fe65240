//! Descriptions of child processes: what to run, with which arguments and
//! streams. The library only describes them; running one is the caller's part.

use vstd::prelude::*;
use vstd::string::*;

verus! {

/// Where a stream of a child process is connected.
#[derive(Clone, Copy, Debug, PartialEq, Eq, Structural)]
pub enum Stream {
    /// Discarded.
    Null,
    /// Captured by the caller.
    Piped,
    /// Shared with the caller.
    Inherit,
    /// Sent to the caller's diagnostic stream, so that nothing of it reaches
    /// the caller's own output.
    Diagnostic,
}

/// What a child process reads from its standard input.
#[derive(Debug)]
pub enum Input {
    /// Nothing is connected.
    Nothing,
    /// The text, then end of input.
    Text(String),
    /// The bytes, then end of input.
    Bytes(Vec<u8>),
    /// The contents of the file at this path.
    File(String),
}

/// The mathematical value of an [`Input`].
pub enum InputView {
    Nothing,
    Text(Seq<char>),
    Bytes(Seq<u8>),
    File(Seq<char>),
}

impl View for Input {
    type V = InputView;

    open spec fn view(&self) -> InputView {
        match self {
            Input::Nothing => InputView::Nothing,
            Input::Text(text) => InputView::Text(text@),
            Input::Bytes(bytes) => InputView::Bytes(bytes@),
            Input::File(path) => InputView::File(path@),
        }
    }
}

/// One variable set in the environment of a child process.
#[derive(Debug)]
pub struct EnvBinding {
    pub name: String,
    pub value: String,
}

impl View for EnvBinding {
    type V = (Seq<char>, Seq<char>);

    open spec fn view(&self) -> (Seq<char>, Seq<char>) {
        (self.name@, self.value@)
    }
}

/// A child process to run.
#[derive(Debug)]
pub struct Invocation {
    pub program: String,
    pub args: Vec<String>,
    pub current_dir: Option<String>,
    pub envs: Vec<EnvBinding>,
    pub input: Input,
    pub stdout: Stream,
    pub stderr: Stream,
}

/// The mathematical value of an [`Invocation`].
pub struct InvocationView {
    pub program: Seq<char>,
    pub args: Seq<Seq<char>>,
    pub current_dir: Option<Seq<char>>,
    pub envs: Seq<(Seq<char>, Seq<char>)>,
    pub input: InputView,
    pub stdout: Stream,
    pub stderr: Stream,
}

impl View for Invocation {
    type V = InvocationView;

    open spec fn view(&self) -> InvocationView {
        InvocationView {
            program: self.program@,
            args: self.args@.map_values(|s: String| s@),
            current_dir: match self.current_dir {
                Some(dir) => Some(dir@),
                None => None,
            },
            envs: self.envs@.map_values(|b: EnvBinding| b@),
            input: self.input@,
            stdout: self.stdout,
            stderr: self.stderr,
        }
    }
}

/// The invocation of `program` with no arguments, every stream shared with
/// the caller.
pub open spec fn bare_invocation(program: Seq<char>) -> InvocationView {
    InvocationView {
        program,
        args: Seq::empty(),
        current_dir: None,
        envs: Seq::empty(),
        input: InputView::Nothing,
        stdout: Stream::Inherit,
        stderr: Stream::Inherit,
    }
}

impl InvocationView {
    /// With `arg` added after the arguments.
    pub open spec fn arg(self, arg: Seq<char>) -> InvocationView {
        InvocationView { args: self.args.push(arg), ..self }
    }

    /// With `more` added after the arguments.
    pub open spec fn args(self, more: Seq<Seq<char>>) -> InvocationView {
        InvocationView { args: self.args + more, ..self }
    }

    /// Run in the directory `dir`.
    pub open spec fn current_dir(self, dir: Seq<char>) -> InvocationView {
        InvocationView { current_dir: Some(dir), ..self }
    }

    /// With the variable `name` set to `value`, after the others.
    pub open spec fn env(self, name: Seq<char>, value: Seq<char>) -> InvocationView {
        InvocationView { envs: self.envs.push((name, value)), ..self }
    }

    /// Reading `input`.
    pub open spec fn input(self, input: InputView) -> InvocationView {
        InvocationView { input, ..self }
    }

    /// With standard output connected to `stream`.
    pub open spec fn stdout(self, stream: Stream) -> InvocationView {
        InvocationView { stdout: stream, ..self }
    }

    /// With standard error connected to `stream`.
    pub open spec fn stderr(self, stream: Stream) -> InvocationView {
        InvocationView { stderr: stream, ..self }
    }
}

impl Invocation {
    /// Describes running `program` with no arguments.
    pub fn new(program: &str) -> (inv: Invocation)
        ensures
            inv@ == bare_invocation(program@),
    {
        let inv = Invocation {
            program: String::from_str(program),
            args: Vec::new(),
            current_dir: None,
            envs: Vec::new(),
            input: Input::Nothing,
            stdout: Stream::Inherit,
            stderr: Stream::Inherit,
        };
        assert(inv@.args =~= Seq::empty());
        assert(inv@.envs =~= Seq::empty());
        inv
    }

    /// Adds one argument.
    pub fn arg(&mut self, arg: &str)
        ensures
            final(self)@ == old(self)@.arg(arg@),
    {
        self.args.push(String::from_str(arg));
        assert(self@.args =~= old(self)@.args.push(arg@));
    }

    /// Sets the directory to run in.
    pub fn current_dir(&mut self, dir: &str)
        ensures
            final(self)@ == old(self)@.current_dir(dir@),
    {
        self.current_dir = Some(String::from_str(dir));
    }

    /// Sets one variable of the environment.
    pub fn env(&mut self, name: &str, value: &str)
        ensures
            final(self)@ == old(self)@.env(name@, value@),
    {
        self.envs.push(EnvBinding { name: String::from_str(name), value: String::from_str(value) });
        assert(self@.envs =~= old(self)@.envs.push((name@, value@)));
    }

    /// Sets what the process reads.
    pub fn input(&mut self, input: Input)
        ensures
            final(self)@ == old(self)@.input(input@),
    {
        self.input = input;
    }

    /// Connects standard output.
    pub fn stdout(&mut self, stream: Stream)
        ensures
            final(self)@ == old(self)@.stdout(stream),
    {
        self.stdout = stream;
    }

    /// Connects standard error.
    pub fn stderr(&mut self, stream: Stream)
        ensures
            final(self)@ == old(self)@.stderr(stream),
    {
        self.stderr = stream;
    }
}

/// How a child process ended, with what it wrote to the streams that were
/// captured.
#[derive(Debug)]
pub struct Outcome {
    /// Whether it exited with status zero.
    pub success: bool,
    pub stdout: Vec<u8>,
    pub stderr: Vec<u8>,
}

/// What the caller reports of a process it was asked to run.
#[derive(Debug)]
pub enum Report {
    /// The process ran and ended.
    Exited(Outcome),
    /// The process could not be started or waited for; the text says why.
    Failed(String),
}

/// The values of a sequence of invocations, in order.
pub open spec fn plans(items: Seq<Invocation>) -> Seq<InvocationView> {
    items.map_values(|inv: Invocation| inv@)
}

} // verus!
