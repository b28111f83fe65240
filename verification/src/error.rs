//! Why a run could not come to a conclusion.

use vstd::prelude::*;
use vstd::string::*;

verus! {

/// A condition that keeps the tests from running at all. It is neither a
/// pass nor a failure of the tests: the caller reports it and stops.
#[derive(Debug)]
pub enum Inconclusive {
    /// The package names no repository.
    MissingRepository,
    /// The repository locator in effect is empty.
    InvalidRepository,
    /// The pin file is not a document; the text is what the reader of the
    /// document says of it.
    UnreadablePin(String),
    /// The pin file has no `git` section.
    NoGitSection,
    /// The `git` section of the pin file has no `sha1` entry.
    CommitNotRecognized,
    /// The `sha1` entry of the pin file is not a string.
    CommitNotString,
    /// The text is too short to identify a commit safely.
    UnsafeCommitId(String),
    /// The binary of the version control system was not found; the text says
    /// why.
    NoVcs(String),
    /// No directory is available to hold the object store.
    NoDataDir,
    /// A registered path is ignored by the version control system; the text
    /// is its status record.
    Ignored(String),
    /// A registered path is not tracked by the version control system; the
    /// text is its status record.
    Untracked(String),
    /// Fetching from the network was not agreed to; the lines describe what
    /// would have been done.
    ConsentDenied(Vec<String>),
    /// A child process did not succeed; the bytes are what it wrote to its
    /// error stream.
    ProcessFailed(Vec<u8>),
    /// A file operation of the host did not succeed; the text says why.
    Io(String),
    /// The caller reported something that the current step cannot produce.
    Unexpected,
}

/// The mathematical value of an [`Inconclusive`].
pub enum InconclusiveView {
    MissingRepository,
    InvalidRepository,
    /// The words of the reader are no part of the value: they are not fixed
    /// by the text of the pin file.
    UnreadablePin,
    NoGitSection,
    CommitNotRecognized,
    CommitNotString,
    UnsafeCommitId(Seq<char>),
    NoVcs(Seq<char>),
    NoDataDir,
    Ignored(Seq<char>),
    Untracked(Seq<char>),
    ConsentDenied(Seq<Seq<char>>),
    ProcessFailed(Seq<u8>),
    Io(Seq<char>),
    Unexpected,
}

impl View for Inconclusive {
    type V = InconclusiveView;

    open spec fn view(&self) -> InconclusiveView {
        match self {
            Inconclusive::MissingRepository => InconclusiveView::MissingRepository,
            Inconclusive::InvalidRepository => InconclusiveView::InvalidRepository,
            Inconclusive::UnreadablePin(_) => InconclusiveView::UnreadablePin,
            Inconclusive::NoGitSection => InconclusiveView::NoGitSection,
            Inconclusive::CommitNotRecognized => InconclusiveView::CommitNotRecognized,
            Inconclusive::CommitNotString => InconclusiveView::CommitNotString,
            Inconclusive::UnsafeCommitId(text) => InconclusiveView::UnsafeCommitId(text@),
            Inconclusive::NoVcs(why) => InconclusiveView::NoVcs(why@),
            Inconclusive::NoDataDir => InconclusiveView::NoDataDir,
            Inconclusive::Ignored(record) => InconclusiveView::Ignored(record@),
            Inconclusive::Untracked(record) => InconclusiveView::Untracked(record@),
            Inconclusive::ConsentDenied(plan) => InconclusiveView::ConsentDenied(
                plan@.map_values(|s: String| s@),
            ),
            Inconclusive::ProcessFailed(stderr) => InconclusiveView::ProcessFailed(stderr@),
            Inconclusive::Io(why) => InconclusiveView::Io(why@),
            Inconclusive::Unexpected => InconclusiveView::Unexpected,
        }
    }
}

impl InconclusiveView {
    /// The one line that tells the cause.
    pub open spec fn diagnostic(self) -> Seq<char> {
        match self {
            InconclusiveView::MissingRepository => "The crate must have a valid URL in `package.repository`"@,
            InconclusiveView::InvalidRepository => "The repository must have a valid URL"@,
            InconclusiveView::UnreadablePin => "The pin file is no JSON document"@,
            InconclusiveView::NoGitSection => "VCS does not contain a git section."@,
            InconclusiveView::CommitNotRecognized => "VCS commit ID not recognized."@,
            InconclusiveView::CommitNotString => "VCS commit ID is not a string"@,
            InconclusiveView::UnsafeCommitId(text) => "Unlikely to be a safe Git Object ID in vcs pin file: "@
                + text,
            InconclusiveView::NoVcs(why) => why,
            InconclusiveView::NoDataDir => "This setup must only be called in an integration test or benchmark, or with an explicit TMPDIR"@,
            InconclusiveView::Ignored(_) => "Your test depends on ignored file(s)"@,
            InconclusiveView::Untracked(_) => "Your test depends on untracked file(s)"@,
            InconclusiveView::ConsentDenied(_) => "refusing to continue without explicit agreement to network (see error log)."@,
            InconclusiveView::ProcessFailed(_) => "Git operation was not successful"@,
            InconclusiveView::Io(why) => why,
            InconclusiveView::Unexpected => "The steps were reported out of order"@,
        }
    }
}

impl Inconclusive {
    /// The one line that tells the cause. For a pin file that is no
    /// document it is what the reader of the document said.
    pub fn message(&self) -> (line: String)
        ensures
            match self {
                Inconclusive::UnreadablePin(why) => line@ == why@,
                _ => line@ == self@.diagnostic(),
            },
    {
        match self {
            Inconclusive::MissingRepository => String::from_str(
                "The crate must have a valid URL in `package.repository`",
            ),
            Inconclusive::InvalidRepository => String::from_str(
                "The repository must have a valid URL",
            ),
            Inconclusive::UnreadablePin(why) => why.clone(),
            Inconclusive::NoGitSection => String::from_str("VCS does not contain a git section."),
            Inconclusive::CommitNotRecognized => String::from_str("VCS commit ID not recognized."),
            Inconclusive::CommitNotString => String::from_str("VCS commit ID is not a string"),
            Inconclusive::UnsafeCommitId(text) => String::from_str(
                "Unlikely to be a safe Git Object ID in vcs pin file: ",
            ).concat(text.as_str()),
            Inconclusive::NoVcs(why) => why.clone(),
            Inconclusive::NoDataDir => String::from_str(
                "This setup must only be called in an integration test or benchmark, or with an explicit TMPDIR",
            ),
            Inconclusive::Ignored(_) => String::from_str("Your test depends on ignored file(s)"),
            Inconclusive::Untracked(_) => String::from_str(
                "Your test depends on untracked file(s)",
            ),
            Inconclusive::ConsentDenied(_) => String::from_str(
                "refusing to continue without explicit agreement to network (see error log).",
            ),
            Inconclusive::ProcessFailed(_) => String::from_str("Git operation was not successful"),
            Inconclusive::Io(why) => why.clone(),
            Inconclusive::Unexpected => String::from_str("The steps were reported out of order"),
        }
    }
}

} // verus!
