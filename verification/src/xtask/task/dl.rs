//! Fetching the archive of the packs from where the manifest says it is.

use crate::path::join;
use crate::path::joined;
use crate::xtask::target::Target;
use crate::xtask::task::artifacts::PackedArtifacts;
use crate::xtask::util::TaskError;
use crate::xtask::util::TaskErrorView;
use vstd::prelude::*;
use vstd::string::*;

verus! {

/// An archive of packs that was downloaded.
#[derive(Debug)]
pub struct Download {
    pub artifact: PackedArtifacts,
}

/// A request for the archive: where to get it, and the file to keep it in.
#[derive(Debug)]
pub struct Request {
    pub location: String,
    pub destination: String,
}

/// How an answer of the server counts.
#[derive(Clone, Copy, Debug, PartialEq, Eq, Structural)]
pub enum Answer {
    /// The body is the archive.
    Success,
    /// The server kept redirecting.
    Redirected,
    /// The server refused the request, or failed.
    Refused,
}

/// How a status counts: the two hundreds are a success, the three hundreds
/// are redirections that were not followed to an end, everything else is a
/// refusal.
pub open spec fn answer_of(status: u16) -> Answer {
    if 200 <= status <= 299 {
        Answer::Success
    } else if 300 <= status <= 399 {
        Answer::Redirected
    } else {
        Answer::Refused
    }
}

/// How a status counts.
pub fn classify(status: u16) -> (answer: Answer)
    ensures
        answer == answer_of(status),
{
    if 200 <= status && status <= 299 {
        Answer::Success
    } else if 300 <= status && status <= 399 {
        Answer::Redirected
    } else {
        Answer::Refused
    }
}

/// The request for the archive of the packs of `target`, to be kept under
/// `tmp`. A target that does not say where the archive is has none.
pub fn download(target: &Target, tmp: &str) -> (r: Result<Request, TaskError>)
    ensures
        match r {
            Ok(request) => target@.cargo.pack_artifact == Some(request.location@)
                && request.destination@ == joined(tmp@, "_vcs_file.tar.gz"@),
            Err(e) => target@.cargo.pack_artifact is None && e@
                == TaskErrorView::NoArtifactLocation,
        },
{
    match &target.cargo.pack_artifact {
        None => Err(TaskError::NoArtifactLocation),
        Some(archive) => Ok(
            Request { location: archive.clone(), destination: join(tmp, "_vcs_file.tar.gz") },
        ),
    }
}

/// What the answer of the server to `request` amounts to: with a success
/// the body is kept at the destination; otherwise the answer is the error.
pub fn received(request: Request, status: u16, status_text: &str) -> (r: Result<
    Download,
    TaskError,
>)
    ensures
        match r {
            Ok(download) => answer_of(status) == Answer::Success && download.artifact.path@
                == request.destination@,
            Err(e) => match answer_of(status) {
                Answer::Success => false,
                Answer::Redirected => e@ == (TaskErrorView::TooManyRedirects {
                    location: request.location@,
                    status,
                    status_text: status_text@,
                }),
                Answer::Refused => e@ == (TaskErrorView::BadRequest {
                    location: request.location@,
                    status,
                    status_text: status_text@,
                }),
            },
        },
{
    match classify(status) {
        Answer::Success => Ok(
            Download { artifact: PackedArtifacts { path: request.destination } },
        ),
        Answer::Redirected => Err(
            TaskError::TooManyRedirects {
                location: request.location,
                status,
                status_text: String::from_str(status_text),
            },
        ),
        Answer::Refused => Err(
            TaskError::BadRequest {
                location: request.location,
                status,
                status_text: String::from_str(status_text),
            },
        ),
    }
}

} // verus!
