//! The archive pass: turns the directory of packs into one archive file, and
//! back.

use crate::path::join;
use crate::path::joined;
use crate::process::Invocation;
use crate::process::InvocationView;
use crate::process::bare_invocation;
use crate::resolve::Event;
use crate::xtask::target::ArchiveMethod;
use crate::xtask::target::Target;
use crate::xtask::util::TaskError;
use crate::xtask::util::TaskErrorView;
use crate::xtask::util::done;
use crate::xtask::util::expect_done;
use crate::xtask::util::expect_good;
use crate::xtask::util::good_output;
use vstd::prelude::*;
use vstd::string::*;

verus! {

/// The path of a file that holds the archive of the packs.
#[derive(Debug)]
pub struct PackedArtifacts {
    pub path: String,
}

/// The path of a directory that holds the packs.
#[derive(Debug)]
pub struct UnpackedArchive {
    pub path: String,
}

/// Which step of archiving or unarchiving is awaited.
#[derive(Clone, Copy, Debug, PartialEq, Eq, Structural)]
pub enum ArchiveStage {
    /// The making of the tar archive.
    Taring,
    /// The compression of the tar archive.
    Gzipping,
    /// The writing of the archive file.
    Writing,
    /// The decompression of the archive file.
    Gunzipping,
    /// The making of the directory for the packs.
    MakingDir,
    /// The extraction of the tar archive.
    Extracting,
    /// Nothing: the pass has ended.
    Finished,
}

/// An archive pass under way, in one direction or the other.
#[derive(Debug)]
pub struct Archiving {
    /// The directory for temporary files.
    pub tmp: String,
    /// The bytes that the last process printed and the next one needs.
    pub held: Vec<u8>,
    pub stage: ArchiveStage,
}

/// The mathematical value of an [`Archiving`].
pub struct ArchivingView {
    pub tmp: Seq<char>,
    pub held: Seq<u8>,
    pub stage: ArchiveStage,
}

impl View for Archiving {
    type V = ArchivingView;

    open spec fn view(&self) -> ArchivingView {
        ArchivingView { tmp: self.tmp@, held: self.held@, stage: self.stage }
    }
}

/// What the archive pass asks of its caller.
#[derive(Debug)]
pub enum ArchiveStep {
    /// Run this process and report how it ended.
    Run(Invocation),
    /// Make this directory, which must not exist yet.
    CreateDir(String),
    /// Write these bytes to the file at this path.
    WriteFile { path: String, contents: Vec<u8> },
    /// The archive is written.
    Packed(PackedArtifacts),
    /// The packs are unpacked.
    Unpacked(UnpackedArchive),
    /// The pass has failed.
    Fail(TaskError),
}

/// The mathematical value of an [`ArchiveStep`].
pub enum ArchiveStepView {
    Run(InvocationView),
    CreateDir(Seq<char>),
    WriteFile { path: Seq<char>, contents: Seq<u8> },
    Packed(Seq<char>),
    Unpacked(Seq<char>),
    Fail(TaskErrorView),
}

impl View for ArchiveStep {
    type V = ArchiveStepView;

    open spec fn view(&self) -> ArchiveStepView {
        match self {
            ArchiveStep::Run(cmd) => ArchiveStepView::Run(cmd@),
            ArchiveStep::CreateDir(path) => ArchiveStepView::CreateDir(path@),
            ArchiveStep::WriteFile { path, contents } => ArchiveStepView::WriteFile {
                path: path@,
                contents: contents@,
            },
            ArchiveStep::Packed(artifacts) => ArchiveStepView::Packed(artifacts.path@),
            ArchiveStep::Unpacked(archive) => ArchiveStepView::Unpacked(archive.path@),
            ArchiveStep::Fail(e) => ArchiveStepView::Fail(e@),
        }
    }
}

/// The tar archive of everything in the directory `data`, printed.
pub open spec fn tar_create(data: Seq<char>) -> InvocationView {
    bare_invocation("tar"@).arg("--create"@).arg("--file"@).arg("-"@).arg("-C"@).arg(data).arg(
        "."@,
    ).input_output(Seq::empty())
}

/// The compression of `tar`, printed.
pub open spec fn gzip(tar: Seq<u8>) -> InvocationView {
    bare_invocation("gzip"@).arg("-c"@).input_output(tar)
}

/// The decompression of the file at `path`, printed.
pub open spec fn gunzip(path: Seq<char>) -> InvocationView {
    bare_invocation("gunzip"@).arg("-c"@).arg(path).captured()
}

/// The extraction of the tar archive `tar` into the directory `into`.
pub open spec fn tar_extract(into: Seq<char>, tar: Seq<u8>) -> InvocationView {
    bare_invocation("tar"@).arg("-C"@).arg(into).arg("--extract"@).arg("--file"@).arg(
        "-"@,
    ).input_output(tar)
}

/// The printing of the manifest that the tar archive `tar` of a packaged
/// source tree holds.
pub open spec fn manifest_query(tar: Seq<u8>) -> InvocationView {
    bare_invocation("tar"@).arg("-O"@).arg("--extract"@).arg("--file"@).arg("-"@).arg(
        "--wildcards"@,
    ).arg("*/Cargo.toml"@).input_output(tar)
}

/// Where the archive is written.
pub open spec fn artifact_path(tmp: Seq<char>) -> Seq<char> {
    joined(tmp, "artifact.tar.gz"@)
}

/// Where the packs are unpacked.
pub open spec fn artifacts_dir(tmp: Seq<char>) -> Seq<char> {
    joined(tmp, "artifacts"@)
}

impl ArchivingView {
    /// The pass has failed.
    pub open spec fn fail(self, e: TaskErrorView) -> (ArchivingView, ArchiveStepView) {
        (ArchivingView { stage: ArchiveStage::Finished, ..self }, ArchiveStepView::Fail(e))
    }

    /// The pass as it goes on and what it asks for once the awaited step is
    /// reported.
    ///
    /// Archiving: the tar archive is made, compressed and written as
    /// `artifact.tar.gz`. Unarchiving: the file is decompressed; the
    /// directory `artifacts` is made; the tar archive is extracted into it.
    /// Every process has to succeed.
    pub open spec fn next(self, event: Event) -> (ArchivingView, ArchiveStepView) {
        match self.stage {
            ArchiveStage::Taring => match good_output(event) {
                Err(e) => self.fail(e),
                Ok(tar) => (
                    ArchivingView { stage: ArchiveStage::Gzipping, ..self },
                    ArchiveStepView::Run(gzip(tar)),
                ),
            },
            ArchiveStage::Gzipping => match good_output(event) {
                Err(e) => self.fail(e),
                Ok(gz) => (
                    ArchivingView { stage: ArchiveStage::Writing, ..self },
                    ArchiveStepView::WriteFile { path: artifact_path(self.tmp), contents: gz },
                ),
            },
            ArchiveStage::Writing => match done(event) {
                Some(e) => self.fail(e),
                None => (
                    ArchivingView { stage: ArchiveStage::Finished, ..self },
                    ArchiveStepView::Packed(artifact_path(self.tmp)),
                ),
            },
            ArchiveStage::Gunzipping => match good_output(event) {
                Err(e) => self.fail(e),
                Ok(tar) => (
                    ArchivingView { held: tar, stage: ArchiveStage::MakingDir, ..self },
                    ArchiveStepView::CreateDir(artifacts_dir(self.tmp)),
                ),
            },
            ArchiveStage::MakingDir => match done(event) {
                Some(e) => self.fail(e),
                None => (
                    ArchivingView {
                        held: Seq::empty(),
                        stage: ArchiveStage::Extracting,
                        ..self
                    },
                    ArchiveStepView::Run(tar_extract(artifacts_dir(self.tmp), self.held)),
                ),
            },
            ArchiveStage::Extracting => match good_output(event) {
                Err(e) => self.fail(e),
                Ok(_) => (
                    ArchivingView { stage: ArchiveStage::Finished, ..self },
                    ArchiveStepView::Unpacked(artifacts_dir(self.tmp)),
                ),
            },
            ArchiveStage::Finished => self.fail(TaskErrorView::Unexpected),
        }
    }
}

/// The pass has failed.
fn fail(pass: Archiving, e: TaskError) -> (r: (Archiving, ArchiveStep))
    ensures
        (r.0@, r.1@) == pass@.fail(e@),
{
    (Archiving { stage: ArchiveStage::Finished, ..pass }, ArchiveStep::Fail(e))
}

/// The extraction of the tar archive `tar` into the directory `into`.
pub fn extract_into(into: &str, tar: Vec<u8>) -> (cmd: Invocation)
    ensures
        cmd@ == tar_extract(into@, tar@),
{
    let mut cmd = Invocation::new("tar");
    cmd.arg("-C");
    cmd.arg(into);
    cmd.arg("--extract");
    cmd.arg("--file");
    cmd.arg("-");
    cmd.input_output(tar)
}

/// The printing of the manifest that the tar archive `tar` of a packaged
/// source tree holds.
pub fn extract_manifest(tar: Vec<u8>) -> (cmd: Invocation)
    ensures
        cmd@ == manifest_query(tar@),
{
    let mut cmd = Invocation::new("tar");
    cmd.arg("-O");
    cmd.arg("--extract");
    cmd.arg("--file");
    cmd.arg("-");
    cmd.arg("--wildcards");
    cmd.arg("*/Cargo.toml");
    cmd.input_output(tar)
}

/// The decompression of the file at `path`, printed.
pub fn decompress(path: &str) -> (cmd: Invocation)
    ensures
        cmd@ == gunzip(path@),
{
    let mut cmd = Invocation::new("gunzip");
    cmd.arg("-c");
    cmd.arg(path);
    cmd.captured()
}

/// Begins to archive the packs in `data` as the target asks. A target that
/// names no method of archiving fails at once.
pub fn pack(data: &UnpackedArchive, target: &Target, tmp: &str) -> (r: (Archiving, ArchiveStep))
    ensures
        r.0@.tmp == tmp@,
        r.0@.held.len() == 0,
        match target@.cargo.pack_archive {
            Some(ArchiveMethod::TarGz) => r.0@.stage == ArchiveStage::Taring && r.1@
                == ArchiveStepView::Run(tar_create(data.path@)),
            None => r.0@.stage == ArchiveStage::Finished && r.1@ == ArchiveStepView::Fail(
                TaskErrorView::NoPackSpecification,
            ),
        },
{
    let pass = Archiving { tmp: String::from_str(tmp), held: Vec::new(), stage: ArchiveStage::Taring };
    match target.cargo.pack_archive {
        None => fail(pass, TaskError::NoPackSpecification),
        Some(ArchiveMethod::TarGz) => {
            let mut cmd = Invocation::new("tar");
            cmd.arg("--create");
            cmd.arg("--file");
            cmd.arg("-");
            cmd.arg("-C");
            cmd.arg(data.path.as_str());
            cmd.arg(".");
            let cmd = cmd.input_output(Vec::new());
            (pass, ArchiveStep::Run(cmd))
        },
    }
}

/// Begins to turn the archive file `pack` back into a directory of packs, as
/// the target asks. A target that names no method of archiving fails at
/// once.
pub fn unpack(pack: &PackedArtifacts, target: &Target, tmp: &str) -> (r: (Archiving, ArchiveStep))
    ensures
        r.0@.tmp == tmp@,
        r.0@.held.len() == 0,
        match target@.cargo.pack_archive {
            Some(ArchiveMethod::TarGz) => r.0@.stage == ArchiveStage::Gunzipping && r.1@
                == ArchiveStepView::Run(gunzip(pack.path@)),
            None => r.0@.stage == ArchiveStage::Finished && r.1@ == ArchiveStepView::Fail(
                TaskErrorView::NoPackSpecification,
            ),
        },
{
    let pass = Archiving {
        tmp: String::from_str(tmp),
        held: Vec::new(),
        stage: ArchiveStage::Gunzipping,
    };
    match target.cargo.pack_archive {
        None => fail(pass, TaskError::NoPackSpecification),
        Some(ArchiveMethod::TarGz) => {
            let cmd = decompress(pack.path.as_str());
            (pass, ArchiveStep::Run(cmd))
        },
    }
}

impl Archiving {
    /// Takes the report of the awaited step and says what to do next.
    pub fn advance(self, event: Event) -> (r: (Archiving, ArchiveStep))
        ensures
            (r.0@, r.1@) == self@.next(event),
    {
        match self.stage {
            ArchiveStage::Taring => match expect_good(event) {
                Err(e) => fail(self, e),
                Ok(tar) => {
                    let mut cmd = Invocation::new("gzip");
                    cmd.arg("-c");
                    let cmd = cmd.input_output(tar);
                    (Archiving { stage: ArchiveStage::Gzipping, ..self }, ArchiveStep::Run(cmd))
                },
            },
            ArchiveStage::Gzipping => match expect_good(event) {
                Err(e) => fail(self, e),
                Ok(gz) => {
                    let path = join(self.tmp.as_str(), "artifact.tar.gz");
                    (
                        Archiving { stage: ArchiveStage::Writing, ..self },
                        ArchiveStep::WriteFile { path, contents: gz },
                    )
                },
            },
            ArchiveStage::Writing => match expect_done(event) {
                Err(e) => fail(self, e),
                Ok(_) => {
                    let path = join(self.tmp.as_str(), "artifact.tar.gz");
                    (
                        Archiving { stage: ArchiveStage::Finished, ..self },
                        ArchiveStep::Packed(PackedArtifacts { path }),
                    )
                },
            },
            ArchiveStage::Gunzipping => match expect_good(event) {
                Err(e) => fail(self, e),
                Ok(tar) => {
                    let path = join(self.tmp.as_str(), "artifacts");
                    (
                        Archiving { held: tar, stage: ArchiveStage::MakingDir, tmp: self.tmp },
                        ArchiveStep::CreateDir(path),
                    )
                },
            },
            ArchiveStage::MakingDir => match expect_done(event) {
                Err(e) => fail(self, e),
                Ok(_) => {
                    let path = join(self.tmp.as_str(), "artifacts");
                    let cmd = extract_into(path.as_str(), self.held);
                    (
                        Archiving {
                            held: Vec::new(),
                            stage: ArchiveStage::Extracting,
                            tmp: self.tmp,
                        },
                        ArchiveStep::Run(cmd),
                    )
                },
            },
            ArchiveStage::Extracting => match expect_good(event) {
                Err(e) => fail(self, e),
                Ok(_) => {
                    let path = join(self.tmp.as_str(), "artifacts");
                    (
                        Archiving { stage: ArchiveStage::Finished, ..self },
                        ArchiveStep::Unpacked(UnpackedArchive { path }),
                    )
                },
            },
            ArchiveStage::Finished => fail(self, TaskError::Unexpected),
        }
    }
}

} // verus!
