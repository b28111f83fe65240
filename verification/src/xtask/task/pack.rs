//! The pack pass: pins the commit of the source tree, lets the tests record
//! the objects they need, and packages the source.

use crate::git::CommitId;
use crate::path::join;
use crate::path::joined;
use crate::process::Invocation;
use crate::process::InvocationView;
use crate::process::bare_invocation;
use crate::resolve::Event;
use crate::text::text_from_utf8;
use crate::text::trimmed;
use crate::text::utf8_error;
use crate::xtask::target::CrateSource;
use crate::xtask::target::Target;
use crate::xtask::util::TaskError;
use crate::xtask::util::TaskErrorView;
use crate::xtask::util::done;
use crate::xtask::util::expect_done;
use crate::xtask::util::expect_good;
use crate::xtask::util::good_output;
use vstd::prelude::*;
use vstd::string::*;
use vstd::utf8::decode_utf8;
use vstd::utf8::encode_utf8;
use vstd::utf8::valid_utf8;

verus! {

/// What the pack pass leaves behind.
#[derive(Debug)]
pub struct PackedData {
    /// The file that pins the commit.
    pub vcs_info: String,
    /// The directory of the packs.
    pub pack_path: String,
    /// The packaged source tree.
    pub crate_: CrateSource,
}

/// The mathematical value of a [`PackedData`].
pub struct PackedDataView {
    pub vcs_info: Seq<char>,
    pub pack_path: Seq<char>,
    pub crate_: Seq<char>,
}

impl View for PackedData {
    type V = PackedDataView;

    open spec fn view(&self) -> PackedDataView {
        PackedDataView {
            vcs_info: self.vcs_info@,
            pack_path: self.pack_path@,
            crate_: self.crate_.path@,
        }
    }
}

/// Which step of the pack pass is awaited.
#[derive(Clone, Copy, Debug, PartialEq, Eq, Structural)]
pub enum PackStage {
    /// The query for the head commit.
    ShowingHead,
    /// The run of the tests that records the packs.
    Recording,
    /// The packaging of the source.
    Packaging,
    /// The writing of the pin file.
    WritingPin,
    /// Nothing: the pass has ended.
    Finished,
}

/// A pack pass under way.
#[derive(Debug)]
pub struct PackPass {
    /// The binary of the build tool.
    pub cargo: String,
    /// The directory of the source tree.
    pub repo: String,
    /// The directory for temporary files.
    pub tmp: String,
    /// The file name of the packaged source tree.
    pub crate_name: String,
    /// The head commit, once it is known.
    pub commit: Option<CommitId>,
    pub stage: PackStage,
}

/// The mathematical value of a [`PackPass`].
pub struct PackPassView {
    pub cargo: Seq<char>,
    pub repo: Seq<char>,
    pub tmp: Seq<char>,
    pub crate_name: Seq<char>,
    pub commit: Option<Seq<char>>,
    pub stage: PackStage,
}

impl View for PackPass {
    type V = PackPassView;

    open spec fn view(&self) -> PackPassView {
        PackPassView {
            cargo: self.cargo@,
            repo: self.repo@,
            tmp: self.tmp@,
            crate_name: self.crate_name@,
            commit: match self.commit {
                Some(commit) => Some(commit@),
                None => None,
            },
            stage: self.stage,
        }
    }
}

/// What the pack pass asks of its caller.
#[derive(Debug)]
pub enum PackStep {
    /// Run this process and report how it ended.
    Run(Invocation),
    /// Write these bytes to the file at this path.
    WriteFile { path: String, contents: Vec<u8> },
    /// The pass is done.
    Packed(PackedData),
    /// The pass has failed.
    Fail(TaskError),
}

/// The mathematical value of a [`PackStep`].
pub enum PackStepView {
    Run(InvocationView),
    WriteFile { path: Seq<char>, contents: Seq<u8> },
    Packed(PackedDataView),
    Fail(TaskErrorView),
}

impl View for PackStep {
    type V = PackStepView;

    open spec fn view(&self) -> PackStepView {
        match self {
            PackStep::Run(cmd) => PackStepView::Run(cmd@),
            PackStep::WriteFile { path, contents } => PackStepView::WriteFile {
                path: path@,
                contents: contents@,
            },
            PackStep::Packed(data) => PackStepView::Packed(data@),
            PackStep::Fail(e) => PackStepView::Fail(e@),
        }
    }
}

/// Whether the byte is white space.
pub open spec fn is_blank(byte: u8) -> bool {
    byte == 0x20 || (0x09 <= byte && byte <= 0x0d)
}

/// The bytes before the first white space.
pub open spec fn first_token(bytes: Seq<u8>) -> Seq<u8>
    decreases bytes.len(),
{
    if bytes.len() == 0 || is_blank(bytes[0]) {
        Seq::empty()
    } else {
        seq![bytes[0]] + first_token(bytes.subrange(1, bytes.len() as int))
    }
}

/// The commit that the query for the head printed: its first token, which
/// must be text of at least 40 characters.
pub open spec fn commit_of(stdout: Seq<u8>) -> Result<Seq<char>, TaskErrorView> {
    if !valid_utf8(first_token(stdout)) {
        Err(TaskErrorView::NotText(utf8_error(first_token(stdout))))
    } else if !CommitId::acceptable(decode_utf8(first_token(stdout))) {
        Err(TaskErrorView::UnsafeCommitId(trimmed(decode_utf8(first_token(stdout)))))
    } else {
        Ok(trimmed(decode_utf8(first_token(stdout))))
    }
}

/// The text of the file that pins `commit`.
pub open spec fn vcs_info_data(commit: Seq<char>) -> Seq<char> {
    "{\"git\":{\"sha1\":\""@ + commit + "\"},\"path_in_vcs\":\"\"}"@
}

/// The directory in the source tree where the packs are recorded.
pub open spec fn pack_dir(repo: Seq<char>) -> Seq<char> {
    joined(joined(repo, "target"@), "xtest-data"@)
}

/// The query for the head commit of the source tree.
pub open spec fn show_head(repo: Seq<char>) -> InvocationView {
    bare_invocation("git"@).arg("--git-dir"@).arg(joined(repo, ".git"@)).arg("show"@).arg(
        "HEAD"@,
    ).arg("--oneline"@).arg("--summary"@).arg("--no-abbrev-commit"@).captured()
}

/// The run of the tests that records the packs in `packdir`.
pub open spec fn recording_pass(cargo: Seq<char>, packdir: Seq<char>) -> InvocationView {
    bare_invocation(cargo).arg("test"@).env("CARGO_XTEST_DATA_PACK_OBJECTS"@, packdir).success()
}

/// The packaging of the source, dirty or not, without a build of the result.
pub open spec fn package_source(cargo: Seq<char>) -> InvocationView {
    bare_invocation(cargo).arg("package"@).arg("--allow-dirty"@).arg("--no-verify"@).success()
}

impl PackPassView {
    /// The pass moved on to `stage`.
    pub open spec fn at(self, stage: PackStage) -> PackPassView {
        PackPassView { stage, ..self }
    }

    /// The pass has failed.
    pub open spec fn fail(self, e: TaskErrorView) -> (PackPassView, PackStepView) {
        (self.at(PackStage::Finished), PackStepView::Fail(e))
    }

    /// What the pass leaves behind.
    pub open spec fn result(self) -> PackedDataView {
        PackedDataView {
            vcs_info: joined(self.tmp, ".xtest_vcs_info.json"@),
            pack_path: pack_dir(self.repo),
            crate_: joined("target/package"@, self.crate_name),
        }
    }

    /// The pass as it goes on and what it asks for once the awaited step is
    /// reported: the head commit is read; the tests are run to record the
    /// packs; the source is packaged; the pin file is written. Every process
    /// has to succeed.
    pub open spec fn next(self, event: Event) -> (PackPassView, PackStepView) {
        match self.stage {
            PackStage::ShowingHead => match good_output(event) {
                Err(e) => self.fail(e),
                Ok(stdout) => match commit_of(stdout) {
                    Err(e) => self.fail(e),
                    Ok(commit) => (
                        PackPassView { commit: Some(commit), stage: PackStage::Recording, ..self },
                        PackStepView::Run(recording_pass(self.cargo, pack_dir(self.repo))),
                    ),
                },
            },
            PackStage::Recording => match good_output(event) {
                Err(e) => self.fail(e),
                Ok(_) => (
                    self.at(PackStage::Packaging),
                    PackStepView::Run(package_source(self.cargo)),
                ),
            },
            PackStage::Packaging => match good_output(event) {
                Err(e) => self.fail(e),
                Ok(_) => match self.commit {
                    None => self.fail(TaskErrorView::Unexpected),
                    Some(commit) => (
                        self.at(PackStage::WritingPin),
                        PackStepView::WriteFile {
                            path: joined(self.tmp, ".xtest_vcs_info.json"@),
                            contents: encode_utf8(vcs_info_data(commit)),
                        },
                    ),
                },
            },
            PackStage::WritingPin => match done(event) {
                Some(e) => self.fail(e),
                None => (self.at(PackStage::Finished), PackStepView::Packed(self.result())),
            },
            PackStage::Finished => self.fail(TaskErrorView::Unexpected),
        }
    }
}

/// The bytes before the first white space.
pub fn leading_token(bytes: &[u8]) -> (token: Vec<u8>)
    ensures
        token@ == first_token(bytes@),
{
    let mut token: Vec<u8> = Vec::new();
    let mut i: usize = 0;
    proof {
        assert(bytes@.subrange(0, bytes.len() as int) =~= bytes@);
        assert(token@ + first_token(bytes@) =~= first_token(bytes@));
    }
    while i < bytes.len() && !(bytes[i] == 0x20 || (0x09 <= bytes[i] && bytes[i] <= 0x0d))
        invariant
            i <= bytes.len(),
            first_token(bytes@) == token@ + first_token(bytes@.subrange(i as int, bytes.len() as int)),
        decreases bytes.len() - i,
    {
        proof {
            let rest = bytes@.subrange(i as int, bytes.len() as int);
            assert(rest[0] == bytes@[i as int]);
            assert(rest.subrange(1, rest.len() as int) =~= bytes@.subrange(
                i + 1,
                bytes.len() as int,
            ));
            assert(token@ + (seq![bytes@[i as int]] + first_token(
                bytes@.subrange(i + 1, bytes.len() as int),
            )) =~= token@.push(bytes@[i as int]) + first_token(
                bytes@.subrange(i + 1, bytes.len() as int),
            ));
        }
        token.push(bytes[i]);
        i += 1;
    }
    proof {
        let rest = bytes@.subrange(i as int, bytes.len() as int);
        if i < bytes.len() {
            assert(rest[0] == bytes@[i as int]);
        }
        assert(first_token(rest) =~= Seq::<u8>::empty());
        assert(token@ + Seq::<u8>::empty() =~= token@);
    }
    token
}

/// The commit that the query for the head printed.
pub fn head_commit(stdout: &[u8]) -> (r: Result<CommitId, TaskError>)
    ensures
        match r {
            Ok(commit) => commit_of(stdout@) == Ok::<Seq<char>, TaskErrorView>(commit@),
            Err(e) => commit_of(stdout@) == Err::<Seq<char>, TaskErrorView>(e@),
        },
{
    let token = leading_token(stdout);
    match text_from_utf8(token.as_slice()) {
        Ok(text) => match CommitId::checked(text.as_str()) {
            Some(commit) => Ok(commit),
            None => Err(TaskError::UnsafeCommitId(crate::text::trim(text.as_str()))),
        },
        Err(why) => Err(TaskError::NotText(why)),
    }
}

/// The text of the file that pins `commit`.
pub fn pin_text(commit: &CommitId) -> (text: String)
    ensures
        text@ == vcs_info_data(commit@),
{
    String::from_str("{\"git\":{\"sha1\":\"").concat(commit.as_ref()).concat(
        "\"},\"path_in_vcs\":\"\"}",
    )
}

/// The pass has failed.
fn fail(pass: PackPass, e: TaskError) -> (r: (PackPass, PackStep))
    ensures
        (r.0@, r.1@) == pass@.fail(e@),
{
    (PackPass { stage: PackStage::Finished, ..pass }, PackStep::Fail(e))
}

/// Begins the pack pass for the source tree in the directory `repo`, whose
/// target is `target`: hands out the pass and the first process to run, the
/// query for the head commit.
pub fn pack(repo: &str, target: &Target, tmp: &str, cargo: &str) -> (r: (PackPass, PackStep))
    ensures
        r.0@ == (PackPassView {
            cargo: cargo@,
            repo: repo@,
            tmp: tmp@,
            crate_name: target@.name + "-"@ + target@.version + ".crate"@,
            commit: None,
            stage: PackStage::ShowingHead,
        }),
        r.1@ == PackStepView::Run(show_head(repo@)),
{
    let git_dir = join(repo, ".git");
    let mut cmd = Invocation::new("git");
    cmd.arg("--git-dir");
    cmd.arg(git_dir.as_str());
    cmd.arg("show");
    cmd.arg("HEAD");
    cmd.arg("--oneline");
    cmd.arg("--summary");
    cmd.arg("--no-abbrev-commit");
    let cmd = cmd.captured();
    let pass = PackPass {
        cargo: String::from_str(cargo),
        repo: String::from_str(repo),
        tmp: String::from_str(tmp),
        crate_name: target.expected_crate_name(),
        commit: None,
        stage: PackStage::ShowingHead,
    };
    (pass, PackStep::Run(cmd))
}

impl PackPass {
    /// Takes the report of the awaited step and says what to do next.
    pub fn advance(self, event: Event) -> (r: (PackPass, PackStep))
        ensures
            (r.0@, r.1@) == self@.next(event),
    {
        match self.stage {
            PackStage::ShowingHead => {
                let stdout = match expect_good(event) {
                    Ok(stdout) => stdout,
                    Err(e) => { return fail(self, e); },
                };
                let commit = match head_commit(stdout.as_slice()) {
                    Ok(commit) => commit,
                    Err(e) => { return fail(self, e); },
                };
                let packdir = join(join(self.repo.as_str(), "target").as_str(), "xtest-data");
                let mut cmd = Invocation::new(self.cargo.as_str());
                cmd.arg("test");
                cmd.env("CARGO_XTEST_DATA_PACK_OBJECTS", packdir.as_str());
                let cmd = cmd.success();
                (
                    PackPass { commit: Some(commit), stage: PackStage::Recording, ..self },
                    PackStep::Run(cmd),
                )
            },
            PackStage::Recording => match expect_good(event) {
                Err(e) => fail(self, e),
                Ok(_) => {
                    let mut cmd = Invocation::new(self.cargo.as_str());
                    cmd.arg("package");
                    cmd.arg("--allow-dirty");
                    cmd.arg("--no-verify");
                    let cmd = cmd.success();
                    (PackPass { stage: PackStage::Packaging, ..self }, PackStep::Run(cmd))
                },
            },
            PackStage::Packaging => match expect_good(event) {
                Err(e) => fail(self, e),
                Ok(_) => {
                    let text = match &self.commit {
                        Some(commit) => Some(pin_text(commit)),
                        None => None,
                    };
                    match text {
                        None => fail(self, TaskError::Unexpected),
                        Some(text) => {
                            let path = join(self.tmp.as_str(), ".xtest_vcs_info.json");
                            let contents = text.as_str().as_bytes_vec();
                            (
                                PackPass { stage: PackStage::WritingPin, ..self },
                                PackStep::WriteFile { path, contents },
                            )
                        },
                    }
                },
            },
            PackStage::WritingPin => match expect_done(event) {
                Err(e) => fail(self, e),
                Ok(_) => {
                    let data = PackedData {
                        vcs_info: join(self.tmp.as_str(), ".xtest_vcs_info.json"),
                        pack_path: join(
                            join(self.repo.as_str(), "target").as_str(),
                            "xtest-data",
                        ),
                        crate_: CrateSource {
                            path: join("target/package", self.crate_name.as_str()),
                        },
                    };
                    (PackPass { stage: PackStage::Finished, ..self }, PackStep::Packed(data))
                },
            },
            PackStage::Finished => fail(self, TaskError::Unexpected),
        }
    }
}

} // verus!
