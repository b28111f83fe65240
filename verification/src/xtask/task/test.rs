//! The test pass: unpacks a packaged source tree next to the packs and runs
//! its tests without the network.

use crate::path::join;
use crate::path::joined;
use crate::process::Invocation;
use crate::process::InvocationView;
use crate::process::bare_invocation;
use crate::resolve::Event;
use crate::xtask::target::CrateSource;
use crate::xtask::target::Target;
use crate::xtask::target::VcsInfo;
use crate::xtask::task::artifacts::UnpackedArchive;
use crate::xtask::task::artifacts::decompress;
use crate::xtask::task::artifacts::extract_into;
use crate::xtask::task::artifacts::gunzip;
use crate::xtask::task::artifacts::tar_extract;
use crate::xtask::util::TaskError;
use crate::xtask::util::TaskErrorView;
use crate::xtask::util::expect_good;
use crate::xtask::util::good_output;
use vstd::prelude::*;
use vstd::string::*;

verus! {

/// That the tests of the packaged source tree passed.
#[derive(Debug)]
pub struct TestResult {}

/// Which step of the test pass is awaited.
#[derive(Clone, Copy, Debug, PartialEq, Eq, Structural)]
pub enum TestStage {
    /// The removal of what an earlier run left behind.
    Clearing,
    /// The decompression of the packaged source tree.
    Gunzipping,
    /// Its extraction.
    Extracting,
    /// The run of its tests.
    Testing,
    /// Nothing: the pass has ended.
    Finished,
}

/// A test pass under way.
#[derive(Debug)]
pub struct TestPass {
    /// The binary of the build tool.
    pub cargo: String,
    /// The packaged source tree.
    pub crate_path: String,
    /// The directory for temporary files.
    pub tmp: String,
    /// The directory that the source tree unpacks to.
    pub extracted: String,
    /// The directory of the packs.
    pub pack_path: String,
    /// The pin file that stands in for the one in the archive.
    pub vcs_info: Option<String>,
    pub stage: TestStage,
}

/// The mathematical value of a [`TestPass`].
pub struct TestPassView {
    pub cargo: Seq<char>,
    pub crate_path: Seq<char>,
    pub tmp: Seq<char>,
    pub extracted: Seq<char>,
    pub pack_path: Seq<char>,
    pub vcs_info: Option<Seq<char>>,
    pub stage: TestStage,
}

impl View for TestPass {
    type V = TestPassView;

    open spec fn view(&self) -> TestPassView {
        TestPassView {
            cargo: self.cargo@,
            crate_path: self.crate_path@,
            tmp: self.tmp@,
            extracted: self.extracted@,
            pack_path: self.pack_path@,
            vcs_info: match self.vcs_info {
                Some(path) => Some(path@),
                None => None,
            },
            stage: self.stage,
        }
    }
}

/// What the test pass asks of its caller.
#[derive(Debug)]
pub enum TestStep {
    /// Run this process and report how it ended.
    Run(Invocation),
    /// Remove this directory with all that is in it; it need not exist.
    RemoveDirAll(String),
    /// The tests passed.
    Tested(TestResult),
    /// The pass has failed.
    Fail(TaskError),
}

/// The mathematical value of a [`TestStep`].
pub enum TestStepView {
    Run(InvocationView),
    RemoveDirAll(Seq<char>),
    Tested,
    Fail(TaskErrorView),
}

impl View for TestStep {
    type V = TestStepView;

    open spec fn view(&self) -> TestStepView {
        match self {
            TestStep::Run(cmd) => TestStepView::Run(cmd@),
            TestStep::RemoveDirAll(path) => TestStepView::RemoveDirAll(path@),
            TestStep::Tested(_) => TestStepView::Tested,
            TestStep::Fail(e) => TestStepView::Fail(e@),
        }
    }
}

/// The pin file that takes the place of the one in the archive, if any.
pub open spec fn overwrite_of(vcs_info: VcsInfo) -> Option<Seq<char>> {
    match vcs_info {
        VcsInfo::FromCrate => None,
        VcsInfo::Overwrite { path } => Some(path@),
    }
}

impl TestPassView {
    /// The run of the tests in the unpacked source tree: nothing stops at
    /// the first failure, nothing is captured, and the packs are found
    /// without the network.
    pub open spec fn run_tests(self) -> InvocationView {
        let cmd = bare_invocation(self.cargo).current_dir(self.extracted).arg("test"@).arg(
            "--no-fail-fast"@,
        ).arg("--release"@).arg("--"@).arg("--nocapture"@).env(
            "CARGO_XTEST_DATA_TMPDIR"@,
            self.tmp,
        ).env("CARGO_XTEST_DATA_PACK_OBJECTS"@, self.pack_path);
        match self.vcs_info {
            Some(path) => cmd.env("CARGO_XTEST_VCS_INFO"@, path).success(),
            None => cmd.success(),
        }
    }

    /// The pass has failed.
    pub open spec fn fail(self, e: TaskErrorView) -> (TestPassView, TestStepView) {
        (TestPassView { stage: TestStage::Finished, ..self }, TestStepView::Fail(e))
    }

    /// The pass as it goes on and what it asks for once the awaited step is
    /// reported: whether or not anything could be removed, the archive is
    /// decompressed; it is extracted into the temporary directory; the tests
    /// are run. Every process has to succeed.
    pub open spec fn next(self, event: Event) -> (TestPassView, TestStepView) {
        match self.stage {
            TestStage::Clearing => (
                TestPassView { stage: TestStage::Gunzipping, ..self },
                TestStepView::Run(gunzip(self.crate_path)),
            ),
            TestStage::Gunzipping => match good_output(event) {
                Err(e) => self.fail(e),
                Ok(tar) => (
                    TestPassView { stage: TestStage::Extracting, ..self },
                    TestStepView::Run(tar_extract(self.tmp, tar)),
                ),
            },
            TestStage::Extracting => match good_output(event) {
                Err(e) => self.fail(e),
                Ok(_) => (
                    TestPassView { stage: TestStage::Testing, ..self },
                    TestStepView::Run(self.run_tests()),
                ),
            },
            TestStage::Testing => match good_output(event) {
                Err(e) => self.fail(e),
                Ok(_) => (
                    TestPassView { stage: TestStage::Finished, ..self },
                    TestStepView::Tested,
                ),
            },
            TestStage::Finished => self.fail(TaskErrorView::Unexpected),
        }
    }
}

/// The pass has failed.
fn fail(pass: TestPass, e: TaskError) -> (r: (TestPass, TestStep))
    ensures
        (r.0@, r.1@) == pass@.fail(e@),
{
    (TestPass { stage: TestStage::Finished, ..pass }, TestStep::Fail(e))
}

/// Begins the test pass for the packaged source tree `crate_` with the packs
/// in `pack`: hands out the pass and the first thing to do, the removal of
/// the directory that the source tree unpacks to.
pub fn test(
    crate_: &CrateSource,
    target: &Target,
    pack: &UnpackedArchive,
    vcs_info: &VcsInfo,
    tmp: &str,
    cargo: &str,
) -> (r: (TestPass, TestStep))
    ensures
        r.0@ == (TestPassView {
            cargo: cargo@,
            crate_path: crate_.path@,
            tmp: tmp@,
            extracted: joined(tmp@, target@.name + "-"@ + target@.version),
            pack_path: pack.path@,
            vcs_info: overwrite_of(*vcs_info),
            stage: TestStage::Clearing,
        }),
        r.1@ == TestStepView::RemoveDirAll(r.0@.extracted),
{
    let extracted = join(tmp, target.expected_dir_name().as_str());
    let pass = TestPass {
        cargo: String::from_str(cargo),
        crate_path: crate_.path.clone(),
        tmp: String::from_str(tmp),
        extracted: extracted.clone(),
        pack_path: pack.path.clone(),
        vcs_info: match vcs_info {
            VcsInfo::FromCrate => None,
            VcsInfo::Overwrite { path } => Some(path.clone()),
        },
        stage: TestStage::Clearing,
    };
    (pass, TestStep::RemoveDirAll(extracted))
}

impl TestPass {
    /// The run of the tests in the unpacked source tree.
    pub fn run_tests(&self) -> (cmd: Invocation)
        ensures
            cmd@ == self@.run_tests(),
    {
        let mut cmd = Invocation::new(self.cargo.as_str());
        cmd.current_dir(self.extracted.as_str());
        cmd.arg("test");
        cmd.arg("--no-fail-fast");
        cmd.arg("--release");
        cmd.arg("--");
        cmd.arg("--nocapture");
        cmd.env("CARGO_XTEST_DATA_TMPDIR", self.tmp.as_str());
        cmd.env("CARGO_XTEST_DATA_PACK_OBJECTS", self.pack_path.as_str());
        match &self.vcs_info {
            Some(path) => {
                cmd.env("CARGO_XTEST_VCS_INFO", path.as_str());
            },
            None => {},
        }
        cmd.success()
    }

    /// Takes the report of the awaited step and says what to do next.
    pub fn advance(self, event: Event) -> (r: (TestPass, TestStep))
        ensures
            (r.0@, r.1@) == self@.next(event),
    {
        match self.stage {
            TestStage::Clearing => {
                let cmd = decompress(self.crate_path.as_str());
                (TestPass { stage: TestStage::Gunzipping, ..self }, TestStep::Run(cmd))
            },
            TestStage::Gunzipping => match expect_good(event) {
                Err(e) => fail(self, e),
                Ok(tar) => {
                    let cmd = extract_into(self.tmp.as_str(), tar);
                    (TestPass { stage: TestStage::Extracting, ..self }, TestStep::Run(cmd))
                },
            },
            TestStage::Extracting => match expect_good(event) {
                Err(e) => fail(self, e),
                Ok(_) => {
                    let cmd = self.run_tests();
                    (TestPass { stage: TestStage::Testing, ..self }, TestStep::Run(cmd))
                },
            },
            TestStage::Testing => match expect_good(event) {
                Err(e) => fail(self, e),
                Ok(_) => (
                    TestPass { stage: TestStage::Finished, ..self },
                    TestStep::Tested(TestResult {  }),
                ),
            },
            TestStage::Finished => fail(self, TaskError::Unexpected),
        }
    }
}

} // verus!
