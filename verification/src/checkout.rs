//! Checking registered paths out of the object store into a work tree, one
//! process after the other.

use crate::error::Inconclusive;
use crate::error::InconclusiveView;
use crate::git::CommitId;
use crate::git::Git;
use crate::git::PathSpec;
use crate::git::PathSpecView;
use crate::git::ShallowBareRepository;
use crate::git::spec_views;
use crate::process::Input;
use crate::process::Invocation;
use crate::process::InvocationView;
use crate::process::Outcome;
use crate::process::Report;
use crate::store::PathSpecFilter;
use crate::store::complex_of;
use crate::store::simple_of;
use vstd::prelude::*;
use vstd::string::*;

verus! {

/// Which process of a checkout is awaited.
#[derive(Clone, Copy, Debug, PartialEq, Eq, Structural)]
pub enum CheckoutStage {
    /// The making of the work tree.
    Adding,
    /// The restriction of the work tree to the simple paths.
    Restricting,
    /// The checkout into the restricted work tree.
    Forcing,
    /// The checkout that reads NUL-separated path expressions.
    Slow,
    /// Nothing: the checkout has ended.
    Finished,
}

/// A checkout under way.
#[derive(Debug)]
pub struct Checkout {
    pub repo: ShallowBareRepository,
    pub git: Git,
    pub worktree: String,
    pub head: CommitId,
    pub filter: PathSpecFilter,
    pub stage: CheckoutStage,
}

/// What a checkout asks of its caller next.
#[derive(Debug)]
pub enum CheckoutStep {
    /// Run this process and report how it ended.
    Run(Invocation),
    /// The files are in the work tree.
    Done,
    /// The checkout cannot be had.
    Abort(Inconclusive),
}

/// The mathematical value of a [`CheckoutStep`].
pub enum CheckoutStepView {
    Run(InvocationView),
    Done,
    Abort(InconclusiveView),
}

impl View for CheckoutStep {
    type V = CheckoutStepView;

    open spec fn view(&self) -> CheckoutStepView {
        match self {
            CheckoutStep::Run(cmd) => CheckoutStepView::Run(cmd@),
            CheckoutStep::Done => CheckoutStepView::Done,
            CheckoutStep::Abort(e) => CheckoutStepView::Abort(e@),
        }
    }
}

/// Why a reported process counts as failed, if it does: it could not be run,
/// or it did not exit with success.
pub open spec fn failure_of(report: Report) -> Option<InconclusiveView> {
    match report {
        Report::Failed(why) => Some(InconclusiveView::Io(why@)),
        Report::Exited(outcome) => if outcome.success {
            None
        } else {
            Some(InconclusiveView::ProcessFailed(outcome.stderr@))
        },
    }
}

/// Holds a reported process to having run and succeeded, and hands out what
/// it printed.
pub fn demand(report: Report) -> (r: Result<Outcome, Inconclusive>)
    ensures
        match r {
            Ok(outcome) => failure_of(report) is None && report == Report::Exited(outcome),
            Err(e) => failure_of(report) == Some(e@),
        },
{
    match report {
        Report::Failed(why) => Err(Inconclusive::Io(why)),
        Report::Exited(outcome) => {
            if outcome.success {
                Ok(outcome)
            } else {
                Err(Inconclusive::ProcessFailed(outcome.stderr))
            }
        },
    }
}

/// The path expressions of `first`, then those of `second`.
fn chained(first: &Vec<PathSpec>, second: &Vec<PathSpec>) -> (all: Vec<PathSpec>)
    ensures
        spec_views(all@) == spec_views(first@) + spec_views(second@),
{
    let mut all: Vec<PathSpec> = Vec::new();
    let mut i: usize = 0;
    while i < first.len()
        invariant
            i <= first.len(),
            all.len() == i,
            forall|j: int| 0 <= j < i ==> (#[trigger] all@[j])@ == first@[j]@,
        decreases first.len() - i,
    {
        all.push(first[i].duplicate());
        i += 1;
    }
    let mut k: usize = 0;
    while k < second.len()
        invariant
            k <= second.len(),
            all.len() == first.len() + k,
            forall|j: int| 0 <= j < first.len() ==> (#[trigger] all@[j])@ == first@[j]@,
            forall|j: int| 0 <= j < k ==> (#[trigger] all@[first.len() + j])@ == second@[j]@,
        decreases second.len() - k,
    {
        all.push(second[k].duplicate());
        k += 1;
    }
    proof {
        let joint = spec_views(first@) + spec_views(second@);
        assert forall|k: int| 0 <= k < all.len() implies spec_views(all@)[k] == joint[k] by {
            if k >= first.len() {
                let j = k - first.len();
                assert(all@[first.len() + j]@ == second@[j]@);
            }
        }
        assert(spec_views(all@) =~= joint);
    }
    all
}

/// The mathematical value of a [`Checkout`].
pub struct CheckoutView {
    pub repo: Seq<char>,
    pub git: Seq<char>,
    pub worktree: Seq<char>,
    pub head: Seq<char>,
    pub simple: Seq<PathSpecView>,
    pub complex: Seq<PathSpecView>,
    pub stage: CheckoutStage,
}

impl View for Checkout {
    type V = CheckoutView;

    open spec fn view(&self) -> CheckoutView {
        CheckoutView {
            repo: self.repo.path@,
            git: self.git.bin@,
            worktree: self.worktree@,
            head: self.head@,
            simple: spec_views(self.filter.simple_filter@),
            complex: spec_views(self.filter.complex_paths@),
            stage: self.stage,
        }
    }
}

impl CheckoutView {
    /// The process awaited first: the making of the work tree.
    pub open spec fn first(self) -> InvocationView {
        ShallowBareRepository::worktree_plan(self.repo, self.git, self.worktree, self.head)
    }

    /// The checkout that reads the given path expressions NUL-separated.
    pub open spec fn slow(self, paths: Seq<PathSpecView>) -> InvocationView {
        ShallowBareRepository::slow_plan(self.repo, self.git, self.worktree, self.head, paths)
    }

    /// The checkout moved on to `stage`.
    pub open spec fn at(self, stage: CheckoutStage) -> CheckoutView {
        CheckoutView { stage, ..self }
    }

    /// The checkout as it goes on and the step asked for once the awaited
    /// process is reported.
    ///
    /// The work tree must be made. The sparse checkout is then tried: the
    /// work tree is restricted to the simple paths and the commit is checked
    /// out into it. Where either of the two fails, every path goes through
    /// the slow checkout instead; where both succeed only the complex paths
    /// go through the slow one. The checkout ends when the slow one does.
    pub open spec fn next(self, report: Report) -> (CheckoutView, CheckoutStepView) {
        match self.stage {
            CheckoutStage::Adding => match failure_of(report) {
                Some(e) => (self.at(CheckoutStage::Finished), CheckoutStepView::Abort(e)),
                None => (
                    self.at(CheckoutStage::Restricting),
                    CheckoutStepView::Run(
                        ShallowBareRepository::sparse_plan(
                            self.repo,
                            self.git,
                            self.worktree,
                            self.simple,
                        ),
                    ),
                ),
            },
            CheckoutStage::Restricting => match failure_of(report) {
                Some(_) => (
                    self.at(CheckoutStage::Slow),
                    CheckoutStepView::Run(self.slow(self.simple + self.complex)),
                ),
                None => (
                    self.at(CheckoutStage::Forcing),
                    CheckoutStepView::Run(
                        ShallowBareRepository::force_plan(
                            self.repo,
                            self.git,
                            self.worktree,
                            self.head,
                        ),
                    ),
                ),
            },
            CheckoutStage::Forcing => match failure_of(report) {
                Some(_) => (
                    self.at(CheckoutStage::Slow),
                    CheckoutStepView::Run(self.slow(self.simple + self.complex)),
                ),
                None => (
                    self.at(CheckoutStage::Slow),
                    CheckoutStepView::Run(self.slow(self.complex)),
                ),
            },
            CheckoutStage::Slow => match failure_of(report) {
                Some(e) => (self.at(CheckoutStage::Finished), CheckoutStepView::Abort(e)),
                None => (self.at(CheckoutStage::Finished), CheckoutStepView::Done),
            },
            CheckoutStage::Finished => (
                self,
                CheckoutStepView::Abort(InconclusiveView::Unexpected),
            ),
        }
    }
}

impl Checkout {
    /// Takes the report of the awaited process and says what to do next.
    pub fn advance(&mut self, report: Report) -> (step: CheckoutStep)
        ensures
            (final(self)@, step@) == old(self)@.next(report),
    {
        let stage = self.stage;
        let verdict = demand(report);
        match stage {
            CheckoutStage::Adding => match verdict {
                Err(e) => {
                    self.stage = CheckoutStage::Finished;
                    CheckoutStep::Abort(e)
                },
                Ok(_) => {
                    self.stage = CheckoutStage::Restricting;
                    CheckoutStep::Run(
                        self.repo.sparse_checkout(
                            &self.git,
                            self.worktree.as_str(),
                            &self.filter.simple_filter,
                        ),
                    )
                },
            },
            CheckoutStage::Restricting => match verdict {
                Err(_) => {
                    self.stage = CheckoutStage::Slow;
                    let all = chained(&self.filter.simple_filter, &self.filter.complex_paths);
                    CheckoutStep::Run(
                        self.repo.checkout_fallback_slow(
                            &self.git,
                            self.worktree.as_str(),
                            &self.head,
                            &all,
                        ),
                    )
                },
                Ok(_) => {
                    self.stage = CheckoutStage::Forcing;
                    CheckoutStep::Run(
                        self.repo.checkout_force(&self.git, self.worktree.as_str(), &self.head),
                    )
                },
            },
            CheckoutStage::Forcing => match verdict {
                Err(_) => {
                    self.stage = CheckoutStage::Slow;
                    let all = chained(&self.filter.simple_filter, &self.filter.complex_paths);
                    CheckoutStep::Run(
                        self.repo.checkout_fallback_slow(
                            &self.git,
                            self.worktree.as_str(),
                            &self.head,
                            &all,
                        ),
                    )
                },
                Ok(_) => {
                    self.stage = CheckoutStage::Slow;
                    CheckoutStep::Run(
                        self.repo.checkout_fallback_slow(
                            &self.git,
                            self.worktree.as_str(),
                            &self.head,
                            &self.filter.complex_paths,
                        ),
                    )
                },
            },
            CheckoutStage::Slow => {
                self.stage = CheckoutStage::Finished;
                match verdict {
                    Err(e) => CheckoutStep::Abort(e),
                    Ok(_) => CheckoutStep::Done,
                }
            },
            CheckoutStage::Finished => CheckoutStep::Abort(Inconclusive::Unexpected),
        }
    }
}

impl ShallowBareRepository {
    /// The making of the work tree at `worktree` for the commit `head`.
    pub fn worktree_add(&self, git: &Git, worktree: &str, head: &CommitId) -> (cmd: Invocation)
        ensures
            cmd@ == ShallowBareRepository::worktree_plan(self.path@, git.bin@, worktree@, head@),
    {
        let mut cmd = self.exec(git);
        cmd.arg("worktree");
        cmd.arg("add");
        cmd.arg("--no-checkout");
        cmd.arg(worktree);
        cmd.arg(head.as_ref());
        cmd
    }

    /// The restriction of the work tree to the given simple paths, one per
    /// line on the input.
    pub fn sparse_checkout(&self, git: &Git, worktree: &str, simple: &Vec<PathSpec>) -> (cmd:
        Invocation)
        ensures
            cmd@ == ShallowBareRepository::sparse_plan(
                self.path@,
                git.bin@,
                worktree@,
                spec_views(simple@),
            ),
    {
        let mut cmd = self.exec(git);
        cmd.arg("--work-tree");
        cmd.arg(worktree);
        cmd.arg("sparse-checkout");
        cmd.arg("set");
        cmd.arg("--stdin");
        cmd.input(Input::Text(crate::store::path_lines_list(simple)));
        cmd
    }

    /// The checkout of `head` into the restricted work tree.
    pub fn checkout_force(&self, git: &Git, worktree: &str, head: &CommitId) -> (cmd: Invocation)
        ensures
            cmd@ == ShallowBareRepository::force_plan(self.path@, git.bin@, worktree@, head@),
    {
        let mut cmd = self.exec(git);
        cmd.arg("--work-tree");
        cmd.arg(worktree);
        cmd.arg("checkout");
        cmd.arg("--force");
        cmd.arg(head.as_ref());
        cmd
    }

    /// Starts the checkout of `paths` at the commit `head` into the work tree
    /// at `worktree`: the paths are parted into simple and complex ones, and
    /// the first process to run is the making of the work tree.
    pub fn checkout(&self, git: &Git, worktree: &str, head: &CommitId, paths: &Vec<PathSpec>) -> (r:
        (Checkout, Invocation))
        ensures
            r.0@ == (CheckoutView {
                repo: self.path@,
                git: git.bin@,
                worktree: worktree@,
                head: head@,
                simple: simple_of(spec_views(paths@)),
                complex: complex_of(spec_views(paths@)),
                stage: CheckoutStage::Adding,
            }),
            r.1@ == r.0@.first(),
    {
        let filter = PathSpecFilter::from_iter(paths);
        let cmd = self.worktree_add(git, worktree, head);
        let job = Checkout {
            repo: ShallowBareRepository { path: self.path.clone() },
            git: Git::new(git.bin.as_str()),
            worktree: String::from_str(worktree),
            head: head.duplicate(),
            filter,
            stage: CheckoutStage::Adding,
        };
        (job, cmd)
    }
}

/// A path expression that holds a line break takes the slow checkout,
/// whichever way the checkout goes: it is not among the paths that the
/// sparse checkout is restricted to, and it is among those of the slow
/// checkout both where that stands in for a sparse one that failed and where
/// it follows it.
pub proof fn lemma_line_break_takes_the_slow_checkout(
    job: CheckoutView,
    paths: Seq<PathSpecView>,
    i: int,
    report: Report,
)
    requires
        job.simple == simple_of(paths),
        job.complex == complex_of(paths),
        0 <= i < paths.len(),
        paths[i] matches PathSpecView::Path(path) && path.contains('\n'),
    ensures
        !job.simple.contains(paths[i]),
        job.complex.contains(paths[i]),
        (job.simple + job.complex).contains(paths[i]),
        job.stage == CheckoutStage::Adding && failure_of(report) is None ==> job.next(report).1
            == CheckoutStepView::Run(
            ShallowBareRepository::sparse_plan(job.repo, job.git, job.worktree, job.simple),
        ),
        job.stage == CheckoutStage::Restricting && failure_of(report) is Some ==> job.next(
            report,
        ).1 == CheckoutStepView::Run(job.slow(job.simple + job.complex)),
        job.stage == CheckoutStage::Forcing && failure_of(report) is Some ==> job.next(report).1
            == CheckoutStepView::Run(job.slow(job.simple + job.complex)),
        job.stage == CheckoutStage::Forcing && failure_of(report) is None ==> job.next(report).1
            == CheckoutStepView::Run(job.slow(job.complex)),
{
    crate::store::lemma_line_break_is_complex(paths, i);
    let k = choose|k: int| 0 <= k < job.complex.len() && job.complex[k] == paths[i];
    assert((job.simple + job.complex)[job.simple.len() + k] == paths[i]);
}

} // verus!
