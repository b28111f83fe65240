//! Resolving the registered resources, step by step. The resolver says what
//! has to be done next; its caller does it and reports what came of it.

use crate::checkout::Checkout;
use crate::checkout::CheckoutStage;
use crate::checkout::CheckoutStep;
use crate::checkout::CheckoutStepView;
use crate::checkout::CheckoutView;
use crate::checkout::demand;
use crate::checkout::failure_of;
use crate::error::Inconclusive;
use crate::error::InconclusiveView;
use crate::git::ClearedOrigin;
use crate::git::CommitId;
use crate::git::CrateDir;
use crate::git::Git;
use crate::git::Origin;
use crate::git::PathSpecView;
use crate::git::ShallowBareRepository;
use crate::git::consent_plan;
use crate::git::is_consent;
use crate::path::join;
use crate::path::joined;
use crate::process::Invocation;
use crate::process::InvocationView;
use crate::process::Report;
use crate::process::plans;
use crate::setup::FsData;
use crate::setup::Setup;
use crate::setup::SetupView;
use crate::setup::Source;
use crate::setup::SourceView;
use crate::setup::texts_of;
use crate::store::complex_of;
use crate::store::simple_of;
use crate::unique::unique;
use crate::unique::unique_dir;
use crate::worktree::hashed_oid;
use crate::worktree::packed_objects;
use crate::worktree::sparse_oid;
use crate::worktree::tracked_failure;
use crate::worktree::tracked_verdict;
use vstd::prelude::*;
use vstd::string::*;

verus! {

/// What the resolver asks of its caller.
#[derive(Debug)]
pub enum Directive {
    /// Run this process and report how it ended.
    Run(Invocation),
    /// Make this directory, which must not exist yet.
    CreateDir(String),
    /// Make this directory and those above it, as far as they are missing.
    CreateDirAll(String),
    /// Tell whether anything exists at this path.
    Probe(String),
    /// Write these bytes to the file at this path.
    WriteFile { path: String, contents: Vec<u8> },
    /// List the paths of the entries of this directory.
    ListDir(String),
    /// Take the exclusive lock on this file, waiting for it, and hold it
    /// until told to let go or until the run ends.
    Lock(String),
    /// Let go of the lock.
    Unlock,
    /// Every resource is resolved.
    Finished(FsData),
    /// The run ends without a conclusion.
    Abort(Inconclusive),
}

/// The mathematical value of a [`Directive`].
pub enum DirectiveView {
    Run(InvocationView),
    CreateDir(Seq<char>),
    CreateDirAll(Seq<char>),
    Probe(Seq<char>),
    WriteFile { path: Seq<char>, contents: Seq<u8> },
    ListDir(Seq<char>),
    Lock(Seq<char>),
    Unlock,
    Finished { paths: Seq<Seq<char>>, rewritten: Seq<Seq<char>> },
    Abort(InconclusiveView),
}

impl View for Directive {
    type V = DirectiveView;

    open spec fn view(&self) -> DirectiveView {
        match self {
            Directive::Run(cmd) => DirectiveView::Run(cmd@),
            Directive::CreateDir(path) => DirectiveView::CreateDir(path@),
            Directive::CreateDirAll(path) => DirectiveView::CreateDirAll(path@),
            Directive::Probe(path) => DirectiveView::Probe(path@),
            Directive::WriteFile { path, contents } => DirectiveView::WriteFile {
                path: path@,
                contents: contents@,
            },
            Directive::ListDir(path) => DirectiveView::ListDir(path@),
            Directive::Lock(path) => DirectiveView::Lock(path@),
            Directive::Unlock => DirectiveView::Unlock,
            Directive::Finished(data) => DirectiveView::Finished {
                paths: data.paths(),
                rewritten: data.rewritten_paths(),
            },
            Directive::Abort(e) => DirectiveView::Abort(e@),
        }
    }
}

/// What the caller reports of the last directive.
#[derive(Debug)]
pub enum Event {
    /// The process was run, or could not be.
    Ran(Report),
    /// What was asked has been done.
    Done,
    /// The directory to make exists already.
    AlreadyExists,
    /// Whether anything exists at the path probed.
    Exists(bool),
    /// The paths of the entries of the directory listed.
    Entries(Vec<String>),
    /// What was asked could not be done; the text says why.
    Failed(String),
}

/// What the resolver is waiting for.
#[derive(Debug)]
pub enum Stage {
    /// The query that tells whether the manifest stands in a working copy.
    Probing,
    /// The status of the registered paths.
    Status,
    /// The directory for the packs.
    MakingPackDir,
    /// The identity of the stored list of paths.
    Hashing,
    /// The listing of the objects that the paths select.
    ListingSelected,
    /// The listing of the trees, with the objects listed before.
    ListingTrees { selected: Vec<u8> },
    /// The packing of the objects.
    Packing,
    /// The making of the work tree's directory.
    MakingTree,
    /// The lock, before the store is filled from shipped packs.
    LockingShipped,
    /// Whether the store exists, before it is filled from shipped packs.
    ProbingShipped,
    /// The making of the empty store.
    Initializing,
    /// The writing of the shallow marker.
    Marking,
    /// The listing of the shipped packs.
    ListingPacks,
    /// The unpacking of one pack, with those still to unpack.
    Unpacking { queue: Vec<Invocation> },
    /// The lock, before the store is filled from the cleared origin.
    LockingRemote { cleared: ClearedOrigin },
    /// Whether the store exists, before it is filled from the cleared origin.
    ProbingRemote { cleared: ClearedOrigin },
    /// The clone of the cleared origin.
    Cloning { cleared: ClearedOrigin },
    /// The fetch of the pinned commit.
    Fetching,
    /// A process of the checkout.
    CheckingOut { job: Checkout },
    /// The release of the lock.
    Unlocking,
    /// Nothing: the run has ended.
    Finished,
}

/// The mathematical value of a [`Stage`].
pub enum StageView {
    Probing,
    Status,
    MakingPackDir,
    Hashing,
    ListingSelected,
    ListingTrees { selected: Seq<u8> },
    Packing,
    MakingTree,
    LockingShipped,
    ProbingShipped,
    Initializing,
    Marking,
    ListingPacks,
    Unpacking { queue: Seq<InvocationView> },
    LockingRemote { cleared: Seq<char> },
    ProbingRemote { cleared: Seq<char> },
    Cloning { cleared: Seq<char> },
    Fetching,
    CheckingOut { job: CheckoutView },
    Unlocking,
    Finished,
}

impl View for Stage {
    type V = StageView;

    open spec fn view(&self) -> StageView {
        match self {
            Stage::Probing => StageView::Probing,
            Stage::Status => StageView::Status,
            Stage::MakingPackDir => StageView::MakingPackDir,
            Stage::Hashing => StageView::Hashing,
            Stage::ListingSelected => StageView::ListingSelected,
            Stage::ListingTrees { selected } => StageView::ListingTrees { selected: selected@ },
            Stage::Packing => StageView::Packing,
            Stage::MakingTree => StageView::MakingTree,
            Stage::LockingShipped => StageView::LockingShipped,
            Stage::ProbingShipped => StageView::ProbingShipped,
            Stage::Initializing => StageView::Initializing,
            Stage::Marking => StageView::Marking,
            Stage::ListingPacks => StageView::ListingPacks,
            Stage::Unpacking { queue } => StageView::Unpacking { queue: plans(queue@) },
            Stage::LockingRemote { cleared } => StageView::LockingRemote { cleared: cleared@ },
            Stage::ProbingRemote { cleared } => StageView::ProbingRemote { cleared: cleared@ },
            Stage::Cloning { cleared } => StageView::Cloning { cleared: cleared@ },
            Stage::Fetching => StageView::Fetching,
            Stage::CheckingOut { job } => StageView::CheckingOut { job: job@ },
            Stage::Unlocking => StageView::Unlocking,
            Stage::Finished => StageView::Finished,
        }
    }
}

/// A resolution under way. Only building a [`Setup`] begins one, and only
/// [`Resolver::advance`] moves it on.
#[derive(Debug)]
pub struct Resolver {
    /// What was registered, and where the data comes from.
    setup: Setup,
    /// The directory that the paths are resolved under: the directory of the
    /// manifest in a working copy, the work tree otherwise.
    root: String,
    /// What is awaited.
    stage: Stage,
}

/// The mathematical value of a [`Resolver`].
pub struct ResolverView {
    pub setup: SetupView,
    pub root: Seq<char>,
    pub stage: StageView,
}

impl View for Resolver {
    type V = ResolverView;

    closed spec fn view(&self) -> ResolverView {
        ResolverView { setup: self.setup@, root: self.root@, stage: self.stage@ }
    }
}

/// The path of the object store in the data directory.
pub open spec fn store_path(datadir: Seq<char>) -> Seq<char> {
    joined(datadir, "xtest-data-git"@)
}

/// The path of the lock file in the data directory.
pub open spec fn lock_path(datadir: Seq<char>) -> Seq<char> {
    joined(datadir, "xtest-data.lock"@)
}

/// The path of the work tree in the data directory that the bytes `num` lead
/// to.
pub open spec fn tree_path(datadir: Seq<char>, num: Seq<u8>) -> Seq<char> {
    joined(datadir, unique("xtest-data-tree"@, num))
}

impl SetupView {
    /// Every registered path: the owned ones, then the borrowed ones.
    pub open spec fn paths(self) -> Seq<Seq<char>> {
        self.managed + self.borrowed
    }

    /// The path expression for every registered path.
    pub open spec fn specs(self) -> Seq<PathSpecView> {
        self.paths().map_values(|p: Seq<char>| PathSpecView::Path(p))
    }
}

impl ResolverView {
    /// The resolver moved on to `stage`.
    pub open spec fn at(self, stage: StageView) -> ResolverView {
        ResolverView { stage, ..self }
    }

    /// The run ends without a conclusion.
    pub open spec fn abort(self, e: InconclusiveView) -> (ResolverView, DirectiveView) {
        (self.at(StageView::Finished), DirectiveView::Abort(e))
    }

    /// The run ends with every path placed under the root.
    pub open spec fn finish(self) -> (ResolverView, DirectiveView) {
        (
            self.at(StageView::Finished),
            DirectiveView::Finished {
                paths: self.setup.managed.map_values(|p: Seq<char>| joined(self.root, p)),
                rewritten: self.setup.borrowed.map_values(|p: Seq<char>| joined(self.root, p)),
            },
        )
    }

    /// The process `cmd` is run and awaited in `stage`.
    pub open spec fn run(self, stage: StageView, cmd: InvocationView) -> (
        ResolverView,
        DirectiveView,
    ) {
        (self.at(stage), DirectiveView::Run(cmd))
    }

    /// In a working copy, once the paths are known to be tracked: the paths
    /// are resolved, unless packs were asked for, whose directory is then
    /// made first.
    pub open spec fn after_status(self) -> (ResolverView, DirectiveView) {
        match self.setup.pack_objects {
            None => self.finish(),
            Some(dir) => (self.at(StageView::MakingPackDir), DirectiveView::CreateDirAll(dir)),
        }
    }

    /// In a working copy, once it is known to be one: the status of the paths
    /// is asked for, unless there is no path.
    pub open spec fn after_probe(self, bin: Seq<char>) -> (ResolverView, DirectiveView) {
        if self.setup.specs().len() == 0 {
            self.after_status()
        } else {
            self.run(
                StageView::Status,
                CrateDir::status_query(self.setup.manifest, bin, self.setup.specs()),
            )
        }
    }

    /// What follows an event in a working copy.
    pub open spec fn step_local(self, bin: Seq<char>, event: Event) -> (
        ResolverView,
        DirectiveView,
    ) {
        let manifest = self.setup.manifest;
        match (self.stage, event) {
            (StageView::Probing, Event::Ran(report)) => match failure_of(report) {
                Some(e) => self.abort(e),
                None => self.after_probe(bin),
            },
            (StageView::Status, Event::Ran(Report::Failed(why))) => self.abort(
                InconclusiveView::Io(why@),
            ),
            (StageView::Status, Event::Ran(Report::Exited(outcome))) => match tracked_failure(
                outcome,
            ) {
                Some(e) => self.abort(e),
                None => self.after_status(),
            },
            (StageView::MakingPackDir, Event::Done) => self.run(
                StageView::Hashing,
                CrateDir::hash_query(manifest, bin, self.setup.specs()),
            ),
            (StageView::MakingPackDir, Event::Failed(why)) => self.abort(
                InconclusiveView::Io(why@),
            ),
            (StageView::Hashing, Event::Ran(Report::Failed(why))) => self.abort(
                InconclusiveView::Io(why@),
            ),
            (StageView::Hashing, Event::Ran(Report::Exited(outcome))) => match hashed_oid(
                outcome,
            ) {
                Err(e) => self.abort(e),
                Ok(oid) => self.run(
                    StageView::ListingSelected,
                    CrateDir::list_query(manifest, bin, "--filter=sparse:oid="@ + oid),
                ),
            },
            (StageView::ListingSelected, Event::Ran(report)) => match report {
                Report::Exited(outcome) if outcome.success => self.run(
                    StageView::ListingTrees { selected: outcome.stdout@ },
                    CrateDir::list_query(manifest, bin, "--filter=blob:none"@),
                ),
                _ => self.abort(failure_of(report).unwrap()),
            },
            (StageView::ListingTrees { selected }, Event::Ran(report)) => match report {
                Report::Exited(outcome) if outcome.success => match self.setup.pack_objects {
                    Some(dir) => self.run(
                        StageView::Packing,
                        CrateDir::pack_query(manifest, bin, dir, selected + outcome.stdout@),
                    ),
                    None => self.abort(InconclusiveView::Unexpected),
                },
                _ => self.abort(failure_of(report).unwrap()),
            },
            (StageView::Packing, Event::Ran(report)) => match failure_of(report) {
                Some(e) => self.abort(e),
                None => self.finish(),
            },
            _ => self.abort(InconclusiveView::Unexpected),
        }
    }

    /// The checkout of the registered paths into the work tree begins.
    pub open spec fn start_checkout(self, commit: Seq<char>, bin: Seq<char>, datadir: Seq<char>)
        -> (ResolverView, DirectiveView) {
        let job = CheckoutView {
            repo: store_path(datadir),
            git: bin,
            worktree: self.root,
            head: commit,
            simple: simple_of(self.setup.specs()),
            complex: complex_of(self.setup.specs()),
            stage: CheckoutStage::Adding,
        };
        self.run(StageView::CheckingOut { job }, job.first())
    }

    /// The next pack of `queue` is unpacked; after the last one the checkout
    /// begins.
    pub open spec fn unpack_next(
        self,
        queue: Seq<InvocationView>,
        commit: Seq<char>,
        bin: Seq<char>,
        datadir: Seq<char>,
    ) -> (ResolverView, DirectiveView) {
        if queue.len() == 0 {
            self.start_checkout(commit, bin, datadir)
        } else {
            self.run(StageView::Unpacking { queue: queue.drop_first() }, queue[0])
        }
    }

    /// Once the directory of the work tree is made: with shipped packs the
    /// store is filled from them, and nothing is fetched. Without them the
    /// consent gate decides: the lock is taken only where the network may be
    /// used.
    pub open spec fn after_tree(self, commit: Seq<char>, datadir: Seq<char>) -> (
        ResolverView,
        DirectiveView,
    ) {
        if self.setup.pack_objects is Some {
            (self.at(StageView::LockingShipped), DirectiveView::Lock(lock_path(datadir)))
        } else if is_consent(self.setup.fetch) {
            (
                self.at(StageView::LockingRemote { cleared: self.setup.repository }),
                DirectiveView::Lock(lock_path(datadir)),
            )
        } else {
            self.abort(
                InconclusiveView::ConsentDenied(
                    consent_plan(
                        store_path(datadir),
                        self.root,
                        self.setup.repository,
                        commit,
                        self.setup.paths(),
                        self.setup.specs(),
                    ),
                ),
            )
        }
    }

    /// What follows an event in a packaged source tree. The bytes `num` stand
    /// for the chance that picks a new name where the directory of the work
    /// tree exists already.
    pub open spec fn step_packaged(
        self,
        commit: Seq<char>,
        bin: Seq<char>,
        datadir: Seq<char>,
        event: Event,
        num: Seq<u8>,
    ) -> (ResolverView, DirectiveView) {
        let store = store_path(datadir);
        match (self.stage, event) {
            (StageView::MakingTree, Event::Done) => self.after_tree(commit, datadir),
            (StageView::MakingTree, Event::AlreadyExists) => (
                ResolverView { root: tree_path(datadir, num), ..self },
                DirectiveView::CreateDir(tree_path(datadir, num)),
            ),
            (StageView::MakingTree, Event::Failed(why)) => self.abort(InconclusiveView::Io(why@)),
            (StageView::LockingShipped, Event::Done) => (
                self.at(StageView::ProbingShipped),
                DirectiveView::Probe(store),
            ),
            (StageView::LockingShipped, Event::Failed(why)) => self.abort(
                InconclusiveView::Io(why@),
            ),
            (StageView::ProbingShipped, Event::Exists(present)) => self.run(
                StageView::Initializing,
                if present {
                    ShallowBareRepository::probe(store, bin)
                } else {
                    ShallowBareRepository::init_plan(store, bin)
                },
            ),
            (StageView::ProbingShipped, Event::Failed(why)) => self.abort(
                InconclusiveView::Io(why@),
            ),
            (StageView::Initializing, Event::Ran(report)) => match failure_of(report) {
                Some(e) => self.abort(e),
                None => (
                    self.at(StageView::Marking),
                    DirectiveView::WriteFile {
                        path: joined(store, "shallow"@),
                        contents: vstd::utf8::encode_utf8(commit),
                    },
                ),
            },
            (StageView::Marking, Event::Done) => match self.setup.pack_objects {
                Some(dir) => (self.at(StageView::ListingPacks), DirectiveView::ListDir(dir)),
                None => self.abort(InconclusiveView::Unexpected),
            },
            (StageView::Marking, Event::Failed(why)) => self.abort(InconclusiveView::Io(why@)),
            (StageView::ListingPacks, Event::Entries(entries)) => self.unpack_next(
                ShallowBareRepository::unpack_plan(store, bin, texts_of(entries@)),
                commit,
                bin,
                datadir,
            ),
            (StageView::ListingPacks, Event::Failed(why)) => self.abort(
                InconclusiveView::Io(why@),
            ),
            (StageView::Unpacking { queue }, Event::Ran(report)) => match failure_of(report) {
                Some(e) => self.abort(e),
                None => self.unpack_next(queue, commit, bin, datadir),
            },
            (StageView::LockingRemote { cleared }, Event::Done) => (
                self.at(StageView::ProbingRemote { cleared }),
                DirectiveView::Probe(store),
            ),
            (StageView::LockingRemote { cleared }, Event::Failed(why)) => self.abort(
                InconclusiveView::Io(why@),
            ),
            (StageView::ProbingRemote { cleared }, Event::Exists(present)) => self.run(
                StageView::Cloning { cleared },
                if present {
                    ShallowBareRepository::probe(store, bin)
                } else {
                    ShallowBareRepository::clone_plan(store, bin, cleared)
                },
            ),
            (StageView::ProbingRemote { cleared }, Event::Failed(why)) => self.abort(
                InconclusiveView::Io(why@),
            ),
            (StageView::Cloning { cleared }, Event::Ran(report)) => match failure_of(report) {
                Some(e) => self.abort(e),
                None => self.run(
                    StageView::Fetching,
                    ShallowBareRepository::fetch_plan(store, bin, commit, cleared),
                ),
            },
            (StageView::Fetching, Event::Ran(report)) => match failure_of(report) {
                Some(e) => self.abort(e),
                None => self.start_checkout(commit, bin, datadir),
            },
            (StageView::CheckingOut { job }, Event::Ran(report)) => match job.next(report).1 {
                CheckoutStepView::Run(cmd) => self.run(
                    StageView::CheckingOut { job: job.next(report).0 },
                    cmd,
                ),
                CheckoutStepView::Done => (self.at(StageView::Unlocking), DirectiveView::Unlock),
                CheckoutStepView::Abort(e) => self.abort(e),
            },
            (StageView::Unlocking, Event::Done) => self.finish(),
            (StageView::Unlocking, Event::Failed(why)) => self.abort(InconclusiveView::Io(why@)),
            _ => self.abort(InconclusiveView::Unexpected),
        }
    }

    /// What follows an event: the resolver as it goes on, and what it asks
    /// for next.
    pub open spec fn step(self, event: Event, num: Seq<u8>) -> (ResolverView, DirectiveView) {
        match self.setup.source {
            SourceView::Local(bin) => self.step_local(bin, event),
            SourceView::VcsFromManifest { commit_id, git, datadir } => self.step_packaged(
                commit_id,
                git,
                datadir,
                event,
                num,
            ),
        }
    }
}

/// How a resolution begins. In a working copy the paths are resolved under
/// the directory of the manifest, and the working copy is probed first. In a
/// packaged source tree they are resolved under a work tree of its own, whose
/// directory is made first.
pub open spec fn beginning(setup: SetupView, num: Seq<u8>) -> (ResolverView, DirectiveView) {
    match setup.source {
        SourceView::Local(bin) => (
            ResolverView { setup, root: setup.manifest, stage: StageView::Probing },
            DirectiveView::Run(CrateDir::probe(setup.manifest, bin)),
        ),
        SourceView::VcsFromManifest { commit_id, git, datadir } => (
            ResolverView { setup, root: tree_path(datadir, num), stage: StageView::MakingTree },
            DirectiveView::CreateDir(tree_path(datadir, num)),
        ),
    }
}

/// The run ends without a conclusion.
fn abort(setup: Setup, root: String, e: Inconclusive) -> (r: (Resolver, Directive))
    ensures
        (r.0@, r.1@) == (ResolverView { setup: setup@, root: root@, stage: StageView::Finished }).abort(
            e@,
        ),
{
    (Resolver { setup, root, stage: Stage::Finished }, Directive::Abort(e))
}

/// The run ends with every path placed under the root.
fn finish(setup: Setup, root: String) -> (r: (Resolver, Directive))
    ensures
        (r.0@, r.1@) == (ResolverView { setup: setup@, root: root@, stage: StageView::Finished }).finish(),
{
    let data = setup.resources().resolve(root.as_str());
    (Resolver { setup, root, stage: Stage::Finished }, Directive::Finished(data))
}

/// In a working copy, once the paths are known to be tracked.
fn after_status(setup: Setup, root: String) -> (r: (Resolver, Directive))
    ensures
        (r.0@, r.1@) == (ResolverView {
            setup: setup@,
            root: root@,
            stage: StageView::Finished,
        }).after_status(),
{
    let dir = match setup.pack_objects() {
        Some(dir) => Some(String::from_str(dir)),
        None => None,
    };
    match dir {
        None => finish(setup, root),
        Some(dir) => (
            Resolver { setup, root, stage: Stage::MakingPackDir },
            Directive::CreateDirAll(dir),
        ),
    }
}

/// What follows an event in a working copy.
fn advance_local(setup: Setup, root: String, stage: Stage, event: Event, git: Git) -> (r: (
    Resolver,
    Directive,
))
    ensures
        (r.0@, r.1@) == (ResolverView { setup: setup@, root: root@, stage: stage@ }).step_local(
            git.bin@,
            event,
        ),
{
    let dir = CrateDir { path: String::from_str(setup.manifest()) };
    let ghost before = ResolverView { setup: setup@, root: root@, stage: stage@ };
    let ghost fallback = ResolverView { setup: setup@, root: root@, stage: StageView::Finished };
    proof {
        assert(forall|st: StageView| before.at(st) == fallback.at(st));
    }
    match (stage, event) {
        (Stage::Probing, Event::Ran(report)) => match demand(report) {
            Err(e) => abort(setup, root, e),
            Ok(_) => {
                let specs = setup.resources().path_specs();
                match dir.tracked_query(&git, &specs) {
                    None => after_status(setup, root),
                    Some(cmd) => (Resolver { setup, root, stage: Stage::Status }, Directive::Run(cmd)),
                }
            },
        },
        (Stage::Status, Event::Ran(Report::Failed(why))) => abort(setup, root, Inconclusive::Io(why)),
        (Stage::Status, Event::Ran(Report::Exited(outcome))) => match tracked_verdict(&outcome) {
            Err(e) => abort(setup, root, e),
            Ok(_) => after_status(setup, root),
        },
        (Stage::MakingPackDir, Event::Done) => {
            let specs = setup.resources().path_specs();
            let cmd = dir.hash_sparse_oid(&git, &specs);
            (Resolver { setup, root, stage: Stage::Hashing }, Directive::Run(cmd))
        },
        (Stage::MakingPackDir, Event::Failed(why)) => abort(setup, root, Inconclusive::Io(why)),
        (Stage::Hashing, Event::Ran(Report::Failed(why))) => abort(
            setup,
            root,
            Inconclusive::Io(why),
        ),
        (Stage::Hashing, Event::Ran(Report::Exited(outcome))) => match sparse_oid(&outcome) {
            Err(e) => abort(setup, root, e),
            Ok(oid) => {
                let cmds = dir.sparse_rev_list(&git, &oid);
                (Resolver { setup, root, stage: Stage::ListingSelected }, Directive::Run(cmds.0))
            },
        },
        (Stage::ListingSelected, Event::Ran(report)) => match demand(report) {
            Err(e) => abort(setup, root, e),
            Ok(outcome) => {
                let cmd = dir.list_for(&git, "--filter=blob:none");
                (
                    Resolver { setup, root, stage: Stage::ListingTrees { selected: outcome.stdout } },
                    Directive::Run(cmd),
                )
            },
        },
        (Stage::ListingTrees { selected }, Event::Ran(report)) => match demand(report) {
            Err(e) => abort(setup, root, e),
            Ok(outcome) => {
                let target = match setup.pack_objects() {
                    Some(dir) => Some(String::from_str(dir)),
                    None => None,
                };
                match target {
                    Some(target) => {
                        let objects = packed_objects(selected, &outcome.stdout);
                        let cmd = dir.pack_objects(&git, target.as_str(), objects);
                        (Resolver { setup, root, stage: Stage::Packing }, Directive::Run(cmd))
                    },
                    None => abort(setup, root, Inconclusive::Unexpected),
                }
            },
        },
        (Stage::Packing, Event::Ran(report)) => match demand(report) {
            Err(e) => abort(setup, root, e),
            Ok(_) => finish(setup, root),
        },
        _ => abort(setup, root, Inconclusive::Unexpected),
    }
}

/// The checkout of the registered paths into the work tree begins.
fn start_checkout(setup: Setup, root: String, commit: &CommitId, git: &Git, datadir: &str) -> (r: (
    Resolver,
    Directive,
))
    ensures
        (r.0@, r.1@) == (ResolverView {
            setup: setup@,
            root: root@,
            stage: StageView::Finished,
        }).start_checkout(commit@, git.bin@, datadir@),
{
    let repo = ShallowBareRepository { path: join(datadir, "xtest-data-git") };
    let specs = setup.resources().path_specs();
    let started = repo.checkout(git, root.as_str(), commit, &specs);
    (Resolver { setup, root, stage: Stage::CheckingOut { job: started.0 } }, Directive::Run(started.1))
}

/// The next pack of `queue` is unpacked; after the last one the checkout
/// begins.
fn unpack_next(
    setup: Setup,
    root: String,
    queue: Vec<Invocation>,
    commit: &CommitId,
    git: &Git,
    datadir: &str,
) -> (r: (Resolver, Directive))
    ensures
        (r.0@, r.1@) == (ResolverView {
            setup: setup@,
            root: root@,
            stage: StageView::Finished,
        }).unpack_next(plans(queue@), commit@, git.bin@, datadir@),
{
    let mut queue = queue;
    if queue.len() == 0 {
        start_checkout(setup, root, commit, git, datadir)
    } else {
        let ghost before = plans(queue@);
        let cmd = queue.remove(0);
        proof {
            assert(plans(queue@) =~= before.drop_first());
            assert(cmd@ == before[0]);
        }
        (Resolver { setup, root, stage: Stage::Unpacking { queue } }, Directive::Run(cmd))
    }
}

/// Once the directory of the work tree is made.
fn after_tree(setup: Setup, root: String, commit: &CommitId, git: &Git, datadir: &str) -> (r: (
    Resolver,
    Directive,
))
    ensures
        (r.0@, r.1@) == (ResolverView {
            setup: setup@,
            root: root@,
            stage: StageView::Finished,
        }).after_tree(commit@, datadir@),
{
    let lock = join(datadir, "xtest-data.lock");
    if setup.pack_objects().is_some() {
        return (Resolver { setup, root, stage: Stage::LockingShipped }, Directive::Lock(lock));
    }
    let store = join(datadir, "xtest-data-git");
    let origin = Origin { url: String::from_str(setup.repository()) };
    let paths = setup.resources().as_paths();
    let specs = setup.resources().path_specs();
    let verdict = git.consent_to_use(
        store.as_str(),
        root.as_str(),
        &origin,
        commit,
        &paths,
        &specs,
        setup.fetch(),
    );
    match verdict {
        Ok(cleared) => (
            Resolver { setup, root, stage: Stage::LockingRemote { cleared } },
            Directive::Lock(lock),
        ),
        Err(e) => abort(setup, root, e),
    }
}

/// What follows an event in a packaged source tree.
fn advance_packaged(
    setup: Setup,
    root: String,
    stage: Stage,
    event: Event,
    commit: CommitId,
    git: Git,
    datadir: String,
) -> (r: (Resolver, Directive))
    ensures
        exists|num: Seq<u8>|
            num.len() == 8 && (r.0@, r.1@) == (ResolverView {
                setup: setup@,
                root: root@,
                stage: stage@,
            }).step_packaged(commit@, git.bin@, datadir@, event, num),
{
    let ghost before = ResolverView { setup: setup@, root: root@, stage: stage@ };
    let ghost fallback = ResolverView { setup: setup@, root: root@, stage: StageView::Finished };
    let ghost any = Seq::new(8, |i: int| 0u8);
    proof {
        assert(forall|st: StageView| before.at(st) == fallback.at(st));
    }
    let repo = ShallowBareRepository { path: join(datadir.as_str(), "xtest-data-git") };
    let r = match (stage, event) {
        (Stage::MakingTree, Event::Done) => after_tree(
            setup,
            root,
            &commit,
            &git,
            datadir.as_str(),
        ),
        (Stage::MakingTree, Event::AlreadyExists) => {
            let tree = unique_dir(datadir.as_str(), "xtest-data-tree");
            let r = (
                Resolver { setup, root: tree.clone(), stage: Stage::MakingTree },
                Directive::CreateDir(tree),
            );
            proof {
                let num = choose|num: Seq<u8>|
                    num.len() == 8 && tree@ == joined(datadir@, unique("xtest-data-tree"@, num));
                assert((r.0@, r.1@) == before.step_packaged(
                    commit@,
                    git.bin@,
                    datadir@,
                    event,
                    num,
                ));
            }
            return r;
        },
        (Stage::MakingTree, Event::Failed(why)) => abort(setup, root, Inconclusive::Io(why)),
        (Stage::LockingShipped, Event::Done) => (
            Resolver { setup, root, stage: Stage::ProbingShipped },
            Directive::Probe(repo.path),
        ),
        (Stage::LockingShipped, Event::Failed(why)) => abort(setup, root, Inconclusive::Io(why)),
        (Stage::ProbingShipped, Event::Exists(present)) => {
            let made = git.bare(repo.path, present);
            (Resolver { setup, root, stage: Stage::Initializing }, Directive::Run(made.1))
        },
        (Stage::ProbingShipped, Event::Failed(why)) => abort(setup, root, Inconclusive::Io(why)),
        (Stage::Initializing, Event::Ran(report)) => match demand(report) {
            Err(e) => abort(setup, root, e),
            Ok(_) => {
                let marker = repo.shallow_marker(&commit);
                (
                    Resolver { setup, root, stage: Stage::Marking },
                    Directive::WriteFile { path: marker.0, contents: marker.1 },
                )
            },
        },
        (Stage::Marking, Event::Done) => {
            let packs = match setup.pack_objects() {
                Some(dir) => Some(String::from_str(dir)),
                None => None,
            };
            match packs {
                Some(dir) => (
                    Resolver { setup, root, stage: Stage::ListingPacks },
                    Directive::ListDir(dir),
                ),
                None => abort(setup, root, Inconclusive::Unexpected),
            }
        },
        (Stage::Marking, Event::Failed(why)) => abort(setup, root, Inconclusive::Io(why)),
        (Stage::ListingPacks, Event::Entries(entries)) => {
            let queue = repo.unpack(&git, &entries);
            unpack_next(setup, root, queue, &commit, &git, datadir.as_str())
        },
        (Stage::ListingPacks, Event::Failed(why)) => abort(setup, root, Inconclusive::Io(why)),
        (Stage::Unpacking { queue }, Event::Ran(report)) => match demand(report) {
            Err(e) => abort(setup, root, e),
            Ok(_) => unpack_next(setup, root, queue, &commit, &git, datadir.as_str()),
        },
        (Stage::LockingRemote { cleared }, Event::Done) => (
            Resolver { setup, root, stage: Stage::ProbingRemote { cleared } },
            Directive::Probe(repo.path),
        ),
        (Stage::LockingRemote { cleared }, Event::Failed(why)) => abort(
            setup,
            root,
            Inconclusive::Io(why),
        ),
        (Stage::ProbingRemote { cleared }, Event::Exists(present)) => {
            let made = git.shallow_clone(repo.path, &cleared, present);
            (Resolver { setup, root, stage: Stage::Cloning { cleared } }, Directive::Run(made.1))
        },
        (Stage::ProbingRemote { cleared }, Event::Failed(why)) => abort(
            setup,
            root,
            Inconclusive::Io(why),
        ),
        (Stage::Cloning { cleared }, Event::Ran(report)) => match demand(report) {
            Err(e) => abort(setup, root, e),
            Ok(_) => {
                let cmd = repo.fetch(&git, &commit, &cleared);
                (Resolver { setup, root, stage: Stage::Fetching }, Directive::Run(cmd))
            },
        },
        (Stage::Fetching, Event::Ran(report)) => match demand(report) {
            Err(e) => abort(setup, root, e),
            Ok(_) => start_checkout(setup, root, &commit, &git, datadir.as_str()),
        },
        (Stage::CheckingOut { job }, Event::Ran(report)) => {
            let mut job = job;
            match job.advance(report) {
                CheckoutStep::Run(cmd) => (
                    Resolver { setup, root, stage: Stage::CheckingOut { job } },
                    Directive::Run(cmd),
                ),
                CheckoutStep::Done => (
                    Resolver { setup, root, stage: Stage::Unlocking },
                    Directive::Unlock,
                ),
                CheckoutStep::Abort(e) => abort(setup, root, e),
            }
        },
        (Stage::Unlocking, Event::Done) => finish(setup, root),
        (Stage::Unlocking, Event::Failed(why)) => abort(setup, root, Inconclusive::Io(why)),
        _ => abort(setup, root, Inconclusive::Unexpected),
    };
    proof {
        assert(any.len() == 8);
        assert((r.0@, r.1@) == before.step_packaged(commit@, git.bin@, datadir@, event, any));
    }
    r
}

impl Resolver {
    /// The directory that the paths are resolved under.
    pub fn root(&self) -> (root: &str)
        ensures
            root@ == self@.root,
    {
        self.root.as_str()
    }

    /// What the resolver is waiting for.
    pub fn stage(&self) -> (stage: &Stage)
        ensures
            stage@ == self@.stage,
    {
        &self.stage
    }

    /// What was registered, and where the data comes from.
    pub fn setup(&self) -> (setup: &Setup)
        ensures
            setup@ == self@.setup,
    {
        &self.setup
    }

    /// Takes the report of what was asked last and says what to do next.
    ///
    /// One step is left to chance: where the directory for the work tree
    /// exists already, another name is drawn.
    pub fn advance(self, event: Event) -> (r: (Resolver, Directive))
        ensures
            exists|num: Seq<u8>| num.len() == 8 && (r.0@, r.1@) == self@.step(event, num),
    {
        let Resolver { setup, root, stage } = self;
        let ghost before = ResolverView { setup: setup@, root: root@, stage: stage@ };
        let git = match setup.source() {
            Source::Local(git) => Git::new(git.bin.as_str()),
            Source::VcsFromManifest { commit_id, git, datadir } => Git::new(git.bin.as_str()),
        };
        let packaged = match setup.source() {
            Source::Local(_) => None,
            Source::VcsFromManifest { commit_id, git, datadir } => Some(
                (commit_id.duplicate(), datadir.clone()),
            ),
        };
        match packaged {
            None => {
                let r = advance_local(setup, root, stage, event, git);
                proof {
                    let any = Seq::new(8, |i: int| 0u8);
                    assert(any.len() == 8 && (r.0@, r.1@) == before.step(event, any));
                }
                r
            },
            Some(parts) => {
                let r = advance_packaged(setup, root, stage, event, parts.0, git, parts.1);
                proof {
                    let num = choose|num: Seq<u8>|
                        num.len() == 8 && (r.0@, r.1@) == before.step_packaged(
                            parts.0@,
                            git.bin@,
                            parts.1@,
                            event,
                            num,
                        );
                    assert(num.len() == 8 && (r.0@, r.1@) == before.step(event, num));
                }
                r
            },
        }
    }
}

impl Setup {
    /// Begins to resolve what was registered: hands out the resolver and the
    /// first thing it asks for.
    pub fn build(self) -> (r: (Resolver, Directive))
        ensures
            exists|num: Seq<u8>| num.len() == 8 && (r.0@, r.1@) == beginning(self@, num),
    {
        let ghost before = self@;
        let packaged = match self.source() {
            Source::Local(_) => None,
            Source::VcsFromManifest { commit_id, git, datadir } => Some(datadir.clone()),
        };
        match packaged {
            None => {
                let git = match self.source() {
                    Source::Local(git) => Git::new(git.bin.as_str()),
                    Source::VcsFromManifest { commit_id, git, datadir } => Git::new(
                        git.bin.as_str(),
                    ),
                };
                let probe = CrateDir::new(self.manifest(), &git);
                let root = String::from_str(self.manifest());
                let r = (Resolver { setup: self, root, stage: Stage::Probing }, Directive::Run(probe.1));
                proof {
                    let any = Seq::new(8, |i: int| 0u8);
                    assert(any.len() == 8 && (r.0@, r.1@) == beginning(before, any));
                }
                r
            },
            Some(datadir) => {
                let tree = unique_dir(datadir.as_str(), "xtest-data-tree");
                let r = (
                    Resolver { setup: self, root: tree.clone(), stage: Stage::MakingTree },
                    Directive::CreateDir(tree),
                );
                proof {
                    let num = choose|num: Seq<u8>|
                        num.len() == 8 && tree@ == joined(
                            datadir@,
                            unique("xtest-data-tree"@, num),
                        );
                    assert(num.len() == 8 && (r.0@, r.1@) == beginning(before, num));
                }
                r
            },
        }
    }
}

} // verus!
