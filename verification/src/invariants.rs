//! What holds of every step of a resolution, whatever the caller reports.

use crate::error::InconclusiveView;
use crate::git::consent_plan;
use crate::git::is_consent;
use crate::path::joined;
use crate::process::Report;
use crate::resolve::DirectiveView;
use crate::resolve::Event;
use crate::resolve::ResolverView;
use crate::resolve::StageView;
use crate::resolve::beginning;
use crate::resolve::lock_path;
use crate::resolve::store_path;
use crate::resolve::tree_path;
use crate::setup::SetupView;
use crate::worktree::tracked_failure;
use vstd::prelude::*;
use vstd::string::*;

verus! {

/// Whether the directive asks for work on the object store or on the work
/// tree that is checked out of it.
pub open spec fn touches_store(directive: DirectiveView) -> bool {
    directive is Run || directive is Probe || directive is WriteFile || directive is ListDir
}

/// Whether the lock is held while the resolver waits in `stage`.
pub open spec fn holds_lock(stage: StageView) -> bool {
    stage is ProbingShipped || stage is Initializing || stage is Marking || stage is ListingPacks
        || stage is Unpacking || stage is ProbingRemote || stage is Cloning || stage is Fetching
        || stage is CheckingOut
}

/// Whether the resolver waits in `stage` for the lock to be taken.
pub open spec fn awaits_lock(stage: StageView) -> bool {
    stage is LockingShipped || stage is LockingRemote
}

/// Whether the resolver can be in `stage` only once the registered paths
/// were found to be tracked.
pub open spec fn past_check(stage: StageView) -> bool {
    stage is MakingPackDir || stage is Hashing || stage is ListingSelected || stage
        is ListingTrees || stage is Packing
}

/// Whether the event reports a status query that succeeded and found neither
/// an ignored nor an untracked path.
pub open spec fn passed_check(event: Event) -> bool {
    match event {
        Event::Ran(Report::Exited(outcome)) => tracked_failure(outcome) is None,
        _ => false,
    }
}

/// Whether the setup resolves from a packaged source tree without shipped
/// packs and without consent to use the network.
pub open spec fn denied(setup: SetupView) -> bool {
    setup.source is VcsFromManifest && setup.pack_objects is None && !is_consent(setup.fetch)
}

/// The setup stays as it is through every step.
pub proof fn lemma_setup_stays(state: ResolverView, event: Event, num: Seq<u8>)
    ensures
        state.step(event, num).0.setup == state.setup,
{
}

/// Whenever a resolution finishes, each owned path and each borrowed path is
/// the registered path placed under the root, in the order of registration.
pub proof fn lemma_finished_under_root(state: ResolverView, event: Event, num: Seq<u8>)
    ensures
        match state.step(event, num).1 {
            DirectiveView::Finished { paths, rewritten } => {
                &&& paths.len() == state.setup.managed.len()
                &&& rewritten.len() == state.setup.borrowed.len()
                &&& forall|i: int|
                    0 <= i < paths.len() ==> #[trigger] paths[i] == joined(
                        state.root,
                        state.setup.managed[i],
                    )
                &&& forall|i: int|
                    0 <= i < rewritten.len() ==> #[trigger] rewritten[i] == joined(
                        state.root,
                        state.setup.borrowed[i],
                    )
            },
            _ => true,
        },
{
}

/// In a working copy the root is the directory of the manifest: at the
/// beginning, and after every step. So each path resolves to the registered
/// path placed under the directory of the manifest.
pub proof fn lemma_local_root(state: ResolverView, event: Event, num: Seq<u8>)
    requires
        state.setup.source is Local,
        state.root == state.setup.manifest,
    ensures
        beginning(state.setup, num).0.root == state.setup.manifest,
        state.step(event, num).0.root == state.setup.manifest,
        match state.step(event, num).1 {
            DirectiveView::Finished { paths, rewritten } => {
                &&& paths.len() == state.setup.managed.len()
                &&& forall|i: int|
                    0 <= i < paths.len() ==> #[trigger] paths[i] == joined(
                        state.setup.manifest,
                        state.setup.managed[i],
                    )
                &&& rewritten.len() == state.setup.borrowed.len()
                &&& forall|i: int|
                    0 <= i < rewritten.len() ==> #[trigger] rewritten[i] == joined(
                        state.setup.manifest,
                        state.setup.borrowed[i],
                    )
            },
            _ => true,
        },
{
    lemma_finished_under_root(state, event, num);
}

/// In a packaged source tree the root is a work tree of its own in the data
/// directory, named by sixteen digits: at the beginning, and after every
/// step.
pub proof fn lemma_packaged_root(state: ResolverView, event: Event, num: Seq<u8>)
    requires
        state.setup.source is VcsFromManifest,
        exists|at: Seq<u8>| state.root == tree_path(state.setup.source->datadir, at),
    ensures
        beginning(state.setup, num).0.root == tree_path(state.setup.source->datadir, num),
        exists|at: Seq<u8>|
            state.step(event, num).0.root == tree_path(state.setup.source->datadir, at),
{
    let next = state.step(event, num).0;
    if next.root != state.root {
        assert(next.root == tree_path(state.setup.source->datadir, num));
    } else {
        let at = choose|at: Seq<u8>| state.root == tree_path(state.setup.source->datadir, at);
        assert(next.root == tree_path(state.setup.source->datadir, at));
    }
}

/// Without shipped packs and without consent no process is ever run and
/// nothing of the store is touched: the resolver only makes the directory of
/// the work tree, and once that is made it ends the run with the plan of what
/// it would have fetched.
pub proof fn lemma_denied_never_runs(state: ResolverView, event: Event, num: Seq<u8>)
    requires
        denied(state.setup),
        state.stage is MakingTree || state.stage is Finished,
    ensures
        beginning(state.setup, num).0.stage is MakingTree,
        beginning(state.setup, num).1 is CreateDir,
        state.step(event, num).0.stage is MakingTree || state.step(event, num).0.stage
            is Finished,
        state.step(event, num).1 is CreateDir || state.step(event, num).1 is Abort,
        (state.stage is MakingTree && event is Done) ==> state.step(event, num).1
            == DirectiveView::Abort(
            InconclusiveView::ConsentDenied(
                consent_plan(
                    store_path(state.setup.source->datadir),
                    state.root,
                    state.setup.repository,
                    state.setup.source->commit_id,
                    state.setup.paths(),
                    state.setup.specs(),
                ),
            ),
        ),
{
}

/// The lock is asked for only once consent is given or packs are shipped,
/// and an origin is only ever cleared as the repository in effect.
pub proof fn lemma_lock_follows_consent(state: ResolverView, event: Event, num: Seq<u8>)
    requires
        state.setup.source is VcsFromManifest,
    ensures
        state.step(event, num).1 is Lock ==> state.stage is MakingTree && (state.setup.pack_objects
            is Some || is_consent(state.setup.fetch)),
        state.stage is MakingTree ==> match state.step(event, num).0.stage {
            StageView::LockingRemote { cleared } => cleared == state.setup.repository
                && is_consent(state.setup.fetch),
            _ => true,
        },
{
}

/// In a packaged source tree whatever touches the store is asked for while
/// the lock is held: after the lock was taken and before it is let go. The
/// run finishes only after the lock was let go.
pub proof fn lemma_store_work_is_locked(state: ResolverView, event: Event, num: Seq<u8>)
    requires
        state.setup.source is VcsFromManifest,
    ensures
        touches_store(state.step(event, num).1) ==> holds_lock(state.stage) || (awaits_lock(
            state.stage,
        ) && event is Done),
        holds_lock(state.step(event, num).0.stage) ==> holds_lock(state.stage) || (awaits_lock(
            state.stage,
        ) && event is Done),
        state.step(event, num).1 is Lock ==> state.step(event, num).1 == DirectiveView::Lock(
            lock_path(state.setup.source->datadir),
        ) && awaits_lock(state.step(event, num).0.stage),
        state.step(event, num).1 is Unlock ==> holds_lock(state.stage),
        state.step(event, num).1 is Finished ==> state.stage is Unlocking && event is Done,
{
}

/// In a working copy nothing is written before the registered paths were
/// found to be tracked: the directory for the packs is made, and the packing
/// begun, only after the status query succeeded and reported no ignored and
/// no untracked path, or where there is no path to ask about.
pub proof fn lemma_pack_follows_check(state: ResolverView, event: Event, num: Seq<u8>)
    requires
        state.setup.source is Local,
    ensures
        (state.step(event, num).1 is CreateDirAll || past_check(state.step(event, num).0.stage))
            ==> {
            ||| past_check(state.stage)
            ||| (state.stage is Status && passed_check(event))
            ||| (state.stage is Probing && state.setup.specs().len() == 0)
        },
        !touches_store(state.step(event, num).1) || state.step(event, num).1 is Run,
{
}

/// A status query that did not succeed, or that reports an ignored or an
/// untracked path, ends the run: no path is resolved.
pub proof fn lemma_failed_check_aborts(state: ResolverView, report: Report, num: Seq<u8>)
    requires
        state.setup.source is Local,
        state.stage is Status,
        match report {
            Report::Exited(outcome) => tracked_failure(outcome) is Some,
            Report::Failed(_) => true,
        },
    ensures
        state.step(Event::Ran(report), num).1 is Abort,
        state.step(Event::Ran(report), num).0.stage is Finished,
{
}

/// Whether the resolver waits in `stage` for something that uses the
/// network: the stages between the consent and the checkout.
pub open spec fn uses_origin(stage: StageView) -> bool {
    stage is LockingRemote || stage is ProbingRemote || stage is Cloning || stage is Fetching
}

/// With shipped packs nothing is taken from the origin: the resolver never
/// waits for a clone or a fetch, whatever the consent variable says.
pub proof fn lemma_shipped_packs_need_no_origin(state: ResolverView, event: Event, num: Seq<u8>)
    requires
        state.setup.source is VcsFromManifest,
        state.setup.pack_objects is Some,
        !uses_origin(state.stage),
    ensures
        !uses_origin(beginning(state.setup, num).0.stage),
        !uses_origin(state.step(event, num).0.stage),
{
}

/// A key that was handed out stays good: when the resolution finishes, the
/// key finds the path it was registered with, placed under the root.
pub proof fn lemma_key_finds_its_path(state: ResolverView, event: Event, num: Seq<u8>, key: int)
    requires
        0 <= key < state.setup.managed.len(),
    ensures
        match state.step(event, num).1 {
            DirectiveView::Finished { paths, rewritten } => key < paths.len() && paths[key]
                == joined(state.root, state.setup.managed[key]),
            _ => true,
        },
{
    lemma_finished_under_root(state, event, num);
}

/// Two resolvers that share a data directory work in different trees unless
/// chance drew the same bytes for both; and then the second finds the
/// directory made and draws again.
pub proof fn lemma_trees_differ(datadir: Seq<char>, a: Seq<u8>, b: Seq<u8>)
    requires
        a.len() == 8,
        b.len() == 8,
        a != b,
    ensures
        tree_path(datadir, a) != tree_path(datadir, b),
{
    reveal_strlit("xtest-data-tree");
    crate::unique::lemma_unique_names_differ(datadir, "xtest-data-tree"@, a, b);
}

} // verus!
