//! Operations on the bare object store: setting it up, filling it and
//! checking files out of it.

use crate::git::ClearedOrigin;
use crate::git::CommitId;
use crate::git::Git;
use crate::git::PathSpec;
use crate::git::PathSpecView;
use crate::git::ShallowBareRepository;
use crate::git::spec_views;
use crate::path::join;
use crate::path::joined;
use crate::process::Input;
use crate::process::InputView;
use crate::process::Invocation;
use crate::process::InvocationView;
use crate::process::Stream;
use crate::process::bare_invocation;
use crate::process::plans;
use crate::text::ends_with;
use crate::text::has_suffix;
use crate::worktree::nul_terminated;
use crate::worktree::nul_terminated_list;
use vstd::prelude::*;
use vstd::string::*;

verus! {

/// The path expressions that can be given one per line, in order.
pub open spec fn simple_of(paths: Seq<PathSpecView>) -> Seq<PathSpecView> {
    paths.filter(|p: PathSpecView| p.is_simple())
}

/// The path expressions that cannot be given one per line, in order.
pub open spec fn complex_of(paths: Seq<PathSpecView>) -> Seq<PathSpecView> {
    paths.filter(|p: PathSpecView| !p.is_simple())
}

/// The encompassing path of each expression, each followed by a line break.
pub open spec fn path_lines(paths: Seq<PathSpecView>) -> Seq<char>
    decreases paths.len(),
{
    if paths.len() == 0 {
        Seq::empty()
    } else {
        path_lines(paths.drop_last()) + match paths.last().encompassing_path() {
            Some(path) => path,
            None => Seq::empty(),
        } + seq!['\n']
    }
}

/// Path expressions parted in two: those that a sparse checkout can take,
/// and the rest.
#[derive(Debug)]
pub struct PathSpecFilter {
    pub simple_filter: Vec<PathSpec>,
    pub complex_paths: Vec<PathSpec>,
}

proof fn lemma_parts_step(all: Seq<PathSpecView>, i: int)
    requires
        0 <= i < all.len(),
    ensures
        simple_of(all.take(i + 1)) == if all[i].is_simple() {
            simple_of(all.take(i)).push(all[i])
        } else {
            simple_of(all.take(i))
        },
        complex_of(all.take(i + 1)) == if all[i].is_simple() {
            complex_of(all.take(i))
        } else {
            complex_of(all.take(i)).push(all[i])
        },
{
    reveal(Seq::filter);
    assert(all.take(i + 1).drop_last() =~= all.take(i));
    assert(all.take(i + 1).last() == all[i]);
}

impl PathSpecFilter {
    /// The filter that holds nothing.
    pub fn new() -> (filter: PathSpecFilter)
        ensures
            filter.simple_filter@.len() == 0,
            filter.complex_paths@.len() == 0,
    {
        PathSpecFilter { simple_filter: Vec::new(), complex_paths: Vec::new() }
    }

    /// Sorts each of `paths` into its part, in order, after what is there.
    pub fn extend(&mut self, paths: &Vec<PathSpec>)
        ensures
            spec_views(final(self).simple_filter@) == spec_views(old(self).simple_filter@)
                + simple_of(spec_views(paths@)),
            spec_views(final(self).complex_paths@) == spec_views(old(self).complex_paths@)
                + complex_of(spec_views(paths@)),
    {
        let ghost all = spec_views(paths@);
        let ghost simple0 = spec_views(self.simple_filter@);
        let ghost complex0 = spec_views(self.complex_paths@);
        proof {
            reveal(Seq::filter);
            assert(all.take(0).len() == 0);
            assert(spec_views(self.simple_filter@) =~= simple0 + simple_of(all.take(0)));
            assert(spec_views(self.complex_paths@) =~= complex0 + complex_of(all.take(0)));
        }
        let mut i: usize = 0;
        while i < paths.len()
            invariant
                i <= paths.len(),
                all == spec_views(paths@),
                spec_views(self.simple_filter@) == simple0 + simple_of(all.take(i as int)),
                spec_views(self.complex_paths@) == complex0 + complex_of(all.take(i as int)),
            decreases paths.len() - i,
        {
            let path = paths[i].duplicate();
            let ghost simple1 = spec_views(self.simple_filter@);
            let ghost complex1 = spec_views(self.complex_paths@);
            let ghost value = path@;
            proof {
                lemma_parts_step(all, i as int);
                assert(all[i as int] == value);
            }
            if path.is_simple() {
                self.simple_filter.push(path);
                assert(spec_views(self.simple_filter@) =~= simple1.push(value));
                assert(simple1.push(value) =~= simple0 + simple_of(all.take(i as int)).push(
                    value,
                ));
            } else {
                self.complex_paths.push(path);
                assert(spec_views(self.complex_paths@) =~= complex1.push(value));
                assert(complex1.push(value) =~= complex0 + complex_of(all.take(i as int)).push(
                    value,
                ));
            }
            i += 1;
        }
        proof {
            assert(all.take(paths.len() as int) =~= all);
        }
    }

    /// The two parts of `paths`.
    pub fn from_iter(paths: &Vec<PathSpec>) -> (filter: PathSpecFilter)
        ensures
            spec_views(filter.simple_filter@) == simple_of(spec_views(paths@)),
            spec_views(filter.complex_paths@) == complex_of(spec_views(paths@)),
    {
        let mut this = PathSpecFilter::new();
        this.extend(paths);
        proof {
            assert(spec_views(this.simple_filter@) =~= simple_of(spec_views(paths@)));
            assert(spec_views(this.complex_paths@) =~= complex_of(spec_views(paths@)));
        }
        this
    }
}

/// A path expression that holds a line break is never handed to the sparse
/// checkout: it is among the complex ones, which only the checkout that reads
/// NUL-separated expressions takes.
pub proof fn lemma_line_break_is_complex(paths: Seq<PathSpecView>, i: int)
    requires
        0 <= i < paths.len(),
        paths[i] matches PathSpecView::Path(path) && path.contains('\n'),
    ensures
        complex_of(paths).contains(paths[i]),
        !simple_of(paths).contains(paths[i]),
{
    let simple = |p: PathSpecView| p.is_simple();
    let complex = |p: PathSpecView| !p.is_simple();
    assert(complex(paths[i]));
    paths.lemma_filter_contains(complex, i);
    if simple_of(paths).contains(paths[i]) {
        let k = choose|k: int| 0 <= k < simple_of(paths).len() && simple_of(paths)[k] == paths[i];
        paths.lemma_filter_pred(simple, k);
    }
}

/// Every path expression is in exactly one of the two parts.
pub proof fn lemma_parts_cover(paths: Seq<PathSpecView>, i: int)
    requires
        0 <= i < paths.len(),
    ensures
        simple_of(paths).contains(paths[i]) <==> paths[i].is_simple(),
        complex_of(paths).contains(paths[i]) <==> !paths[i].is_simple(),
{
    let simple = |p: PathSpecView| p.is_simple();
    let complex = |p: PathSpecView| !p.is_simple();
    if paths[i].is_simple() {
        assert(simple(paths[i]));
        paths.lemma_filter_contains(simple, i);
    } else {
        assert(complex(paths[i]));
        paths.lemma_filter_contains(complex, i);
    }
    if simple_of(paths).contains(paths[i]) {
        let k = choose|k: int| 0 <= k < simple_of(paths).len() && simple_of(paths)[k] == paths[i];
        paths.lemma_filter_pred(simple, k);
    }
    if complex_of(paths).contains(paths[i]) {
        let k = choose|k: int|
            0 <= k < complex_of(paths).len() && complex_of(paths)[k] == paths[i];
        paths.lemma_filter_pred(complex, k);
    }
}

/// The entries whose name ends in `pack`, in order.
pub open spec fn pack_files(entries: Seq<Seq<char>>) -> Seq<Seq<char>> {
    entries.filter(|e: Seq<char>| has_suffix(e, "pack"@))
}

proof fn lemma_pack_files_step(entries: Seq<Seq<char>>, i: int)
    requires
        0 <= i < entries.len(),
    ensures
        pack_files(entries.take(i + 1)) == if has_suffix(entries[i], "pack"@) {
            pack_files(entries.take(i)).push(entries[i])
        } else {
            pack_files(entries.take(i))
        },
{
    reveal(Seq::filter);
    assert(entries.take(i + 1).drop_last() =~= entries.take(i));
    assert(entries.take(i + 1).last() == entries[i]);
}

/// The text that lists the encompassing path of each expression, one per
/// line.
pub(crate) fn path_lines_list(paths: &Vec<PathSpec>) -> (text: String)
    ensures
        text@ == path_lines(spec_views(paths@)),
{
    let ghost all = spec_views(paths@);
    let mut text = String::new();
    let mut i: usize = 0;
    while i < paths.len()
        invariant
            i <= paths.len(),
            all == spec_views(paths@),
            text@ == path_lines(all.take(i as int)),
        decreases paths.len() - i,
    {
        proof {
            reveal_strlit("\n");
            assert("\n"@ =~= seq!['\n']);
            assert(all.take(i + 1).drop_last() =~= all.take(i as int));
            assert(all.take(i + 1).last() == paths@[i as int]@);
        }
        match paths[i].as_encompassing_path() {
            Some(path) => {
                text.append(path);
            },
            None => {
                assert(text@ + Seq::<char>::empty() =~= text@);
            },
        }
        text.append("\n");
        i += 1;
    }
    proof {
        assert(all.take(paths.len() as int) =~= all);
    }
    text
}

impl ShallowBareRepository {
    /// The process that every operation on the store starts from: the binary
    /// pointed at the store, its output discarded and its errors captured.
    pub open spec fn base(path: Seq<char>, bin: Seq<char>) -> InvocationView {
        bare_invocation(bin).arg("--git-dir"@).arg(path).stdout(Stream::Null).stderr(
            Stream::Piped,
        )
    }

    /// The query that tells whether an existing directory is a store.
    pub open spec fn probe(path: Seq<char>, bin: Seq<char>) -> InvocationView {
        Self::base(path, bin).arg("symbolic-ref"@).arg("HEAD"@)
    }

    /// The shallow clone of `origin` into the store, without any blob.
    pub open spec fn clone_plan(path: Seq<char>, bin: Seq<char>, origin: Seq<char>)
        -> InvocationView {
        Self::base(path, bin).arg("clone"@).arg("--bare"@).arg("--no-checkout"@).arg(
            "--filter=blob:none"@,
        ).arg("--depth=1"@).arg("--"@).arg(origin).arg(path)
    }

    /// The making of an empty store.
    pub open spec fn init_plan(path: Seq<char>, bin: Seq<char>) -> InvocationView {
        Self::base(path, bin).arg("init"@).arg("--bare"@).arg("--"@).arg(path)
    }

    /// The fetch of one commit from `origin`, without any blob.
    pub open spec fn fetch_plan(
        path: Seq<char>,
        bin: Seq<char>,
        head: Seq<char>,
        origin: Seq<char>,
    ) -> InvocationView {
        Self::base(path, bin).arg("fetch"@).arg("--filter=blob:none"@).arg("--depth=1"@).arg(origin).arg(
            head,
        )
    }

    /// The unpacking of one pack file into the store.
    pub open spec fn unpack_one(path: Seq<char>, bin: Seq<char>, pack: Seq<char>)
        -> InvocationView {
        Self::base(path, bin).arg("unpack-objects"@).input(InputView::File(pack))
    }

    /// The unpacking of every pack file among `entries`, in order.
    pub open spec fn unpack_plan(path: Seq<char>, bin: Seq<char>, entries: Seq<Seq<char>>) -> Seq<
        InvocationView,
    > {
        pack_files(entries).map_values(|pack: Seq<char>| Self::unpack_one(path, bin, pack))
    }

    /// The making of the work tree for `head`, with no file in it yet.
    pub open spec fn worktree_plan(
        path: Seq<char>,
        bin: Seq<char>,
        worktree: Seq<char>,
        head: Seq<char>,
    ) -> InvocationView {
        Self::base(path, bin).arg("worktree"@).arg("add"@).arg("--no-checkout"@).arg(worktree).arg(head)
    }

    /// The restriction of the work tree to the given paths.
    pub open spec fn sparse_plan(
        path: Seq<char>,
        bin: Seq<char>,
        worktree: Seq<char>,
        simple: Seq<PathSpecView>,
    ) -> InvocationView {
        Self::base(path, bin).arg("--work-tree"@).arg(worktree).arg("sparse-checkout"@).arg("set"@).arg(
            "--stdin"@,
        ).input(InputView::Text(path_lines(simple)))
    }

    /// The checkout of `head` into the restricted work tree.
    pub open spec fn force_plan(
        path: Seq<char>,
        bin: Seq<char>,
        worktree: Seq<char>,
        head: Seq<char>,
    ) -> InvocationView {
        Self::base(path, bin).arg("--work-tree"@).arg(worktree).arg("checkout"@).arg("--force"@).arg(head)
    }

    /// The checkout of the given path expressions, read NUL-separated.
    pub open spec fn slow_plan(
        path: Seq<char>,
        bin: Seq<char>,
        worktree: Seq<char>,
        head: Seq<char>,
        paths: Seq<PathSpecView>,
    ) -> InvocationView {
        Self::base(path, bin).arg("--work-tree"@).arg(worktree).arg("checkout"@).arg("--no-guess"@).arg(
            "--force"@,
        ).arg("--pathspec-from-file=-"@).arg("--pathspec-file-nul"@).arg(head).input(
            InputView::Text(nul_terminated(paths)),
        )
    }

    /// The process that every operation on the store starts from.
    pub fn exec(&self, git: &Git) -> (cmd: Invocation)
        ensures
            cmd@ == ShallowBareRepository::base(self.path@, git.bin@),
    {
        let mut cmd = Invocation::new(git.bin.as_str());
        cmd.arg("--git-dir");
        cmd.arg(self.path.as_str());
        cmd.stdout(Stream::Null);
        cmd.stderr(Stream::Piped);
        cmd
    }

    /// The fetch of the commit `head` from the cleared origin.
    pub fn fetch(&self, git: &Git, head: &CommitId, origin: &ClearedOrigin) -> (cmd: Invocation)
        ensures
            cmd@ == ShallowBareRepository::fetch_plan(self.path@, git.bin@, head@, origin@),
    {
        let mut cmd = self.exec(git);
        cmd.arg("fetch");
        cmd.arg("--filter=blob:none");
        cmd.arg("--depth=1");
        cmd.arg(origin.url());
        cmd.arg(head.as_ref());
        cmd
    }

    /// Where the marker of the shallow boundary is kept, and what it holds:
    /// the pinned commit.
    pub fn shallow_marker(&self, head: &CommitId) -> (r: (String, Vec<u8>))
        ensures
            r.0@ == joined(self.path@, "shallow"@),
            r.1@ == head.as_bytes(),
    {
        (join(self.path.as_str(), "shallow"), head.as_ref().as_bytes_vec())
    }

    /// One process for each entry of a directory whose name ends in `pack`,
    /// in order: each streams that file into the store.
    pub fn unpack(&self, git: &Git, entries: &Vec<String>) -> (cmds: Vec<Invocation>)
        ensures
            plans(cmds@) == ShallowBareRepository::unpack_plan(
                self.path@,
                git.bin@,
                entries@.map_values(|e: String| e@),
            ),
    {
        let ghost names = entries@.map_values(|e: String| e@);
        let ghost one = |pack: Seq<char>|
            ShallowBareRepository::unpack_one(self.path@, git.bin@, pack);
        let mut cmds: Vec<Invocation> = Vec::new();
        proof {
            reveal(Seq::filter);
            assert(names.take(0).len() == 0);
            assert(plans(cmds@) =~= pack_files(names.take(0)).map_values(one));
        }
        let mut i: usize = 0;
        while i < entries.len()
            invariant
                i <= entries.len(),
                names == entries@.map_values(|e: String| e@),
                one == (|pack: Seq<char>|
                    ShallowBareRepository::unpack_one(self.path@, git.bin@, pack)),
                plans(cmds@) == pack_files(names.take(i as int)).map_values(one),
            decreases entries.len() - i,
        {
            proof {
                lemma_pack_files_step(names, i as int);
                assert(names[i as int] == entries@[i as int]@);
            }
            if ends_with(entries[i].as_str(), "pack") {
                let mut cmd = self.exec(git);
                cmd.arg("unpack-objects");
                cmd.input(Input::File(entries[i].clone()));
                let ghost before = plans(cmds@);
                let ghost value = cmd@;
                cmds.push(cmd);
                assert(plans(cmds@) =~= before.push(value));
                assert(before.push(value) =~= pack_files(names.take(i + 1)).map_values(one));
            }
            i += 1;
        }
        proof {
            assert(names.take(entries.len() as int) =~= names);
        }
        cmds
    }

    /// The checkout that reads the path expressions NUL-separated from its
    /// input. It takes every expression, but may reach out to the remote once
    /// for each.
    pub fn checkout_fallback_slow(
        &self,
        git: &Git,
        worktree: &str,
        head: &CommitId,
        paths: &Vec<PathSpec>,
    ) -> (cmd: Invocation)
        ensures
            cmd@ == ShallowBareRepository::slow_plan(
                self.path@,
                git.bin@,
                worktree@,
                head@,
                spec_views(paths@),
            ),
    {
        let mut cmd = self.exec(git);
        cmd.arg("--work-tree");
        cmd.arg(worktree);
        cmd.arg("checkout");
        cmd.arg("--no-guess");
        cmd.arg("--force");
        cmd.arg("--pathspec-from-file=-");
        cmd.arg("--pathspec-file-nul");
        cmd.arg(head.as_ref());
        cmd.input(Input::Text(nul_terminated_list(paths)));
        cmd
    }
}

impl CommitId {
    /// The bytes that encode the identity.
    pub open spec fn as_bytes(self) -> Seq<u8> {
        vstd::utf8::encode_utf8(self@)
    }
}

impl Git {
    /// The store at `path` as a shallow clone of the cleared origin: where
    /// nothing exists at `path` yet it is cloned, otherwise what is there is
    /// probed.
    pub fn shallow_clone(&self, path: String, origin: &ClearedOrigin, present: bool) -> (r: (
        ShallowBareRepository,
        Invocation,
    ))
        ensures
            r.0.path@ == path@,
            r.1@ == (if present {
                ShallowBareRepository::probe(path@, self.bin@)
            } else {
                ShallowBareRepository::clone_plan(path@, self.bin@, origin@)
            }),
    {
        let repo = ShallowBareRepository { path };
        let mut cmd = repo.exec(self);
        if !present {
            cmd.arg("clone");
            cmd.arg("--bare");
            cmd.arg("--no-checkout");
            cmd.arg("--filter=blob:none");
            cmd.arg("--depth=1");
            cmd.arg("--");
            cmd.arg(origin.url());
            cmd.arg(repo.path.as_str());
        } else {
            cmd.arg("symbolic-ref");
            cmd.arg("HEAD");
        }
        (repo, cmd)
    }

    /// The store at `path` without any network: where nothing exists at
    /// `path` yet an empty store is made, otherwise what is there is probed.
    pub fn bare(&self, path: String, present: bool) -> (r: (ShallowBareRepository, Invocation))
        ensures
            r.0.path@ == path@,
            r.1@ == (if present {
                ShallowBareRepository::probe(path@, self.bin@)
            } else {
                ShallowBareRepository::init_plan(path@, self.bin@)
            }),
    {
        let repo = ShallowBareRepository { path };
        let mut cmd = repo.exec(self);
        if !present {
            cmd.arg("init");
            cmd.arg("--bare");
            cmd.arg("--");
            cmd.arg(repo.path.as_str());
        } else {
            cmd.arg("symbolic-ref");
            cmd.arg("HEAD");
        }
        (repo, cmd)
    }
}

} // verus!
