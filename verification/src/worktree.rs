//! Operations on the working copy of the package: the status queries and the
//! packing of the objects that the registered paths need.

use crate::error::Inconclusive;
use crate::error::InconclusiveView;
use crate::git::CommitId;
use crate::git::CrateDir;
use crate::git::Git;
use crate::git::PathSpec;
use crate::git::PathSpecView;
use crate::git::spec_views;
use crate::path::join;
use crate::path::joined;
use crate::process::Input;
use crate::process::InputView;
use crate::process::Invocation;
use crate::process::InvocationView;
use crate::process::Outcome;
use crate::process::Stream;
use crate::process::bare_invocation;
use crate::text::lossy_text;
use crate::text::text_from_utf8;
use crate::text::text_from_utf8_lossy;
use crate::text::trimmed;
use crate::text::utf8_error;
use vstd::prelude::*;
use vstd::string::*;
use vstd::utf8::decode_utf8;
use vstd::utf8::valid_utf8;

verus! {

/// The path expressions as the version control system reads them, in order.
pub open spec fn renderings(paths: Seq<PathSpecView>) -> Seq<Seq<char>> {
    paths.map_values(|p: PathSpecView| p.rendering())
}

/// Each path expression as the version control system reads it, followed by a
/// NUL.
pub open spec fn nul_terminated(paths: Seq<PathSpecView>) -> Seq<char>
    decreases paths.len(),
{
    if paths.len() == 0 {
        Seq::empty()
    } else {
        nul_terminated(paths.drop_last()) + paths.last().rendering() + seq!['\0']
    }
}

/// Whether a status record begins at position `i` of `text`: records are
/// separated by NUL.
pub open spec fn record_starts(text: Seq<char>, i: int) -> bool {
    0 <= i < text.len() && (i == 0 || text[i - 1] == '\0')
}

/// Whether the record that begins at `i` reports an ignored or an untracked
/// path.
pub open spec fn flagged(text: Seq<char>, i: int) -> bool {
    record_starts(text, i) && (text[i] == '!' || text[i] == '?')
}

/// Where the record that holds position `i` ends: at the next NUL, or at the
/// end of the text.
pub open spec fn record_end(text: Seq<char>, i: int) -> int
    decreases text.len() - i,
{
    if i < 0 || i >= text.len() || text[i] == '\0' {
        i
    } else {
        record_end(text, i + 1)
    }
}

/// What the flagged record at `i` amounts to.
pub open spec fn offence(text: Seq<char>, i: int) -> InconclusiveView {
    let record = text.subrange(i, record_end(text, i));
    if text[i] == '!' {
        InconclusiveView::Ignored(record)
    } else {
        InconclusiveView::Untracked(record)
    }
}

/// Where the first record begins that reports an ignored or an untracked
/// path.
pub open spec fn first_flagged(text: Seq<char>) -> int {
    choose|i: int| flagged(text, i) && forall|j: int| j < i ==> !flagged(text, j)
}

/// What the records of a status query amount to: the first record that
/// reports an ignored or an untracked path decides, and without one the
/// paths pass.
pub open spec fn status_failure(text: Seq<char>) -> Option<InconclusiveView> {
    if exists|i: int| flagged(text, i) {
        Some(offence(text, first_flagged(text)))
    } else {
        None
    }
}

/// What the answer of the status query amounts to: the query must have
/// succeeded and printed text, and no record may report an ignored or an
/// untracked path.
pub open spec fn tracked_failure(outcome: Outcome) -> Option<InconclusiveView> {
    if !outcome.success {
        Some(InconclusiveView::ProcessFailed(outcome.stderr@))
    } else if !valid_utf8(outcome.stdout@) {
        Some(InconclusiveView::Io(utf8_error(outcome.stdout@)))
    } else {
        status_failure(decode_utf8(outcome.stdout@))
    }
}

/// Whether `r` is the exec form of `expected`.
pub open spec fn verdict_matches(r: Result<(), Inconclusive>, expected: Option<InconclusiveView>)
    -> bool {
    match r {
        Ok(_) => expected is None,
        Err(e) => expected == Some(e@),
    }
}

/// Appends the rendering of each path expression to the arguments.
fn push_renderings(cmd: &mut Invocation, paths: &Vec<PathSpec>)
    ensures
        final(cmd)@ == old(cmd)@.args(renderings(spec_views(paths@))),
{
    let ghost all = renderings(spec_views(paths@));
    let mut i: usize = 0;
    while i < paths.len()
        invariant
            i <= paths.len(),
            all == renderings(spec_views(paths@)),
            cmd@ == old(cmd)@.args(all.take(i as int)),
        decreases paths.len() - i,
    {
        let text = paths[i].render();
        cmd.arg(text.as_str());
        proof {
            assert(all.take(i + 1) =~= all.take(i as int).push(all[i as int]));
            assert(old(cmd)@.args + all.take(i + 1) =~= (old(cmd)@.args + all.take(i as int)).push(
                all[i as int],
            ));
        }
        i += 1;
    }
    proof {
        assert(all.take(paths.len() as int) =~= all);
    }
}

/// The text that lists the path expressions, each followed by a NUL.
pub fn nul_terminated_list(paths: &Vec<PathSpec>) -> (text: String)
    ensures
        text@ == nul_terminated(spec_views(paths@)),
{
    let ghost all = spec_views(paths@);
    let mut text = String::new();
    let mut i: usize = 0;
    while i < paths.len()
        invariant
            i <= paths.len(),
            all == spec_views(paths@),
            text@ == nul_terminated(all.take(i as int)),
        decreases paths.len() - i,
    {
        let item = paths[i].render();
        proof {
            reveal_strlit("\0");
            assert("\0"@ =~= seq!['\0']);
            assert(all.take(i + 1).drop_last() =~= all.take(i as int));
        }
        text.append(item.as_str());
        text.append("\0");
        i += 1;
    }
    proof {
        assert(all.take(paths.len() as int) =~= all);
    }
    text
}

/// The end of the record that holds position `from`.
fn find_record_end(text: &str, from: usize) -> (end: usize)
    requires
        from <= text@.len(),
    ensures
        end == record_end(text@, from as int),
        from <= end <= text@.len(),
{
    let n = text.unicode_len();
    let mut end = from;
    while end < n && text.get_char(end) != '\0'
        invariant
            n == text@.len(),
            from <= end <= n,
            record_end(text@, from as int) == record_end(text@, end as int),
        decreases n - end,
    {
        end += 1;
    }
    end
}

/// Reads the records of a status query: the first record that reports an
/// ignored or an untracked path decides, and without one the paths pass.
pub fn scan_status(text: &str) -> (r: Result<(), Inconclusive>)
    ensures
        verdict_matches(r, status_failure(text@)),
{
    let n = text.unicode_len();
    let mut i: usize = 0;
    let mut at_start = true;
    while i < n
        invariant
            n == text@.len(),
            i <= n,
            at_start == (i == 0 || text@[i - 1] == '\0'),
            forall|j: int| j < i ==> !flagged(text@, j),
        decreases n - i,
    {
        let c = text.get_char(i);
        if at_start && (c == '!' || c == '?') {
            let end = find_record_end(text, i);
            let record = String::from_str(text.substring_char(i, end));
            proof {
                let at = i as int;
                assert(flagged(text@, at) && forall|j: int| j < at ==> !flagged(text@, j));
                assert(first_flagged(text@) == at);
            }
            if c == '!' {
                return Err(Inconclusive::Ignored(record));
            } else {
                return Err(Inconclusive::Untracked(record));
            }
        }
        at_start = c == '\0';
        i += 1;
    }
    Ok(())
}

impl CrateDir {
    /// The process that every operation on the working copy starts from: the
    /// binary, run in the working copy, with nothing of its output kept.
    pub open spec fn base(path: Seq<char>, bin: Seq<char>) -> InvocationView {
        bare_invocation(bin).current_dir(path).stdout(Stream::Null).stderr(
            Stream::Null,
        )
    }

    /// The query that tells whether the directory is a working copy.
    pub open spec fn probe(path: Seq<char>, bin: Seq<char>) -> InvocationView {
        Self::base(path, bin).arg("status"@).arg("--short"@)
    }

    /// The status query for the given path expressions.
    pub open spec fn status_query(path: Seq<char>, bin: Seq<char>, paths: Seq<PathSpecView>)
        -> InvocationView {
        Self::base(path, bin).stdout(Stream::Piped).arg("status"@).arg("--no-renames"@).arg(
            "--ignored=matching"@,
        ).arg("--porcelain=v2"@).arg("--short"@).arg("-z"@).arg("--"@).args(renderings(paths))
    }

    /// The query that stores the list of path expressions as an object and
    /// prints its identity.
    pub open spec fn hash_query(path: Seq<char>, bin: Seq<char>, paths: Seq<PathSpecView>)
        -> InvocationView {
        Self::base(path, bin).arg("hash-object"@).arg("-w"@).arg("--stdin"@).input(
            InputView::Text(nul_terminated(paths)),
        ).stdout(Stream::Piped).stderr(Stream::Piped)
    }

    /// The query that lists the objects of the head commit under a filter.
    pub open spec fn list_query(path: Seq<char>, bin: Seq<char>, filterspec: Seq<char>)
        -> InvocationView {
        Self::base(path, bin).arg("rev-list"@).arg("-n"@).arg("1"@).arg("--objects"@).arg(
            "--no-object-names"@,
        ).arg(filterspec).arg("HEAD"@).stdout(Stream::Piped).stderr(Stream::Piped)
    }

    /// The process that packs the listed objects under `pack_name`.
    pub open spec fn pack_query(
        path: Seq<char>,
        bin: Seq<char>,
        pack_name: Seq<char>,
        objects: Seq<u8>,
    ) -> InvocationView {
        Self::base(path, bin).arg("pack-objects"@).arg("--incremental"@).arg(
            joined(pack_name, "xtest-data"@),
        ).input(InputView::Bytes(objects)).stderr(Stream::Piped)
    }

    /// The working copy at `path`, with the query that must succeed for it to
    /// be one.
    pub fn new(path: &str, git: &Git) -> (r: (CrateDir, Invocation))
        ensures
            r.0.path@ == path@,
            r.1@ == CrateDir::probe(path@, git.bin@),
    {
        let dir = CrateDir { path: String::from_str(path) };
        let mut cmd = dir.exec(git);
        cmd.arg("status");
        cmd.arg("--short");
        (dir, cmd)
    }

    /// The process that every operation on the working copy starts from.
    pub fn exec(&self, git: &Git) -> (cmd: Invocation)
        ensures
            cmd@ == CrateDir::base(self.path@, git.bin@),
    {
        let mut cmd = Invocation::new(git.bin.as_str());
        cmd.current_dir(self.path.as_str());
        cmd.stdout(Stream::Null);
        cmd.stderr(Stream::Null);
        cmd
    }

    /// The status query that tells whether the paths are tracked; none where
    /// there is no path to ask about.
    pub fn tracked_query(&self, git: &Git, paths: &Vec<PathSpec>) -> (query: Option<Invocation>)
        ensures
            match query {
                Some(cmd) => paths.len() > 0 && cmd@ == CrateDir::status_query(
                    self.path@,
                    git.bin@,
                    spec_views(paths@),
                ),
                None => paths.len() == 0,
            },
    {
        if paths.len() == 0 {
            return None;
        }
        let mut cmd = self.exec(git);
        cmd.stdout(Stream::Piped);
        cmd.arg("status");
        cmd.arg("--no-renames");
        cmd.arg("--ignored=matching");
        cmd.arg("--porcelain=v2");
        cmd.arg("--short");
        cmd.arg("-z");
        cmd.arg("--");
        push_renderings(&mut cmd, paths);
        Some(cmd)
    }

    /// The query that stores the list of path expressions as an object.
    pub fn hash_sparse_oid(&self, git: &Git, paths: &Vec<PathSpec>) -> (cmd: Invocation)
        ensures
            cmd@ == CrateDir::hash_query(self.path@, git.bin@, spec_views(paths@)),
    {
        let mut cmd = self.exec(git);
        cmd.arg("hash-object");
        cmd.arg("-w");
        cmd.arg("--stdin");
        cmd.input(Input::Text(nul_terminated_list(paths)));
        cmd.stdout(Stream::Piped);
        cmd.stderr(Stream::Piped);
        cmd
    }

    /// The query that lists the objects of the head commit under a filter.
    pub fn list_for(&self, git: &Git, filterspec: &str) -> (cmd: Invocation)
        ensures
            cmd@ == CrateDir::list_query(self.path@, git.bin@, filterspec@),
    {
        let mut cmd = self.exec(git);
        cmd.arg("rev-list");
        cmd.arg("-n");
        cmd.arg("1");
        cmd.arg("--objects");
        cmd.arg("--no-object-names");
        cmd.arg(filterspec);
        cmd.arg("HEAD");
        cmd.stdout(Stream::Piped);
        cmd.stderr(Stream::Piped);
        cmd
    }

    /// The two listings whose objects are packed: those that the stored list
    /// `oid` selects, and the trees without any blob.
    pub fn sparse_rev_list(&self, git: &Git, oid: &CommitId) -> (r: (Invocation, Invocation))
        ensures
            r.0@ == CrateDir::list_query(self.path@, git.bin@, "--filter=sparse:oid="@ + oid@),
            r.1@ == CrateDir::list_query(self.path@, git.bin@, "--filter=blob:none"@),
    {
        let filter = String::from_str("--filter=sparse:oid=").concat(oid.as_ref());
        (self.list_for(git, filter.as_str()), self.list_for(git, "--filter=blob:none"))
    }

    /// The process that packs `objects` into the directory `pack_name`.
    pub fn pack_objects(&self, git: &Git, pack_name: &str, objects: Vec<u8>) -> (cmd: Invocation)
        ensures
            cmd@ == CrateDir::pack_query(self.path@, git.bin@, pack_name@, objects@),
    {
        let mut cmd = self.exec(git);
        cmd.arg("pack-objects");
        cmd.arg("--incremental");
        let target = join(pack_name, "xtest-data");
        cmd.arg(target.as_str());
        cmd.input(Input::Bytes(objects));
        cmd.stderr(Stream::Piped);
        cmd
    }
}

/// What a process that must succeed amounts to: its captured error stream
/// stands for the failure.
pub open spec fn demanded(outcome: Outcome) -> Option<InconclusiveView> {
    if outcome.success {
        None
    } else {
        Some(InconclusiveView::ProcessFailed(outcome.stderr@))
    }
}

/// Holds a finished process to having succeeded.
pub fn demand_success(outcome: &Outcome) -> (r: Result<(), Inconclusive>)
    ensures
        match r {
            Ok(_) => demanded(*outcome) is None,
            Err(e) => demanded(*outcome) == Some(e@),
        },
{
    if outcome.success {
        Ok(())
    } else {
        Err(Inconclusive::ProcessFailed(outcome.stderr.clone()))
    }
}

/// Reads the answer of the status query: the query must have succeeded and
/// printed text, and no record of it may report an ignored or untracked path.
pub fn tracked_verdict(outcome: &Outcome) -> (r: Result<(), Inconclusive>)
    ensures
        verdict_matches(r, tracked_failure(*outcome)),
{
    match demand_success(outcome) {
        Err(e) => { return Err(e); },
        Ok(_) => {},
    }
    match text_from_utf8(outcome.stdout.as_slice()) {
        Err(why) => Err(Inconclusive::Io(why)),
        Ok(text) => scan_status(text.as_str()),
    }
}

/// The identity that the hashing query printed, or why there is none.
pub open spec fn hashed_oid(outcome: Outcome) -> Result<Seq<char>, InconclusiveView> {
    if !outcome.success {
        Err(InconclusiveView::ProcessFailed(outcome.stderr@))
    } else if !CommitId::acceptable(lossy_text(outcome.stdout@)) {
        Err(InconclusiveView::UnsafeCommitId(trimmed(lossy_text(outcome.stdout@))))
    } else {
        Ok(trimmed(lossy_text(outcome.stdout@)))
    }
}

/// Reads the identity that the hashing query printed.
pub fn sparse_oid(outcome: &Outcome) -> (r: Result<CommitId, Inconclusive>)
    ensures
        match r {
            Ok(id) => hashed_oid(*outcome) == Ok::<Seq<char>, InconclusiveView>(id@),
            Err(e) => hashed_oid(*outcome) == Err::<Seq<char>, InconclusiveView>(e@),
        },
{
    match demand_success(outcome) {
        Err(e) => { return Err(e); },
        Ok(_) => {},
    }
    let text = text_from_utf8_lossy(outcome.stdout.as_slice());
    match CommitId::checked(text.as_str()) {
        Some(id) => Ok(id),
        None => Err(Inconclusive::UnsafeCommitId(crate::text::trim(text.as_str()))),
    }
}

/// The listing of the selected objects followed by the listing of the trees.
pub fn packed_objects(selected: Vec<u8>, trees: &Vec<u8>) -> (objects: Vec<u8>)
    ensures
        objects@ == selected@ + trees@,
{
    let mut objects = selected;
    let mut i: usize = 0;
    while i < trees.len()
        invariant
            i <= trees.len(),
            objects@ == selected@ + trees@.take(i as int),
        decreases trees.len() - i,
    {
        objects.push(trees[i]);
        assert(trees@.take(i + 1) =~= trees@.take(i as int).push(trees@[i as int]));
        i += 1;
    }
    assert(trees@.take(trees.len() as int) =~= trees@);
    objects
}

} // verus!
