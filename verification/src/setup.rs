//! The registry of test resources and the detection of the mode to resolve
//! them in: from the working copy, or from a packaged source tree.

use crate::error::Inconclusive;
use crate::error::InconclusiveView;
use crate::git::CommitId;
use crate::git::Git;
use crate::git::PathSpec;
use crate::git::PathSpecView;
use crate::git::spec_views;
use crate::path::join;
use crate::path::joined;
use crate::pin::pinned_commit;
use crate::pin::read_pin;
use vstd::prelude::*;
use vstd::string::*;

verus! {

/// A file or tree that was registered with [`Setup::add`]: the key under
/// which [`FsData`] keeps its path.
#[derive(Debug)]
pub struct Files {
    key: usize,
}

impl Files {
    /// The position of the entry among those registered.
    pub closed spec fn index(self) -> int {
        self.key as int
    }
}

/// A resource whose path the registry owns.
#[derive(Debug)]
pub enum Managed {
    /// A file or a tree of files, by its path relative to the manifest.
    Files(String),
}

impl View for Managed {
    type V = Seq<char>;

    open spec fn view(&self) -> Seq<char> {
        match self {
            Managed::Files(path) => path@,
        }
    }
}

impl Managed {
    /// The path as it was registered.
    pub fn as_path(&self) -> (path: &str)
        ensures
            path@ == self@,
    {
        match self {
            Managed::Files(path) => path.as_str(),
        }
    }

    /// The path expression that selects the resource.
    pub fn as_path_spec(&self) -> (spec: PathSpec)
        ensures
            spec@ == PathSpecView::Path(self@),
    {
        match self {
            Managed::Files(path) => PathSpec::Path(path.clone()),
        }
    }
}

/// The text of each item, where there is one.
pub open spec fn text_of(item: Option<String>) -> Option<Seq<char>> {
    match item {
        Some(text) => Some(text@),
        None => None,
    }
}

/// The texts of a sequence of strings, in order.
pub open spec fn texts_of(items: Seq<String>) -> Seq<Seq<char>> {
    items.map_values(|s: String| s@)
}

/// The resources registered so far. Nothing is ever taken out, so a key stays
/// good.
#[derive(Debug)]
pub struct Resources {
    /// The files and trees that the registry owns, in the order of their keys.
    pub relative_files: Vec<Managed>,
    /// The paths that are rewritten in place for the caller, in the order in
    /// which they were handed in.
    pub unmanaged: Vec<String>,
}

impl Resources {
    /// The owned paths, in the order of their keys.
    pub open spec fn managed(self) -> Seq<Seq<char>> {
        self.relative_files@.map_values(|m: Managed| m@)
    }

    /// The borrowed paths, in order.
    pub open spec fn borrowed(self) -> Seq<Seq<char>> {
        texts_of(self.unmanaged@)
    }

    /// Every registered path: the owned ones, then the borrowed ones.
    pub open spec fn paths(self) -> Seq<Seq<char>> {
        self.managed() + self.borrowed()
    }

    /// The path expression for every registered path, in the same order.
    pub open spec fn specs(self) -> Seq<PathSpecView> {
        self.paths().map_values(|p: Seq<char>| PathSpecView::Path(p))
    }

    /// A registry that holds nothing.
    pub fn new() -> (resources: Resources)
        ensures
            resources.managed().len() == 0,
            resources.borrowed().len() == 0,
    {
        Resources { relative_files: Vec::new(), unmanaged: Vec::new() }
    }

    /// Every registered path: the owned ones, then the borrowed ones.
    pub fn as_paths(&self) -> (paths: Vec<String>)
        ensures
            texts_of(paths@) == self.paths(),
    {
        let mut paths: Vec<String> = Vec::new();
        let mut i: usize = 0;
        while i < self.relative_files.len()
            invariant
                i <= self.relative_files.len(),
                paths.len() == i,
                forall|j: int| 0 <= j < i ==> (#[trigger] paths@[j])@ == self.relative_files@[j]@,
            decreases self.relative_files.len() - i,
        {
            paths.push(String::from_str(self.relative_files[i].as_path()));
            i += 1;
        }
        let n = self.relative_files.len();
        let mut k: usize = 0;
        while k < self.unmanaged.len()
            invariant
                k <= self.unmanaged.len(),
                n == self.relative_files.len(),
                paths.len() == n + k,
                forall|j: int| 0 <= j < n ==> (#[trigger] paths@[j])@ == self.relative_files@[j]@,
                forall|j: int| 0 <= j < k ==> (#[trigger] paths@[n + j])@ == self.unmanaged@[j]@,
            decreases self.unmanaged.len() - k,
        {
            paths.push(self.unmanaged[k].clone());
            k += 1;
        }
        proof {
            let expected = self.paths();
            assert forall|j: int| 0 <= j < paths.len() implies texts_of(paths@)[j]
                == expected[j] by {
                if j >= n {
                    let d = j - n;
                    assert(paths@[n + d]@ == self.unmanaged@[d]@);
                }
            }
            assert(texts_of(paths@) =~= expected);
        }
        paths
    }

    /// The path expression for every registered path, in the same order.
    pub fn path_specs(&self) -> (specs: Vec<PathSpec>)
        ensures
            spec_views(specs@) == self.specs(),
    {
        let paths = self.as_paths();
        let mut specs: Vec<PathSpec> = Vec::new();
        let mut i: usize = 0;
        while i < paths.len()
            invariant
                i <= paths.len(),
                specs.len() == i,
                forall|j: int| 0 <= j < i ==> (#[trigger] specs@[j])@ == PathSpecView::Path(
                    paths@[j]@,
                ),
            decreases paths.len() - i,
        {
            specs.push(PathSpec::Path(paths[i].clone()));
            i += 1;
        }
        proof {
            assert forall|j: int| 0 <= j < specs.len() implies spec_views(specs@)[j]
                == self.specs()[j] by {
                assert(texts_of(paths@)[j] == paths@[j]@);
            }
            assert(spec_views(specs@) =~= self.specs());
        }
        specs
    }

    /// Places every registered path under `root`.
    pub fn resolve(&self, root: &str) -> (data: FsData)
        ensures
            data.paths() == self.managed().map_values(|p: Seq<char>| joined(root@, p)),
            data.rewritten_paths() == self.borrowed().map_values(|p: Seq<char>| joined(root@, p)),
    {
        let mut map: Vec<String> = Vec::new();
        let mut i: usize = 0;
        while i < self.relative_files.len()
            invariant
                i <= self.relative_files.len(),
                map.len() == i,
                forall|j: int| 0 <= j < i ==> (#[trigger] map@[j])@ == joined(
                    root@,
                    self.relative_files@[j]@,
                ),
            decreases self.relative_files.len() - i,
        {
            map.push(join(root, self.relative_files[i].as_path()));
            i += 1;
        }
        let mut rewritten: Vec<String> = Vec::new();
        let mut k: usize = 0;
        while k < self.unmanaged.len()
            invariant
                k <= self.unmanaged.len(),
                rewritten.len() == k,
                forall|j: int| 0 <= j < k ==> (#[trigger] rewritten@[j])@ == joined(
                    root@,
                    self.unmanaged@[j]@,
                ),
            decreases self.unmanaged.len() - k,
        {
            rewritten.push(join(root, self.unmanaged[k].as_str()));
            k += 1;
        }
        let data = FsData { map, rewritten };
        proof {
            assert(data.paths() =~= self.managed().map_values(|p: Seq<char>| joined(root@, p)));
            assert(data.rewritten_paths() =~= self.borrowed().map_values(
                |p: Seq<char>| joined(root@, p),
            ));
        }
        data
    }
}

/// The resolved resources: where each registered path is found on disk.
#[derive(Debug)]
pub struct FsData {
    /// The path of each owned resource, by key.
    map: Vec<String>,
    /// The new value of each borrowed path, in the order in which they were
    /// handed in.
    rewritten: Vec<String>,
}

impl FsData {
    /// The resolved path of each owned resource, by key.
    pub closed spec fn paths(self) -> Seq<Seq<char>> {
        texts_of(self.map@)
    }

    /// The new value of each borrowed path, in order.
    pub closed spec fn rewritten_paths(self) -> Seq<Seq<char>> {
        texts_of(self.rewritten@)
    }

    /// Whether `file` is a key of this data.
    pub open spec fn holds(self, file: Files) -> bool {
        0 <= file.index() < self.paths().len()
    }

    /// The resolved path of a registered file or tree.
    pub fn path(&self, file: &Files) -> (path: &str)
        requires
            self.holds(*file),
        ensures
            path@ == self.paths()[file.index()],
    {
        self.map[file.key].as_str()
    }

    /// The resolved path of a registered file or tree, or `None` for a key
    /// that this data does not hold.
    pub fn get(&self, file: &Files) -> (path: Option<&str>)
        ensures
            match path {
                Some(p) => self.holds(*file) && p@ == self.paths()[file.index()],
                None => !self.holds(*file),
            },
    {
        if file.key < self.map.len() {
            Some(self.map[file.key].as_str())
        } else {
            None
        }
    }

    /// The number of owned resources.
    pub fn len(&self) -> (n: usize)
        ensures
            n == self.paths().len(),
    {
        self.map.len()
    }

    /// The new values of the borrowed paths, in the order in which they were
    /// handed in.
    pub fn rewritten(&self) -> (paths: &Vec<String>)
        ensures
            texts_of(paths@) == self.rewritten_paths(),
    {
        &self.rewritten
    }
}

/// Where the data comes from.
#[derive(Debug)]
pub enum Source {
    /// From the repository of the package, at one commit.
    VcsFromManifest {
        /// The commit that the pin file names.
        commit_id: CommitId,
        /// How the repository is accessed.
        git: Git,
        /// The directory that holds the object store and the work trees.
        datadir: String,
    },
    /// From the working copy around the manifest.
    Local(Git),
}

/// The mathematical value of a [`Source`].
pub enum SourceView {
    VcsFromManifest { commit_id: Seq<char>, git: Seq<char>, datadir: Seq<char> },
    Local(Seq<char>),
}

impl View for Source {
    type V = SourceView;

    open spec fn view(&self) -> SourceView {
        match self {
            Source::VcsFromManifest { commit_id, git, datadir } => SourceView::VcsFromManifest {
                commit_id: commit_id@,
                git: git.bin@,
                datadir: datadir@,
            },
            Source::Local(git) => SourceView::Local(git.bin@),
        }
    }
}

/// What the package that asks for its test data was compiled with.
#[derive(Debug)]
pub struct EnvOptions {
    /// The repository that the manifest names.
    pub pkg_repository: String,
    /// The directory of the manifest.
    pub manifest_dir: String,
    /// The directory that the test harness offers for temporary files.
    pub target_tmpdir: Option<String>,
}

/// What was found at run time, read once.
#[derive(Debug)]
pub struct Environment {
    /// The value of `CARGO_XTEST_DATA_REPOSITORY_ORIGIN`.
    pub origin_override: Option<String>,
    /// The text of `.cargo_vcs_info.json` in the manifest directory, where the
    /// file exists.
    pub pin: Option<String>,
    /// The binary of the version control system, or why none was found.
    pub git: Result<String, String>,
    /// The value of `CARGO_XTEST_DATA_TMPDIR`.
    pub data_tmpdir: Option<String>,
    /// The value of `TMPDIR`.
    pub tmpdir: Option<String>,
    /// The value of `CARGO_XTEST_DATA_PACK_OBJECTS`.
    pub pack_objects: Option<String>,
    /// The value of `CARGO_XTEST_DATA_FETCH`.
    pub fetch: Option<String>,
}

/// A builder that collects the paths of the test data and then resolves them.
/// Only [`_setup`] makes one, so the commit of a builder is the pinned one.
#[derive(Debug)]
pub struct Setup {
    repository: String,
    manifest: String,
    source: Source,
    resources: Resources,
    pack_objects: Option<String>,
    fetch: Option<String>,
}

/// The mathematical value of a [`Setup`].
pub struct SetupView {
    pub repository: Seq<char>,
    pub manifest: Seq<char>,
    pub source: SourceView,
    pub managed: Seq<Seq<char>>,
    pub borrowed: Seq<Seq<char>>,
    pub pack_objects: Option<Seq<char>>,
    pub fetch: Option<Seq<char>>,
}

impl View for Setup {
    type V = SetupView;

    closed spec fn view(&self) -> SetupView {
        SetupView {
            repository: self.repository@,
            manifest: self.manifest@,
            source: self.source@,
            managed: self.resources.managed(),
            borrowed: self.resources.borrowed(),
            pack_objects: text_of(self.pack_objects),
            fetch: text_of(self.fetch),
        }
    }
}

/// Where the pin file of a packaged source tree stands.
pub open spec fn pin_path(manifest: Seq<char>) -> Seq<char> {
    joined(manifest, ".cargo_vcs_info.json"@)
}

/// Where the pin file stands for the manifest directory `manifest`. A
/// source tree that has the file was unpacked from a package.
pub fn vcs_info_path(manifest: &str) -> (path: String)
    ensures
        path@ == pin_path(manifest@),
{
    join(manifest, ".cargo_vcs_info.json")
}

/// The directory for the object store: the one the test harness offers, else
/// the one that `CARGO_XTEST_DATA_TMPDIR` names, else `TMPDIR`.
pub open spec fn data_dir(options: EnvOptions, env: Environment) -> Option<Seq<char>> {
    match options.target_tmpdir {
        Some(dir) => Some(dir@),
        None => match env.data_tmpdir {
            Some(dir) => Some(dir@),
            None => text_of(env.tmpdir),
        },
    }
}

/// The locator of the repository in effect: the override where one is set.
pub open spec fn origin_in_effect(options: EnvOptions, env: Environment) -> Seq<char> {
    match env.origin_override {
        Some(origin) => origin@,
        None => options.pkg_repository@,
    }
}

/// Where the data comes from. With a pin file the package was unpacked from
/// a distribution: the pin must name a commit, a directory for the object
/// store must be at hand, and the binary must have been found, in this order.
/// Without one the package stands in its working copy, and only the binary is
/// needed.
pub open spec fn detected_source(options: EnvOptions, env: Environment) -> Result<
    SourceView,
    InconclusiveView,
> {
    match env.pin {
        Some(text) => match pinned_commit(text@) {
            Err(e) => Err(e),
            Ok(commit_id) => match data_dir(options, env) {
                None => Err(InconclusiveView::NoDataDir),
                Some(datadir) => match env.git {
                    Err(why) => Err(InconclusiveView::NoVcs(why@)),
                    Ok(git) => Ok(SourceView::VcsFromManifest { commit_id, git: git@, datadir }),
                },
            },
        },
        None => match env.git {
            Err(why) => Err(InconclusiveView::NoVcs(why@)),
            Ok(git) => Ok(SourceView::Local(git@)),
        },
    }
}

/// The builder that the options and the environment lead to, or why there is
/// none.
pub open spec fn detected(options: EnvOptions, env: Environment) -> Result<
    SetupView,
    InconclusiveView,
> {
    if options.pkg_repository@.len() == 0 {
        Err(InconclusiveView::MissingRepository)
    } else {
        match detected_source(options, env) {
            Err(e) => Err(e),
            Ok(source) => if origin_in_effect(options, env).len() == 0 {
                Err(InconclusiveView::InvalidRepository)
            } else {
                Ok(
                    SetupView {
                        repository: origin_in_effect(options, env),
                        manifest: options.manifest_dir@,
                        source,
                        managed: Seq::empty(),
                        borrowed: Seq::empty(),
                        pack_objects: text_of(env.pack_objects),
                        fetch: text_of(env.fetch),
                    },
                )
            },
        }
    }
}

/// Whether `r` is the exec form of `expected`.
pub open spec fn setup_matches(
    r: Result<Setup, Inconclusive>,
    expected: Result<SetupView, InconclusiveView>,
) -> bool {
    match r {
        Ok(setup) => expected == Ok::<SetupView, InconclusiveView>(setup@),
        Err(e) => expected == Err::<SetupView, InconclusiveView>(e@),
    }
}

/// Detects the mode and makes the builder.
pub fn _setup(options: EnvOptions, env: Environment) -> (r: Result<Setup, Inconclusive>)
    ensures
        setup_matches(r, detected(options, env)),
{
    let EnvOptions { pkg_repository, manifest_dir, target_tmpdir } = options;
    let Environment { origin_override, pin, git, data_tmpdir, tmpdir, pack_objects, fetch } = env;
    if pkg_repository.as_str().unicode_len() == 0 {
        return Err(Inconclusive::MissingRepository);
    }
    let repository = match origin_override {
        Some(origin) => origin,
        None => pkg_repository,
    };
    let source = match pin {
        Some(text) => {
            let commit_id = match read_pin(text.as_str()) {
                Ok(id) => id,
                Err(e) => { return Err(e); },
            };
            let datadir = match target_tmpdir {
                Some(dir) => dir,
                None => match data_tmpdir {
                    Some(dir) => dir,
                    None => match tmpdir {
                        Some(dir) => dir,
                        None => { return Err(Inconclusive::NoDataDir); },
                    },
                },
            };
            let git = match git {
                Ok(bin) => Git { bin },
                Err(why) => { return Err(Inconclusive::NoVcs(why)); },
            };
            Source::VcsFromManifest { commit_id, git, datadir }
        },
        None => {
            let git = match git {
                Ok(bin) => Git { bin },
                Err(why) => { return Err(Inconclusive::NoVcs(why)); },
            };
            Source::Local(git)
        },
    };
    if repository.as_str().unicode_len() == 0 {
        return Err(Inconclusive::InvalidRepository);
    }
    let setup = Setup {
        repository,
        manifest: manifest_dir,
        source,
        resources: Resources::new(),
        pack_objects,
        fetch,
    };
    proof {
        assert(setup@.managed =~= Seq::empty());
        assert(setup@.borrowed =~= Seq::empty());
    }
    Ok(setup)
}

impl Setup {
    /// The locator of the repository in effect.
    pub fn repository(&self) -> (repository: &str)
        ensures
            repository@ == self@.repository,
    {
        self.repository.as_str()
    }

    /// The directory of the manifest.
    pub fn manifest(&self) -> (manifest: &str)
        ensures
            manifest@ == self@.manifest,
    {
        self.manifest.as_str()
    }

    /// Where the data comes from.
    pub fn source(&self) -> (source: &Source)
        ensures
            source@ == self@.source,
    {
        &self.source
    }

    /// What was registered so far.
    pub fn resources(&self) -> (resources: &Resources)
        ensures
            resources.managed() == self@.managed,
            resources.borrowed() == self@.borrowed,
    {
        &self.resources
    }

    /// The directory of packs: where they are written in a working copy,
    /// where they are shipped with a packaged source tree.
    pub fn pack_objects(&self) -> (dir: Option<&str>)
        ensures
            match dir {
                Some(path) => self@.pack_objects == Some(path@),
                None => self@.pack_objects is None,
            },
    {
        match &self.pack_objects {
            Some(path) => Some(path.as_str()),
            None => None,
        }
    }

    /// The value of the consent variable as it was read.
    pub fn fetch(&self) -> (token: Option<&str>)
        ensures
            match token {
                Some(value) => self@.fetch == Some(value@),
                None => self@.fetch is None,
            },
    {
        match &self.fetch {
            Some(value) => Some(value.as_str()),
            None => None,
        }
    }

    /// Registers paths that are rewritten for the caller: once resolved,
    /// [`FsData::rewritten`] gives the new value of each, in this order and
    /// after those registered before.
    pub fn rewrite(self, paths: Vec<String>) -> (setup: Setup)
        ensures
            setup@ == (SetupView { borrowed: self@.borrowed + texts_of(paths@), ..self@ }),
    {
        let mut this = self;
        let mut paths = paths;
        let ghost before = this@.borrowed;
        let ghost added = texts_of(paths@);
        this.resources.unmanaged.append(&mut paths);
        proof {
            assert(this@.borrowed =~= before + added);
        }
        this
    }

    /// Registers the path of a file or a tree of files and hands out its key.
    /// Any path is taken: whether it can be resolved shows when the builder
    /// is built.
    pub fn add(&mut self, path: &str) -> (file: Files)
        ensures
            file.index() == old(self)@.managed.len(),
            final(self)@ == (SetupView { managed: old(self)@.managed.push(path@), ..old(self)@ }),
    {
        let item = Managed::Files(String::from_str(path));
        let key = self.resources.relative_files.len();
        self.resources.relative_files.push(item);
        proof {
            assert(self@.managed =~= old(self)@.managed.push(path@));
        }
        Files { key }
    }
}

/// With a pin file that records an identity of fewer than 40 characters no
/// builder is made: the setup is inconclusive.
pub proof fn lemma_short_pin_stops_setup(options: EnvOptions, env: Environment, sha1: Seq<char>)
    requires
        options.pkg_repository@.len() > 0,
        env.pin matches Some(text) && crate::pin::recorded_sha1(text@) == Some(sha1),
        sha1.len() < crate::git::COMMIT_ID_MIN,
    ensures
        detected(options, env) == Err::<SetupView, InconclusiveView>(
            InconclusiveView::UnsafeCommitId(crate::text::trimmed(sha1)),
        ),
{
    crate::pin::lemma_short_sha1_is_refused(env.pin->Some_0@, sha1);
}

/// The commit of a builder for a packaged source tree is the one that the
/// pin file records, and nothing else: neither the repository nor any other
/// part of the environment has a say in it.
pub proof fn lemma_commit_is_the_pinned_one(options: EnvOptions, env: Environment)
    requires
        detected(options, env) matches Ok(setup) && setup.source is VcsFromManifest,
    ensures
        env.pin matches Some(text) && pinned_commit(text@) == Ok::<Seq<char>, InconclusiveView>(
            detected(options, env)->Ok_0.source->commit_id,
        ),
{
}

} // verus!
