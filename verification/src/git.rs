//! The driver of the version control system: which `git` processes to run
//! for each operation, and how to read what they print.

use crate::error::Inconclusive;
use crate::error::InconclusiveView;
use crate::text::contains_char;
use crate::text::trim;
use crate::text::trimmed;
use vstd::prelude::*;
use vstd::string::*;

verus! {

/// How `git` repositories are accessed: the binary to run.
#[derive(Debug)]
pub struct Git {
    pub bin: String,
}

/// A bare object store kept by this library.
#[derive(Debug)]
pub struct ShallowBareRepository {
    pub path: String,
}

/// The working copy that holds the manifest of the package under test.
#[derive(Debug)]
pub struct CrateDir {
    pub path: String,
}

/// A remote locator, as the version control system accepts it.
#[derive(Debug)]
pub struct Origin {
    pub url: String,
}

/// An origin that may be fetched from. Only the consent gate makes one.
#[derive(Debug)]
pub struct ClearedOrigin {
    url: String,
}

/// The identity of one commit: opaque text of at least 40 characters, with
/// no white space around it.
#[derive(Debug)]
pub struct CommitId(String);

/// A path expression that selects files in the version control system.
#[derive(Debug)]
pub enum PathSpec {
    /// One path, from the top of the tree, taken literally.
    Path(String),
}

/// The mathematical value of a [`PathSpec`].
pub enum PathSpecView {
    Path(Seq<char>),
}

impl View for PathSpec {
    type V = PathSpecView;

    open spec fn view(&self) -> PathSpecView {
        match self {
            PathSpec::Path(path) => PathSpecView::Path(path@),
        }
    }
}

/// The values of a sequence of path expressions, in order.
pub open spec fn spec_views(paths: Seq<PathSpec>) -> Seq<PathSpecView> {
    paths.map_values(|p: PathSpec| p@)
}

/// The least number of characters of a commit identity.
pub const COMMIT_ID_MIN: usize = 40;

impl PathSpecView {
    /// The one path that holds everything the expression selects.
    pub open spec fn encompassing_path(self) -> Option<Seq<char>> {
        match self {
            PathSpecView::Path(path) => Some(path),
        }
    }

    /// The expression in the syntax of the version control system.
    pub open spec fn rendering(self) -> Seq<char> {
        match self {
            PathSpecView::Path(path) => ":(top,literal)"@ + path,
        }
    }

    /// Whether the expression can be given on a line of its own: it is one
    /// path without a line break or a NUL in it.
    pub open spec fn is_simple(self) -> bool {
        match self.encompassing_path() {
            Some(path) => !path.contains('\n') && !path.contains('\0'),
            None => false,
        }
    }
}

impl PathSpec {
    /// The one path that holds everything the expression selects, if there
    /// is one.
    pub fn as_encompassing_path(&self) -> (path: Option<&str>)
        ensures
            match path {
                Some(p) => self@.encompassing_path() == Some(p@),
                None => self@.encompassing_path() is None,
            },
    {
        match self {
            PathSpec::Path(path) => Some(path.as_str()),
        }
    }

    /// The expression in the syntax of the version control system.
    pub fn render(&self) -> (text: String)
        ensures
            text@ == self@.rendering(),
    {
        match self {
            PathSpec::Path(path) => String::from_str(":(top,literal)").concat(path.as_str()),
        }
    }

    /// Whether the expression can be given on a line of its own.
    pub fn is_simple(&self) -> (simple: bool)
        ensures
            simple == self@.is_simple(),
    {
        match self.as_encompassing_path() {
            Some(path) => !contains_char(path, '\n') && !contains_char(path, '\0'),
            None => false,
        }
    }

    /// A copy of the expression.
    pub fn duplicate(&self) -> (copy: PathSpec)
        ensures
            copy@ == self@,
    {
        match self {
            PathSpec::Path(path) => PathSpec::Path(path.clone()),
        }
    }
}

impl View for CommitId {
    type V = Seq<char>;

    closed spec fn view(&self) -> Seq<char> {
        self.0@
    }
}

impl CommitId {
    /// Whether `text` can stand for a commit once the white space around it
    /// is taken off.
    pub open spec fn acceptable(text: Seq<char>) -> bool {
        trimmed(text).len() >= COMMIT_ID_MIN
    }

    #[verifier::type_invariant]
    closed spec fn long_enough(self) -> bool {
        self.0@.len() >= COMMIT_ID_MIN
    }

    /// The identity that `st` holds, or `None` where fewer than 40
    /// characters are left after trimming.
    pub fn checked(st: &str) -> (id: Option<CommitId>)
        ensures
            id is Some <==> CommitId::acceptable(st@),
            id matches Some(c) ==> c@ == trimmed(st@),
    {
        let text = trim(st);
        if text.as_str().unicode_len() >= COMMIT_ID_MIN {
            Some(CommitId(text))
        } else {
            None
        }
    }

    /// The identity that `st` holds.
    pub fn from(st: &str) -> (id: CommitId)
        requires
            CommitId::acceptable(st@),
        ensures
            id@ == trimmed(st@),
    {
        let text = trim(st);
        let ghost len = text@.len();
        assert(len >= COMMIT_ID_MIN);
        CommitId(text)
    }

    /// The identity as text.
    pub fn as_ref(&self) -> (text: &str)
        ensures
            text@ == self@,
            text@.len() >= COMMIT_ID_MIN,
    {
        proof {
            use_type_invariant(self);
        }
        self.0.as_str()
    }

    /// A copy of the identity.
    pub fn duplicate(&self) -> (copy: CommitId)
        ensures
            copy@ == self@,
    {
        proof {
            use_type_invariant(self);
        }
        CommitId(self.0.clone())
    }
}

impl View for ClearedOrigin {
    type V = Seq<char>;

    closed spec fn view(&self) -> Seq<char> {
        self.url@
    }
}

impl ClearedOrigin {
    /// The locator to fetch from.
    pub fn url(&self) -> (url: &str)
        ensures
            url@ == self@,
    {
        self.url.as_str()
    }
}

/// Whether this value of the consent variable agrees to network access.
pub open spec fn is_consent(token: Option<Seq<char>>) -> bool {
    match token {
        Some(value) => value == "yes"@ || value == "1"@ || value == "true"@,
        None => false,
    }
}

/// The lines that say what resolving the resources from the network would do.
pub open spec fn consent_plan(
    gitpath: Seq<char>,
    datapath: Seq<char>,
    origin: Seq<char>,
    commit: Seq<char>,
    resources: Seq<Seq<char>>,
    pathspecs: Seq<PathSpecView>,
) -> Seq<Seq<char>> {
    seq![
        "These tests require additional data from a remote source."@,
        "Here is what we planned to do."@,
        "Set up bare Git dir in: "@ + gitpath,
        "Git Origin: "@ + origin,
        "Fetch Commit: "@ + commit,
        "Checkout files into: "@ + datapath,
    ] + Seq::new(
        if resources.len() <= pathspecs.len() {
            resources.len()
        } else {
            pathspecs.len()
        },
        |i: int| "  into "@ + resources[i] + ": "@ + pathspecs[i].rendering(),
    ) + seq!["Explicit consent can be given by setting CARGO_XTEST_DATA_FETCH=1"@]
}

/// The value of a variable of the environment as a sequence of characters.
pub open spec fn token_view(token: Option<&str>) -> Option<Seq<char>> {
    match token {
        Some(value) => Some(value@),
        None => None,
    }
}

/// Whether `value` is one of the three accepting values.
fn accepts(value: &str) -> (r: bool)
    ensures
        r == is_consent(Some(value@)),
{
    crate::text::same_text(value, "yes") || crate::text::same_text(value, "1")
        || crate::text::same_text(value, "true")
}

impl Git {
    /// Access through the binary at `bin`.
    pub fn new(bin: &str) -> (git: Git)
        ensures
            git.bin@ == bin@,
    {
        Git { bin: String::from_str(bin) }
    }

    /// The consent gate. `token` is the value of `CARGO_XTEST_DATA_FETCH`,
    /// `None` where it is not set. Exactly the values `yes`, `1` and `true`
    /// clear the origin; with any other the lines of the plan come back and
    /// nothing may be fetched.
    pub fn consent_to_use(
        &self,
        gitpath: &str,
        datapath: &str,
        origin: &Origin,
        commit: &CommitId,
        resources: &Vec<String>,
        pathspecs: &Vec<PathSpec>,
        token: Option<&str>,
    ) -> (r: Result<ClearedOrigin, Inconclusive>)
        ensures
            match r {
                Ok(cleared) => is_consent(token_view(token)) && cleared@ == origin.url@,
                Err(e) => !is_consent(token_view(token)) && e@ == InconclusiveView::ConsentDenied(
                    consent_plan(
                        gitpath@,
                        datapath@,
                        origin.url@,
                        commit@,
                        resources@.map_values(|s: String| s@),
                        spec_views(pathspecs@),
                    ),
                ),
            },
    {
        let agreed = match token {
            Some(value) => accepts(value),
            None => false,
        };
        if agreed {
            return Ok(ClearedOrigin { url: origin.url.clone() });
        }
        let mut plan: Vec<String> = Vec::new();
        plan.push(String::from_str("These tests require additional data from a remote source."));
        plan.push(String::from_str("Here is what we planned to do."));
        plan.push(String::from_str("Set up bare Git dir in: ").concat(gitpath));
        plan.push(String::from_str("Git Origin: ").concat(origin.url.as_str()));
        plan.push(String::from_str("Fetch Commit: ").concat(commit.as_ref()));
        plan.push(String::from_str("Checkout files into: ").concat(datapath));
        let count = if resources.len() <= pathspecs.len() {
            resources.len()
        } else {
            pathspecs.len()
        };
        let ghost expected = consent_plan(
            gitpath@,
            datapath@,
            origin.url@,
            commit@,
            resources@.map_values(|s: String| s@),
            spec_views(pathspecs@),
        );
        let mut i: usize = 0;
        while i < count
            invariant
                i <= count,
                count <= resources.len(),
                count <= pathspecs.len(),
                expected.len() == count + 7,
                plan.len() == 6 + i,
                forall|j: int| 0 <= j < 6 + i ==> (#[trigger] plan[j])@ == expected[j],
                expected == consent_plan(
                    gitpath@,
                    datapath@,
                    origin.url@,
                    commit@,
                    resources@.map_values(|s: String| s@),
                    spec_views(pathspecs@),
                ),
            decreases count - i,
        {
            let spec_text = pathspecs[i].render();
            let line = String::from_str("  into ").concat(resources[i].as_str()).concat(
                ": ",
            ).concat(spec_text.as_str());
            plan.push(line);
            i += 1;
        }
        plan.push(
            String::from_str("Explicit consent can be given by setting CARGO_XTEST_DATA_FETCH=1"),
        );
        assert(plan@.map_values(|s: String| s@) =~= expected);
        Err(Inconclusive::ConsentDenied(plan))
    }
}

} // verus!
