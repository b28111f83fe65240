//! Where the archive of the packs is kept once the pass is over.

use crate::path::join;
use crate::path::joined;
use crate::xtask::target::Target;
use crate::xtask::task::artifacts::PackedArtifacts;
use vstd::prelude::*;
use vstd::string::*;

verus! {

/// The copy that keeps an archive: the directory to make, the file to copy
/// and where to.
#[derive(Debug)]
pub struct ArtifactCopy {
    /// The directory to make, with those above it.
    pub directory: String,
    /// The file to copy.
    pub from: String,
    /// Where the copy goes.
    pub to: String,
}

/// The file name of the archive of the packs for a target: that of its
/// packaged source tree, with the extension `xtest-data`.
pub open spec fn artifact_name(name: Seq<char>, version: Seq<char>) -> Seq<char> {
    name + "-"@ + version + ".xtest-data"@
}

/// The file name of the archive of the packs for `target`.
pub fn artifact_file_name(target: &Target) -> (name: String)
    ensures
        name@ == artifact_name(target@.name, target@.version),
{
    target.expected_dir_name().concat(".xtest-data")
}

/// The copy that keeps the archive `packed` for `target` in the directory
/// `target_dir`.
pub fn write_artifacts(target_dir: &str, target: &Target, packed: &PackedArtifacts) -> (copy:
    ArtifactCopy)
    ensures
        copy.directory@ == target_dir@,
        copy.from@ == packed.path@,
        copy.to@ == joined(target_dir@, artifact_name(target@.name, target@.version)),
{
    let name = artifact_file_name(target);
    ArtifactCopy {
        directory: String::from_str(target_dir),
        from: packed.path.clone(),
        to: join(target_dir, name.as_str()),
    }
}

/// The text of the manifest that keeps an unpacked source tree from being
/// taken into a workspace around it: a workspace whose only member is the
/// directory that the source tree unpacks to.
pub open spec fn boundary_manifest(dir_name: Seq<char>) -> Seq<char> {
    "\n[workspace]\nmembers = [\""@ + dir_name + "\"]\n"@
}

/// The text of the manifest that stands beside the unpacked source tree of
/// `target`.
pub fn workspace_boundary(target: &Target) -> (text: String)
    ensures
        text@ == boundary_manifest(target@.name + "-"@ + target@.version),
{
    String::from_str("\n[workspace]\nmembers = [\"").concat(
        target.expected_dir_name().as_str(),
    ).concat("\"]\n")
}

/// Where a task keeps its temporary files.
#[derive(Debug)]
pub enum TmpDir {
    /// In the directory that the environment names.
    Given(String),
    /// In a fresh directory of its own under `parent`, whose name begins
    /// with `prefix`, and in which a file `Cargo.toml` with the text
    /// `manifest` is written first.
    Private { parent: String, prefix: String, manifest: String },
}

/// The mathematical value of a [`TmpDir`].
pub enum TmpDirView {
    Given(Seq<char>),
    Private { parent: Seq<char>, prefix: Seq<char>, manifest: Seq<char> },
}

impl View for TmpDir {
    type V = TmpDirView;

    open spec fn view(&self) -> TmpDirView {
        match self {
            TmpDir::Given(path) => TmpDirView::Given(path@),
            TmpDir::Private { parent, prefix, manifest } => TmpDirView::Private {
                parent: parent@,
                prefix: prefix@,
                manifest: manifest@,
            },
        }
    }
}

/// Where the tasks for `target` keep their temporary files: in the
/// directory that `TMPDIR` names where it is set, whose value is `tmpdir`;
/// otherwise in a directory of their own under `target`, kept apart from
/// any workspace around it.
pub fn mk_tmpdir(tmpdir: Option<String>, target: &Target) -> (dir: TmpDir)
    ensures
        dir@ == match tmpdir {
            Some(path) => TmpDirView::Given(path@),
            None => TmpDirView::Private {
                parent: "target"@,
                prefix: "xtest-data-"@,
                manifest: boundary_manifest(target@.name + "-"@ + target@.version),
            },
        },
{
    match tmpdir {
        Some(path) => TmpDir::Given(path),
        None => TmpDir::Private {
            parent: String::from_str("target"),
            prefix: String::from_str("xtest-data-"),
            manifest: workspace_boundary(target),
        },
    }
}

/// Where fetched packs are put: where the caller says, `output`, or else in
/// `target/xtest-data` under the name of the packaged source tree.
pub fn artifacts_location(target: &Target, output: Option<String>) -> (location: String)
    ensures
        location@ == match output {
            Some(path) => path@,
            None => joined(
                target@.name + "-"@ + target@.version + ".crate"@,
                "target/xtest-data"@,
            ),
        },
{
    match output {
        Some(path) => path,
        None => join(target.expected_crate_name().as_str(), "target/xtest-data"),
    }
}

} // verus!
