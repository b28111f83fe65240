//! The configuration of a target, read from its manifest.

use crate::path::directory;
use crate::path::directory_of;
use crate::path::join;
use crate::path::joined;
use crate::text::text_from_utf8;
use crate::text::utf8_error;
use crate::xtask::template::render;
use crate::xtask::template::rendered;
use vstd::prelude::*;
use vstd::string::*;
use vstd::utf8::decode_utf8;
use vstd::utf8::valid_utf8;

verus! {

/// A TOML value as `toml` holds it.
#[verifier::external_type_specification]
#[verifier::external_body]
pub struct ExTomlValue(toml::Value);

/// What `toml` makes of a text: the document it reads, or its description of
/// the error where the text is no TOML document.
pub uninterp spec fn toml_document(text: Seq<char>) -> Result<toml::Value, Seq<char>>;

/// The members that a TOML table holds, by key. A value that is no table
/// holds none.
pub uninterp spec fn toml_members(value: toml::Value) -> Map<Seq<char>, toml::Value>;

/// The text of a TOML value that is a string.
pub uninterp spec fn toml_string(value: toml::Value) -> Option<Seq<char>>;

/// Whether a TOML value is a table.
pub uninterp spec fn toml_is_table(value: toml::Value) -> bool;

/// `toml::de::from_str::<toml::Value>`: parses the text as a TOML document.
/// The error is handed out as the text of its `Display`.
#[verifier::external_body]
fn parse_toml(text: &str) -> (r: Result<toml::Value, String>)
    ensures
        match r {
            Ok(value) => toml_document(text@) == Ok::<toml::Value, Seq<char>>(value),
            Err(why) => toml_document(text@) == Err::<toml::Value, Seq<char>>(why@),
        },
{
    toml::de::from_str::<toml::Value>(text).map_err(|err| err.to_string())
}

/// `toml::Value::get` with a string index: the member under `key` where the
/// value is a table that has one. Only a table has members.
#[verifier::external_body]
fn toml_get<'a>(value: &'a toml::Value, key: &str) -> (r: Option<&'a toml::Value>)
    ensures
        match r {
            Some(member) => toml_members(*value).dom().contains(key@) && *member == toml_members(
                *value,
            )[key@] && toml_is_table(*value),
            None => !toml_members(*value).dom().contains(key@),
        },
{
    value.get(key)
}

/// `toml::Value::as_str`: the text where the value is a string.
#[verifier::external_body]
fn toml_as_str(value: &toml::Value) -> (r: Option<&str>)
    ensures
        match r {
            Some(text) => toml_string(*value) == Some(text@),
            None => toml_string(*value) is None,
        },
{
    value.as_str()
}

/// `toml::Value::is_table`: whether the value is a table.
#[verifier::external_body]
fn toml_value_is_table(value: &toml::Value) -> (r: bool)
    ensures
        r == toml_is_table(*value),
{
    value.is_table()
}

/// `toml::Value::clone`: a copy of the value.
#[verifier::external_body]
fn toml_clone(value: &toml::Value) -> (r: toml::Value)
    ensures
        r == *value,
{
    value.clone()
}

/// A local file tree that holds a source folder.
#[derive(Debug)]
pub struct LocalSource {
    /// The path of the manifest.
    pub cargo: String,
    /// Whether the source tree may differ from what is committed.
    pub dirty: bool,
}

/// The local path of a `.crate` archive.
#[derive(Debug)]
pub struct CrateSource {
    pub path: String,
}

/// Where the commit pin comes from when a packaged source tree is tested.
#[derive(Debug)]
pub enum VcsInfo {
    /// From the archive itself.
    FromCrate,
    /// From the file at `path`, in place of the one in the archive.
    Overwrite { path: String },
}

/// How the packs are archived.
#[derive(Clone, Copy, Debug, PartialEq, Eq, Structural)]
pub enum ArchiveMethod {
    /// A tar archive, compressed with gzip.
    TarGz,
}

/// What the section `metadata.xtest-data` of the manifest configures.
#[derive(Debug)]
pub struct Metadata {
    /// How the packs are archived.
    pub pack_archive: Option<ArchiveMethod>,
    /// Where the archive of the packs is found by those who test the package.
    pub pack_artifact: Option<String>,
    /// Where the packs are kept on disk, relative to the package.
    pub pack_objects: Option<String>,
}

/// The mathematical value of a [`Metadata`].
pub struct MetadataView {
    pub pack_archive: Option<ArchiveMethod>,
    pub pack_artifact: Option<Seq<char>>,
    pub pack_objects: Option<Seq<char>>,
}

impl View for Metadata {
    type V = MetadataView;

    open spec fn view(&self) -> MetadataView {
        MetadataView {
            pack_archive: self.pack_archive,
            pack_artifact: match self.pack_artifact {
                Some(text) => Some(text@),
                None => None,
            },
            pack_objects: match self.pack_objects {
                Some(text) => Some(text@),
                None => None,
            },
        }
    }
}

/// What templates can refer to: the `package` table of the manifest, with its
/// name and version at hand. Only reading a manifest makes one, so the name
/// and the version are always those that the table holds.
#[derive(Debug)]
pub struct TargetStatic {
    name: String,
    version: String,
    /// The `package` table as a whole.
    extra: toml::Value,
}

/// The mathematical value of a [`TargetStatic`].
pub struct TargetStaticView {
    pub name: Seq<char>,
    pub version: Seq<char>,
    pub package: toml::Value,
}

impl View for TargetStatic {
    type V = TargetStaticView;

    closed spec fn view(&self) -> TargetStaticView {
        TargetStaticView { name: self.name@, version: self.version@, package: self.extra }
    }
}

/// Whether the name and the version are those that the `package` table
/// holds.
pub open spec fn names_package(env: TargetStaticView) -> bool {
    &&& text_member(
        env.package,
        "name"@,
        TargetErrorView::NoName,
        TargetErrorView::NameNotText,
    ) == Ok::<Seq<char>, TargetErrorView>(env.name)
    &&& text_member(
        env.package,
        "version"@,
        TargetErrorView::NoVersion,
        TargetErrorView::VersionNotText,
    ) == Ok::<Seq<char>, TargetErrorView>(env.version)
}

impl TargetStatic {
    #[verifier::type_invariant]
    closed spec fn agrees(self) -> bool {
        names_package(self@)
    }

    /// The name of the package.
    pub fn name(&self) -> (name: &str)
        ensures
            name@ == self@.name,
            names_package(self@),
    {
        proof {
            use_type_invariant(self);
        }
        self.name.as_str()
    }

    /// The version of the package.
    pub fn version(&self) -> (version: &str)
        ensures
            version@ == self@.version,
            names_package(self@),
    {
        proof {
            use_type_invariant(self);
        }
        self.version.as_str()
    }

    /// The `package` table as a whole.
    pub fn package(&self) -> (package: &toml::Value)
        ensures
            *package == self@.package,
            names_package(self@),
    {
        proof {
            use_type_invariant(self);
        }
        &self.extra
    }
}

/// Everything known of a target.
#[derive(Debug)]
pub struct Target {
    pub env: TargetStatic,
    pub cargo: Metadata,
}

/// The mathematical value of a [`Target`].
pub struct TargetView {
    pub name: Seq<char>,
    pub version: Seq<char>,
    pub package: toml::Value,
    pub cargo: MetadataView,
}

impl View for Target {
    type V = TargetView;

    open spec fn view(&self) -> TargetView {
        TargetView {
            name: self.env@.name,
            version: self.env@.version,
            package: self.env@.package,
            cargo: self.cargo@,
        }
    }
}

/// Why a manifest does not describe a target.
#[derive(Debug)]
pub enum TargetError {
    /// The manifest is not text; the text says why.
    NotText(String),
    /// The manifest is no TOML document; the text says why.
    Syntax(String),
    /// The manifest has no `package` entry.
    NoPackage,
    /// The package has no `name`.
    NoName,
    /// The `name` of the package is not a string.
    NameNotText,
    /// The package has no `version`.
    NoVersion,
    /// The `version` of the package is not a string.
    VersionNotText,
    /// The entry `metadata.xtest-data` is not a table.
    MetadataNotTable,
    /// The value of `pack-archive` names no known method.
    UnknownArchiveMethod,
    /// The value of `pack-artifact` is not a string.
    BadArtifact,
    /// The value of `pack-objects` is not a string.
    BadObjects,
    /// A template could not be rendered; the text says why.
    Render(String),
}

/// The mathematical value of a [`TargetError`].
pub enum TargetErrorView {
    NotText(Seq<char>),
    Syntax(Seq<char>),
    NoPackage,
    NoName,
    NameNotText,
    NoVersion,
    VersionNotText,
    MetadataNotTable,
    UnknownArchiveMethod,
    BadArtifact,
    BadObjects,
    Render(Seq<char>),
}

impl View for TargetError {
    type V = TargetErrorView;

    open spec fn view(&self) -> TargetErrorView {
        match self {
            TargetError::NotText(why) => TargetErrorView::NotText(why@),
            TargetError::Syntax(why) => TargetErrorView::Syntax(why@),
            TargetError::NoPackage => TargetErrorView::NoPackage,
            TargetError::NoName => TargetErrorView::NoName,
            TargetError::NameNotText => TargetErrorView::NameNotText,
            TargetError::NoVersion => TargetErrorView::NoVersion,
            TargetError::VersionNotText => TargetErrorView::VersionNotText,
            TargetError::MetadataNotTable => TargetErrorView::MetadataNotTable,
            TargetError::UnknownArchiveMethod => TargetErrorView::UnknownArchiveMethod,
            TargetError::BadArtifact => TargetErrorView::BadArtifact,
            TargetError::BadObjects => TargetErrorView::BadObjects,
            TargetError::Render(why) => TargetErrorView::Render(why@),
        }
    }
}

impl TargetErrorView {
    /// The one line that tells the cause.
    pub open spec fn diagnostic(self) -> Seq<char> {
        match self {
            TargetErrorView::NotText(why) => why,
            TargetErrorView::Syntax(why) => why,
            TargetErrorView::NoPackage => "The manifest has no `package` table"@,
            TargetErrorView::NoName => "The package has no `name`"@,
            TargetErrorView::NameNotText => "Bad value for `name`, expected string"@,
            TargetErrorView::NoVersion => "The package has no `version`"@,
            TargetErrorView::VersionNotText => "Bad value for `version`, expected string"@,
            TargetErrorView::MetadataNotTable => "Expected metadata.xtest-data table"@,
            TargetErrorView::UnknownArchiveMethod => "Unknown archive method"@,
            TargetErrorView::BadArtifact => "Bad value for `pack-artifact`, expected string"@,
            TargetErrorView::BadObjects => "Bad value for `pack-objects`, expected string"@,
            TargetErrorView::Render(why) => why,
        }
    }
}

impl TargetError {
    /// The one line that tells the cause.
    pub fn message(&self) -> (line: String)
        ensures
            line@ == self@.diagnostic(),
    {
        match self {
            TargetError::NotText(why) => why.clone(),
            TargetError::Syntax(why) => why.clone(),
            TargetError::NoPackage => String::from_str("The manifest has no `package` table"),
            TargetError::NoName => String::from_str("The package has no `name`"),
            TargetError::NameNotText => String::from_str("Bad value for `name`, expected string"),
            TargetError::NoVersion => String::from_str("The package has no `version`"),
            TargetError::VersionNotText => String::from_str(
                "Bad value for `version`, expected string",
            ),
            TargetError::MetadataNotTable => String::from_str("Expected metadata.xtest-data table"),
            TargetError::UnknownArchiveMethod => String::from_str("Unknown archive method"),
            TargetError::BadArtifact => String::from_str(
                "Bad value for `pack-artifact`, expected string",
            ),
            TargetError::BadObjects => String::from_str(
                "Bad value for `pack-objects`, expected string",
            ),
            TargetError::Render(why) => why.clone(),
        }
    }
}

impl LocalSource {
    /// The source tree whose manifest is `Cargo.toml` in the directory
    /// `path`, to be taken as committed.
    pub fn with_simple_repository(path: &str) -> (source: LocalSource)
        ensures
            source.cargo@ == joined(path@, "Cargo.toml"@),
            !source.dirty,
    {
        LocalSource { cargo: join(path, "Cargo.toml"), dirty: false }
    }

    /// The directory in which the packs and their archive are kept:
    /// `target/xtest-data` beside the manifest. A manifest that no directory
    /// holds has none.
    pub fn target_directory(&self, _target: &Target) -> (dir: Option<String>)
        ensures
            match dir {
                Some(d) => directory_of(self.cargo@) matches Some(beside) && d@ == joined(
                    beside,
                    "target/xtest-data"@,
                ),
                None => directory_of(self.cargo@) is None,
            },
    {
        match directory(self.cargo.as_str()) {
            Some(beside) => Some(join(beside.as_str(), "target/xtest-data")),
            None => None,
        }
    }

    /// The same source tree, with the say on whether it may be dirty.
    pub fn with_dirty(self, dirty: bool) -> (source: LocalSource)
        ensures
            source.cargo == self.cargo,
            source.dirty == dirty,
    {
        LocalSource { dirty, ..self }
    }
}

/// The member of a table under `key`, where there is one.
pub open spec fn member(value: toml::Value, key: Seq<char>) -> Option<toml::Value> {
    if toml_members(value).dom().contains(key) {
        Some(toml_members(value)[key])
    } else {
        None
    }
}

/// The method that the entry `pack-archive` selects: only `tar:gz` is known.
pub open spec fn archive_of(table: toml::Value) -> Result<Option<ArchiveMethod>, TargetErrorView> {
    match member(table, "pack-archive"@) {
        None => Ok(None),
        Some(archive) => if toml_string(archive) == Some("tar:gz"@) {
            Ok(Some(ArchiveMethod::TarGz))
        } else {
            Err(TargetErrorView::UnknownArchiveMethod)
        },
    }
}

/// What rendering the entry under `key` gives: without the entry nothing;
/// otherwise the entry must be a string, which is rendered as a template
/// against the package.
pub open spec fn rendered_entry(
    table: toml::Value,
    key: Seq<char>,
    bad: TargetErrorView,
    package: toml::Value,
) -> Result<Option<Seq<char>>, TargetErrorView> {
    match member(table, key) {
        None => Ok(None),
        Some(entry) => match toml_string(entry) {
            None => Err(bad),
            Some(text) => match rendered(text, package) {
                Err(why) => Err(TargetErrorView::Render(why)),
                Ok(out) => Ok(Some(out)),
            },
        },
    }
}

/// What the section `metadata.xtest-data` configures, or why it is refused.
pub open spec fn metadata_of(table: toml::Value, package: toml::Value) -> Result<
    MetadataView,
    TargetErrorView,
> {
    if !toml_is_table(table) {
        Err(TargetErrorView::MetadataNotTable)
    } else {
        match archive_of(table) {
            Err(e) => Err(e),
            Ok(pack_archive) => match rendered_entry(
                table,
                "pack-artifact"@,
                TargetErrorView::BadArtifact,
                package,
            ) {
                Err(e) => Err(e),
                Ok(pack_artifact) => match rendered_entry(
                    table,
                    "pack-objects"@,
                    TargetErrorView::BadObjects,
                    package,
                ) {
                    Err(e) => Err(e),
                    Ok(pack_objects) => Ok(
                        MetadataView { pack_archive, pack_artifact, pack_objects },
                    ),
                },
            },
        }
    }
}

/// The text of the member under `key`, or one of two errors: for a missing
/// member, and for one that is no string.
pub open spec fn text_member(
    value: toml::Value,
    key: Seq<char>,
    missing: TargetErrorView,
    bad: TargetErrorView,
) -> Result<Seq<char>, TargetErrorView> {
    match member(value, key) {
        None => Err(missing),
        Some(entry) => match toml_string(entry) {
            None => Err(bad),
            Some(text) => Ok(text),
        },
    }
}

/// The section `metadata.xtest-data` of a package, where it has one.
pub open spec fn metadata_section(package: toml::Value) -> Option<toml::Value> {
    match member(package, "metadata"@) {
        None => None,
        Some(metadata) => member(metadata, "xtest-data"@),
    }
}

/// The target that a parsed manifest describes, or why it describes none.
pub open spec fn target_in(document: toml::Value) -> Result<TargetView, TargetErrorView> {
    match member(document, "package"@) {
        None => Err(TargetErrorView::NoPackage),
        Some(package) => match text_member(
            package,
            "name"@,
            TargetErrorView::NoName,
            TargetErrorView::NameNotText,
        ) {
            Err(e) => Err(e),
            Ok(name) => match text_member(
                package,
                "version"@,
                TargetErrorView::NoVersion,
                TargetErrorView::VersionNotText,
            ) {
                Err(e) => Err(e),
                Ok(version) => match metadata_section(package) {
                    None => Ok(
                        TargetView {
                            name,
                            version,
                            package,
                            cargo: MetadataView {
                                pack_archive: None,
                                pack_artifact: None,
                                pack_objects: None,
                            },
                        },
                    ),
                    Some(section) => match metadata_of(section, package) {
                        Err(e) => Err(e),
                        Ok(cargo) => Ok(TargetView { name, version, package, cargo }),
                    },
                },
            },
        },
    }
}

/// The target that the bytes of a manifest describe, or why they describe
/// none.
pub open spec fn target_of(toml: Seq<u8>) -> Result<TargetView, TargetErrorView> {
    if !valid_utf8(toml) {
        Err(TargetErrorView::NotText(utf8_error(toml)))
    } else {
        match toml_document(decode_utf8(toml)) {
            Err(why) => Err(TargetErrorView::Syntax(why)),
            Ok(document) => target_in(document),
        }
    }
}

/// Whether `r` is the exec form of `expected`.
pub open spec fn target_matches(
    r: Result<Target, TargetError>,
    expected: Result<TargetView, TargetErrorView>,
) -> bool {
    match r {
        Ok(target) => expected == Ok::<TargetView, TargetErrorView>(target@),
        Err(e) => expected == Err::<TargetView, TargetErrorView>(e@),
    }
}

/// Whether `r` is the exec form of `expected`.
pub open spec fn metadata_matches(
    r: Result<Metadata, TargetError>,
    expected: Result<MetadataView, TargetErrorView>,
) -> bool {
    match r {
        Ok(meta) => expected == Ok::<MetadataView, TargetErrorView>(meta@),
        Err(e) => expected == Err::<MetadataView, TargetErrorView>(e@),
    }
}

/// The text of the member under `key`.
fn text_of_member(value: &toml::Value, key: &str, missing: TargetError, bad: TargetError) -> (r:
    Result<String, TargetError>)
    ensures
        match r {
            Ok(text) => text_member(*value, key@, missing@, bad@) == Ok::<
                Seq<char>,
                TargetErrorView,
            >(text@),
            Err(e) => text_member(*value, key@, missing@, bad@) == Err::<
                Seq<char>,
                TargetErrorView,
            >(e@),
        },
{
    match toml_get(value, key) {
        None => Err(missing),
        Some(entry) => match toml_as_str(entry) {
            None => Err(bad),
            Some(text) => Ok(String::from_str(text)),
        },
    }
}

impl Target {
    /// The target that the bytes of a manifest describe.
    pub fn from_toml(toml: &[u8]) -> (r: Result<Target, TargetError>)
        ensures
            target_matches(r, target_of(toml@)),
    {
        let text = match text_from_utf8(toml) {
            Ok(text) => text,
            Err(why) => { return Err(TargetError::NotText(why)); },
        };
        match parse_toml(text.as_str()) {
            Err(why) => Err(TargetError::Syntax(why)),
            Ok(document) => Target::from_document(&document),
        }
    }

    /// The target that a parsed manifest describes.
    pub fn from_document(document: &toml::Value) -> (r: Result<Target, TargetError>)
        ensures
            target_matches(r, target_in(*document)),
    {
        let package = match toml_get(document, "package") {
            Some(package) => package,
            None => { return Err(TargetError::NoPackage); },
        };
        let name = match text_of_member(
            package,
            "name",
            TargetError::NoName,
            TargetError::NameNotText,
        ) {
            Ok(name) => name,
            Err(e) => { return Err(e); },
        };
        let version = match text_of_member(
            package,
            "version",
            TargetError::NoVersion,
            TargetError::VersionNotText,
        ) {
            Ok(version) => version,
            Err(e) => { return Err(e); },
        };
        let mut target = Target {
            env: TargetStatic { name, version, extra: toml_clone(package) },
            cargo: Metadata { pack_archive: None, pack_artifact: None, pack_objects: None },
        };
        let section = match toml_get(package, "metadata") {
            Some(metadata) => toml_get(metadata, "xtest-data"),
            None => None,
        };
        match section {
            None => {},
            Some(meta) => {
                match Metadata::from_value(meta, &target) {
                    Ok(cargo) => {
                        target.cargo = cargo;
                    },
                    Err(e) => { return Err(e); },
                }
            },
        }
        Ok(target)
    }

    /// The file name of the packaged source tree.
    pub fn expected_crate_name(&self) -> (name: String)
        ensures
            name@ == self@.name + "-"@ + self@.version + ".crate"@,
    {
        String::from_str(self.env.name()).concat("-").concat(self.env.version()).concat(".crate")
    }

    /// The name of the directory that the packaged source tree unpacks to.
    pub fn expected_dir_name(&self) -> (name: String)
        ensures
            name@ == self@.name + "-"@ + self@.version,
    {
        String::from_str(self.env.name()).concat("-").concat(self.env.version())
    }
}

/// Renders the entry of `table` under `key`.
fn render_entry(table: &toml::Value, key: &str, bad: TargetError, package: &toml::Value) -> (r:
    Result<Option<String>, TargetError>)
    ensures
        match r {
            Ok(out) => rendered_entry(*table, key@, bad@, *package) == Ok::<
                Option<Seq<char>>,
                TargetErrorView,
            >(
                match out {
                    Some(text) => Some(text@),
                    None => None,
                },
            ),
            Err(e) => rendered_entry(*table, key@, bad@, *package) == Err::<
                Option<Seq<char>>,
                TargetErrorView,
            >(e@),
        },
{
    match toml_get(table, key) {
        None => Ok(None),
        Some(entry) => match toml_as_str(entry) {
            None => Err(bad),
            Some(text) => match render(text, package) {
                Err(why) => Err(TargetError::Render(why)),
                Ok(out) => Ok(Some(out)),
            },
        },
    }
}

impl Metadata {
    /// What the table `val`, the section `metadata.xtest-data` of a manifest,
    /// configures for `target`. The strings under `pack-artifact` and
    /// `pack-objects` are templates, rendered against the `package` table of
    /// the target, which holds its name and its version.
    pub fn from_value(val: &toml::Value, target: &Target) -> (r: Result<Metadata, TargetError>)
        ensures
            metadata_matches(r, metadata_of(*val, target@.package)),
    {
        if !toml_value_is_table(val) {
            return Err(TargetError::MetadataNotTable);
        }
        let mut meta = Metadata { pack_archive: None, pack_artifact: None, pack_objects: None };
        match toml_get(val, "pack-archive") {
            None => {},
            Some(archive) => {
                let known = match toml_as_str(archive) {
                    Some(method) => crate::text::same_text(method, "tar:gz"),
                    None => false,
                };
                if known {
                    meta.pack_archive = Some(ArchiveMethod::TarGz);
                } else {
                    return Err(TargetError::UnknownArchiveMethod);
                }
            },
        }
        match render_entry(val, "pack-artifact", TargetError::BadArtifact, target.env.package()) {
            Err(e) => { return Err(e); },
            Ok(artifact) => {
                meta.pack_artifact = artifact;
            },
        }
        match render_entry(val, "pack-objects", TargetError::BadObjects, target.env.package()) {
            Err(e) => { return Err(e); },
            Ok(objects) => {
                meta.pack_objects = objects;
            },
        }
        Ok(meta)
    }
}

} // verus!
