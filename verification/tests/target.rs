use xtest_data::xtask::target::ArchiveMethod;
use xtest_data::xtask::target::LocalSource;
use xtest_data::xtask::target::Metadata;
use xtest_data::xtask::target::Target;
use xtest_data::xtask::target::TargetError;
use xtest_data::xtask::template::render;
use xtest_data::xtask::template::safe_template;

const MANIFEST: &str = r#"
[package]
name = "demo"
version = "1.2.3"
repository = "https://example.com/demo"

[package.metadata.xtest-data]
pack-archive = "tar:gz"
pack-artifact = "{repository}/releases/download/v{version}/{name}-{version}.xtest-data"
pack-objects = "target/xtest-data"
"#;

fn target(manifest: &str) -> Result<Target, TargetError> {
    Target::from_toml(manifest.as_bytes())
}

#[test]
fn manifest_names_the_target() {
    let target = target(MANIFEST).unwrap();
    assert_eq!(target.env.name(), "demo");
    assert_eq!(target.env.version(), "1.2.3");
    assert_eq!(target.expected_crate_name(), "demo-1.2.3.crate");
    assert_eq!(target.expected_dir_name(), "demo-1.2.3");
    assert_eq!(target.env.package().get("repository").unwrap().as_str(), Some("https://example.com/demo"));
}

#[test]
fn metadata_is_rendered_against_the_package() {
    let target = target(MANIFEST).unwrap();
    assert_eq!(target.cargo.pack_archive, Some(ArchiveMethod::TarGz));
    assert_eq!(
        target.cargo.pack_artifact.as_deref(),
        Some("https://example.com/demo/releases/download/v1.2.3/demo-1.2.3.xtest-data")
    );
    assert_eq!(target.cargo.pack_objects.as_deref(), Some("target/xtest-data"));
}

#[test]
fn manifest_without_metadata_configures_nothing() {
    let target = target("[package]\nname = \"demo\"\nversion = \"0.1.0\"\n").unwrap();
    assert!(target.cargo.pack_archive.is_none());
    assert!(target.cargo.pack_artifact.is_none());
    assert!(target.cargo.pack_objects.is_none());
    let other = "[package]\nname = \"demo\"\nversion = \"0.1.0\"\n[package.metadata.docs]\nall = true\n";
    assert!(Target::from_toml(other.as_bytes()).unwrap().cargo.pack_objects.is_none());
}

#[test]
fn manifest_must_be_text_and_toml() {
    assert!(matches!(Target::from_toml(&[0xff, 0xfe]), Err(TargetError::NotText(_))));
    match target("[package") {
        Err(TargetError::Syntax(why)) => {
            let expected = toml::de::from_str::<toml::Value>("[package").unwrap_err().to_string();
            assert_eq!(why, expected);
        }
        other => panic!("{:?}", other),
    }
}

#[test]
fn manifest_must_name_and_version_the_package() {
    assert!(matches!(target(""), Err(TargetError::NoPackage)));
    assert!(matches!(target("[workspace]\nmembers = []\n"), Err(TargetError::NoPackage)));
    assert!(matches!(target("[package]\nversion = \"1\"\n"), Err(TargetError::NoName)));
    assert!(matches!(target("[package]\nname = 1\nversion = \"1\"\n"), Err(TargetError::NameNotText)));
    assert!(matches!(target("[package]\nname = \"demo\"\n"), Err(TargetError::NoVersion)));
    assert!(matches!(
        target("[package]\nname = \"demo\"\nversion = 1\n"),
        Err(TargetError::VersionNotText)
    ));
    assert!(matches!(target("package = 1\n"), Err(TargetError::NoName)));
}

#[test]
fn metadata_must_be_a_table() {
    let manifest = "[package]\nname = \"demo\"\nversion = \"1\"\n[package.metadata]\nxtest-data = 1\n";
    assert!(matches!(target(manifest), Err(TargetError::MetadataNotTable)));
}

#[test]
fn archive_method_must_be_known() {
    let with = |value: &str| {
        format!(
            "[package]\nname = \"demo\"\nversion = \"1\"\n[package.metadata.xtest-data]\npack-archive = {}\n",
            value
        )
    };
    assert!(matches!(target(&with("\"zip\"")), Err(TargetError::UnknownArchiveMethod)));
    assert!(matches!(target(&with("\"TAR:GZ\"")), Err(TargetError::UnknownArchiveMethod)));
    assert!(matches!(target(&with("7")), Err(TargetError::UnknownArchiveMethod)));
    assert_eq!(target(&with("\"tar:gz\"")).unwrap().cargo.pack_archive, Some(ArchiveMethod::TarGz));
}

#[test]
fn templates_must_be_strings() {
    let with = |entry: &str| {
        format!(
            "[package]\nname = \"demo\"\nversion = \"1\"\n[package.metadata.xtest-data]\n{}\n",
            entry
        )
    };
    assert!(matches!(target(&with("pack-artifact = 1")), Err(TargetError::BadArtifact)));
    assert!(matches!(target(&with("pack-objects = [\"a\"]")), Err(TargetError::BadObjects)));
    assert!(matches!(
        target(&with("pack-archive = \"zip\"\npack-artifact = 1")),
        Err(TargetError::UnknownArchiveMethod)
    ));
}

#[test]
fn template_that_cannot_be_rendered_is_an_error() {
    let manifest = "[package]\nname = \"demo\"\nversion = \"1\"\n[package.metadata.xtest-data]\npack-objects = \"{missing}\"\n";
    match target(manifest) {
        Err(TargetError::Render(why)) => assert!(why.contains("missing"), "{}", why),
        other => panic!("{:?}", other),
    }
}

#[test]
fn template_that_is_not_accepted_is_an_error() {
    let with = |entries: &str| {
        format!(
            "[package]\nname = \"demo\"\nversion = \"1\"\n[package.metadata.xtest-data]\n{}\n",
            entries
        )
    };
    match target(&with("pack-artifact = \"{{ if }}\"")) {
        Err(TargetError::Render(why)) => {
            assert!(why.contains("Expected block-closing tag"), "{}", why)
        }
        other => panic!("{:?}", other),
    }
    let both = with("pack-artifact = \"{name}.tar.gz\"\npack-objects = \"{{ if }}\"");
    assert!(matches!(target(&both), Err(TargetError::Render(_))));
    let both = with("pack-artifact = \"{name}.tar.gz\"\npack-objects = \"packs/{version}\"");
    let target = target(&both).unwrap();
    assert_eq!(target.cargo.pack_artifact.as_deref(), Some("demo.tar.gz"));
    assert_eq!(target.cargo.pack_objects.as_deref(), Some("packs/1"));
}

#[test]
fn template_that_would_stop_the_compiler_is_an_error() {
    let with = |text: &str| {
        format!(
            "[package]\nname = \"demo\"\nversion = \"1\"\n[package.metadata.xtest-data]\npack-artifact = '{}'\n",
            text
        )
    };
    for text in ["{#}", "a{#}b", "{{ if not }}", "{{ if not -}}x{{ endif }}", "{{ if not\u{e9} }}", "ends\\"] {
        match target(&with(text)) {
            Err(TargetError::Render(why)) => {
                assert!(why.starts_with("Failed to parse the template"), "{}", why)
            }
            other => panic!("{:?}: {:?}", text, other),
        }
    }
}

#[test]
fn safe_templates_are_those_the_compiler_can_take() {
    for text in ["", "{name}", "{# note #}", "{{ if not name }}x{{ endif }}", "do not", "a\\b", "{{ if notx }}"] {
        assert!(safe_template(text), "{:?}", text);
    }
    for text in ["\\", "{#}", "{{ if not }}", "{{x}} not", "{{ if not  x }}", "{{ if not-}}"] {
        assert!(!safe_template(text), "{:?}", text);
    }
}

#[test]
fn every_safe_template_is_compiled_without_a_stop() {
    let context: toml::Value = toml::de::from_str("name = \"demo\"\nx = 1\n").unwrap();
    let alphabet = ['{', '}', '#', '-', ' ', 'n', 'o', 't', '\\', 'x', '|', '\u{e9}', '\n'];
    let mut texts = vec![String::new()];
    let mut checked = 0;
    for _ in 0..4 {
        let mut longer = Vec::new();
        for text in &texts {
            for c in alphabet {
                let mut next = text.clone();
                next.push(c);
                longer.push(next);
            }
        }
        for text in &longer {
            if safe_template(text) {
                let _ = render(text, &context);
                checked += 1;
            }
        }
        texts = longer;
    }
    for middle in ["not", "not ", "not x", "not  ", "not -", "not\u{e9}", "notx", "not\t", "not}", "if not", "if  not x", "-if not x-", "if not x -", "else", "endif", "for a in x", "with x as y", "call x with y"] {
        for open in ["{{", "{{ ", "{{-", "{{- ", "{"] {
            for close in ["}}", " }}", "-}}", " -}}", " - }}", "}", "\\"] {
                let text = format!("{}{}{}", open, middle, close);
                if safe_template(&text) {
                    let _ = render(&text, &context);
                    checked += 1;
                }
            }
        }
    }
    assert!(checked > 1000);
}

#[test]
fn metadata_from_a_value() {
    let target = target("[package]\nname = \"demo\"\nversion = \"2.0.0\"\n").unwrap();
    let table: toml::Value =
        toml::de::from_str("pack-archive = \"tar:gz\"\npack-objects = \"packs/{name}-{version}\"\n").unwrap();
    let meta = Metadata::from_value(&table, &target).unwrap();
    assert_eq!(meta.pack_archive, Some(ArchiveMethod::TarGz));
    assert!(meta.pack_artifact.is_none());
    assert_eq!(meta.pack_objects.as_deref(), Some("packs/demo-2.0.0"));
    let not_table = toml::Value::String(String::from("tar:gz"));
    assert!(matches!(Metadata::from_value(&not_table, &target), Err(TargetError::MetadataNotTable)));
}

#[test]
fn parsed_document_describes_the_same_target() {
    let document: toml::Value = toml::de::from_str(MANIFEST).unwrap();
    let target = Target::from_document(&document).unwrap();
    assert_eq!(target.expected_crate_name(), "demo-1.2.3.crate");
    assert_eq!(target.cargo.pack_objects.as_deref(), Some("target/xtest-data"));
}

#[test]
fn local_source_points_at_the_manifest() {
    let source = LocalSource::with_simple_repository("/work/crate");
    assert_eq!(source.cargo, "/work/crate/Cargo.toml");
    assert!(!source.dirty);
    let dirty = source.with_dirty(true);
    assert_eq!(dirty.cargo, "/work/crate/Cargo.toml");
    assert!(dirty.dirty);
    let target = target(MANIFEST).unwrap();
    assert_eq!(dirty.target_directory(&target).as_deref(), Some("/work/crate/target/xtest-data"));
    let here = LocalSource::with_simple_repository("");
    assert_eq!(here.cargo, "Cargo.toml");
    assert_eq!(here.target_directory(&target).as_deref(), Some("target/xtest-data"));
    let nowhere = LocalSource { cargo: String::new(), dirty: false };
    assert_eq!(nowhere.target_directory(&target), None);
}

#[test]
fn target_error_messages() {
    assert_eq!(TargetError::MetadataNotTable.message(), "Expected metadata.xtest-data table");
    assert_eq!(TargetError::UnknownArchiveMethod.message(), "Unknown archive method");
    assert_eq!(TargetError::BadArtifact.message(), "Bad value for `pack-artifact`, expected string");
    assert_eq!(TargetError::BadObjects.message(), "Bad value for `pack-objects`, expected string");
    assert_eq!(TargetError::Render(String::from("why")).message(), "why");
    assert_eq!(TargetError::Syntax(String::from("eof")).message(), "eof");
    assert_eq!(TargetError::NotText(String::from("bytes")).message(), "bytes");
    for error in [
        TargetError::NoPackage,
        TargetError::NoName,
        TargetError::NameNotText,
        TargetError::NoVersion,
        TargetError::VersionNotText,
    ] {
        assert!(!error.message().is_empty());
    }
}
