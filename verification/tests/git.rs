use xtest_data::error::Inconclusive;
use xtest_data::git::CommitId;
use xtest_data::git::Git;
use xtest_data::git::Origin;
use xtest_data::git::PathSpec;
use xtest_data::store::PathSpecFilter;

fn commit() -> CommitId {
    CommitId::checked("0123456789abcdef0123456789abcdef01234567").unwrap()
}

fn paths(specs: &[PathSpec]) -> Vec<String> {
    specs.iter().map(|p| p.as_encompassing_path().unwrap().to_string()).collect()
}

#[test]
fn commit_id_is_trimmed() {
    let id = CommitId::checked("  0123456789abcdef0123456789abcdef01234567\n").unwrap();
    assert_eq!(id.as_ref(), "0123456789abcdef0123456789abcdef01234567");
    let id = CommitId::from("0123456789abcdef0123456789abcdef01234567 ");
    assert_eq!(id.as_ref(), "0123456789abcdef0123456789abcdef01234567");
    assert_eq!(id.duplicate().as_ref(), id.as_ref());
}

#[test]
fn commit_id_takes_longer_identities() {
    let long = "0123456789abcdef0123456789abcdef0123456789abcdef0123456789abcdef";
    assert_eq!(CommitId::checked(long).unwrap().as_ref(), long);
}

#[test]
fn commit_id_of_fewer_than_forty_characters_is_refused() {
    assert!(CommitId::checked("0123456789abcdef0123456789abcdef0123456").is_none());
    assert!(CommitId::checked("").is_none());
    assert!(CommitId::checked("   0123456789abcdef0123456789abcdef0123456    ").is_none());
}

#[test]
fn path_spec_renders_top_anchored_and_literal() {
    let spec = PathSpec::Path(String::from("tests/data.zip"));
    assert_eq!(spec.render(), ":(top,literal)tests/data.zip");
    assert_eq!(spec.as_encompassing_path(), Some("tests/data.zip"));
    assert_eq!(spec.duplicate().render(), spec.render());
}

#[test]
fn path_spec_with_a_line_break_is_not_simple() {
    assert!(PathSpec::Path(String::from("tests/data.zip")).is_simple());
    assert!(!PathSpec::Path(String::from("tests/da\nta.zip")).is_simple());
    assert!(!PathSpec::Path(String::from("tests/da\0ta.zip")).is_simple());
}

#[test]
fn filter_routes_a_line_break_to_the_complex_paths() {
    let all = vec![
        PathSpec::Path(String::from("a")),
        PathSpec::Path(String::from("b\nc")),
        PathSpec::Path(String::from("d")),
        PathSpec::Path(String::from("e\0f")),
    ];
    let filter = PathSpecFilter::from_iter(&all);
    assert_eq!(paths(&filter.simple_filter), ["a", "d"]);
    assert_eq!(paths(&filter.complex_paths), ["b\nc", "e\0f"]);
}

#[test]
fn filter_extends_in_order() {
    let mut filter = PathSpecFilter::new();
    filter.extend(&vec![PathSpec::Path(String::from("a")), PathSpec::Path(String::from("x\ny"))]);
    filter.extend(&vec![PathSpec::Path(String::from("b"))]);
    assert_eq!(paths(&filter.simple_filter), ["a", "b"]);
    assert_eq!(paths(&filter.complex_paths), ["x\ny"]);
}

#[test]
fn consent_is_given_by_three_values_only() {
    let git = Git::new("/usr/bin/git");
    let origin = Origin { url: String::from("https://example.com/repo.git") };
    for token in ["yes", "1", "true"] {
        let cleared = git
            .consent_to_use("/tmp/git", "/tmp/tree", &origin, &commit(), &vec![], &vec![], Some(token))
            .unwrap();
        assert_eq!(cleared.url(), "https://example.com/repo.git");
    }
    for token in [Some("no"), Some("YES"), Some("True"), Some(""), Some("0"), Some("yes "), None] {
        let denied =
            git.consent_to_use("/tmp/git", "/tmp/tree", &origin, &commit(), &vec![], &vec![], token);
        assert!(matches!(denied, Err(Inconclusive::ConsentDenied(_))));
    }
}

#[test]
fn denied_consent_tells_the_plan() {
    let git = Git::new("/usr/bin/git");
    let origin = Origin { url: String::from("https://example.com/repo.git") };
    let resources = vec![String::from("tests/data.zip"), String::from("tests/more")];
    let specs = vec![
        PathSpec::Path(String::from("tests/data.zip")),
        PathSpec::Path(String::from("tests/more")),
    ];
    let denied =
        git.consent_to_use("/tmp/git", "/tmp/tree", &origin, &commit(), &resources, &specs, None);
    match denied {
        Err(Inconclusive::ConsentDenied(plan)) => {
            assert_eq!(
                plan,
                [
                    "These tests require additional data from a remote source.",
                    "Here is what we planned to do.",
                    "Set up bare Git dir in: /tmp/git",
                    "Git Origin: https://example.com/repo.git",
                    "Fetch Commit: 0123456789abcdef0123456789abcdef01234567",
                    "Checkout files into: /tmp/tree",
                    "  into tests/data.zip: :(top,literal)tests/data.zip",
                    "  into tests/more: :(top,literal)tests/more",
                    "Explicit consent can be given by setting CARGO_XTEST_DATA_FETCH=1",
                ]
            );
        }
        other => panic!("{:?}", other),
    }
}

#[test]
fn inconclusive_messages_name_the_cause() {
    assert_eq!(
        Inconclusive::Untracked(String::from("? a")).message(),
        "Your test depends on untracked file(s)"
    );
    assert_eq!(
        Inconclusive::Ignored(String::from("! a")).message(),
        "Your test depends on ignored file(s)"
    );
    assert_eq!(
        Inconclusive::ConsentDenied(vec![]).message(),
        "refusing to continue without explicit agreement to network (see error log)."
    );
    assert_eq!(
        Inconclusive::UnsafeCommitId(String::from("abc")).message(),
        "Unlikely to be a safe Git Object ID in vcs pin file: abc"
    );
    assert_eq!(
        Inconclusive::MissingRepository.message(),
        "The crate must have a valid URL in `package.repository`"
    );
    assert_eq!(Inconclusive::InvalidRepository.message(), "The repository must have a valid URL");
    assert_eq!(Inconclusive::NoGitSection.message(), "VCS does not contain a git section.");
    assert_eq!(Inconclusive::CommitNotRecognized.message(), "VCS commit ID not recognized.");
    assert_eq!(Inconclusive::CommitNotString.message(), "VCS commit ID is not a string");
    assert_eq!(Inconclusive::ProcessFailed(vec![]).message(), "Git operation was not successful");
    assert_eq!(Inconclusive::Io(String::from("denied")).message(), "denied");
    assert_eq!(Inconclusive::NoVcs(String::from("cannot find binary path")).message(), "cannot find binary path");
    assert_eq!(Inconclusive::UnreadablePin(String::from("bad")).message(), "bad");
    assert!(Inconclusive::NoDataDir.message().contains("TMPDIR"));
    assert!(!Inconclusive::Unexpected.message().is_empty());
}
