use xtest_data::error::Inconclusive;
use xtest_data::pin::commit_from_record;
use xtest_data::pin::read_pin;

const HEAD: &str = "0123456789abcdef0123456789abcdef01234567";

#[test]
fn pin_names_the_commit() {
    let text = format!("{{ \"git\": {{ \"sha1\": \"{}\" }}, \"path_in_vcs\": \"\" }}", HEAD);
    assert_eq!(read_pin(&text).unwrap().as_ref(), HEAD);
    let compact = format!("{{\"git\":{{\"sha1\":\"{}\"}},\"path_in_vcs\":\"\"}}", HEAD);
    assert_eq!(read_pin(&compact).unwrap().as_ref(), HEAD);
}

#[test]
fn pin_ignores_other_fields() {
    let text = format!(
        "{{\"extra\":[1,2,{{\"a\":null}}],\"git\":{{\"dirty\":true,\"sha1\":\" {} \"}}}}",
        HEAD
    );
    assert_eq!(read_pin(&text).unwrap().as_ref(), HEAD);
}

#[test]
fn pin_must_be_a_document() {
    assert!(matches!(read_pin("{ \"git\": "), Err(Inconclusive::UnreadablePin(_))));
    assert!(matches!(read_pin(""), Err(Inconclusive::UnreadablePin(_))));
    match read_pin("{} trailing") {
        Err(Inconclusive::UnreadablePin(why)) => {
            assert_eq!(why, "{} trailing".parse::<tinyjson::JsonValue>().unwrap_err().to_string())
        }
        other => panic!("{:?}", other),
    }
}

#[test]
fn pin_must_have_a_git_section() {
    assert!(matches!(read_pin("{}"), Err(Inconclusive::NoGitSection)));
    assert!(matches!(read_pin("[]"), Err(Inconclusive::NoGitSection)));
    assert!(matches!(read_pin("\"git\""), Err(Inconclusive::NoGitSection)));
    assert!(matches!(read_pin("{\"path_in_vcs\":\"\"}"), Err(Inconclusive::NoGitSection)));
}

#[test]
fn pin_must_have_a_sha1() {
    assert!(matches!(read_pin("{\"git\":{}}"), Err(Inconclusive::CommitNotRecognized)));
    assert!(matches!(read_pin("{\"git\":\"x\"}"), Err(Inconclusive::CommitNotRecognized)));
    assert!(matches!(read_pin("{\"git\":{\"sha256\":\"x\"}}"), Err(Inconclusive::CommitNotRecognized)));
}

#[test]
fn pin_sha1_must_be_a_string() {
    assert!(matches!(read_pin("{\"git\":{\"sha1\":1}}"), Err(Inconclusive::CommitNotString)));
    assert!(matches!(read_pin("{\"git\":{\"sha1\":null}}"), Err(Inconclusive::CommitNotString)));
    assert!(matches!(read_pin("{\"git\":{\"sha1\":{}}}"), Err(Inconclusive::CommitNotString)));
}

#[test]
fn pin_with_a_short_sha1_is_inconclusive() {
    match read_pin("{\"git\":{\"sha1\":\"0123456789abcdef0123456789abcdef0123456\"}}") {
        Err(Inconclusive::UnsafeCommitId(text)) => {
            assert_eq!(text, "0123456789abcdef0123456789abcdef0123456")
        }
        other => panic!("{:?}", other),
    }
    assert!(matches!(read_pin("{\"git\":{\"sha1\":\"\"}}"), Err(Inconclusive::UnsafeCommitId(_))));
}

#[test]
fn recorded_commit_is_trimmed_and_measured() {
    assert_eq!(commit_from_record(&format!(" {}\n", HEAD)).unwrap().as_ref(), HEAD);
    match commit_from_record(" short ") {
        Err(Inconclusive::UnsafeCommitId(text)) => assert_eq!(text, "short"),
        other => panic!("{:?}", other),
    }
}
