use xtest_data::error::Inconclusive;
use xtest_data::git::CommitId;
use xtest_data::git::CrateDir;
use xtest_data::git::Git;
use xtest_data::git::PathSpec;
use xtest_data::process::Input;
use xtest_data::process::Outcome;
use xtest_data::process::Stream;
use xtest_data::worktree::demand_success;
use xtest_data::worktree::nul_terminated_list;
use xtest_data::worktree::packed_objects;
use xtest_data::worktree::scan_status;
use xtest_data::worktree::sparse_oid;
use xtest_data::worktree::tracked_verdict;

fn git() -> Git {
    Git::new("/usr/bin/git")
}

fn specs(paths: &[&str]) -> Vec<PathSpec> {
    paths.iter().map(|p| PathSpec::Path(p.to_string())).collect()
}

fn outcome(success: bool, stdout: &[u8], stderr: &[u8]) -> Outcome {
    Outcome { success, stdout: stdout.to_vec(), stderr: stderr.to_vec() }
}

#[test]
fn crate_dir_is_probed_with_a_short_status() {
    let (dir, probe) = CrateDir::new("/work/crate", &git());
    assert_eq!(dir.path, "/work/crate");
    assert_eq!(probe.program, "/usr/bin/git");
    assert_eq!(probe.args, ["status", "--short"]);
    assert_eq!(probe.current_dir.as_deref(), Some("/work/crate"));
    assert_eq!(probe.stdout, Stream::Null);
    assert_eq!(probe.stderr, Stream::Null);
    assert!(matches!(probe.input, Input::Nothing));
    assert!(probe.envs.is_empty());
}

#[test]
fn status_query_lists_every_path_spec() {
    let (dir, _) = CrateDir::new("/work/crate", &git());
    let query = dir.tracked_query(&git(), &specs(&["tests/data.zip", "benches"])).unwrap();
    assert_eq!(
        query.args,
        [
            "status",
            "--no-renames",
            "--ignored=matching",
            "--porcelain=v2",
            "--short",
            "-z",
            "--",
            ":(top,literal)tests/data.zip",
            ":(top,literal)benches",
        ]
    );
    assert_eq!(query.stdout, Stream::Piped);
    assert_eq!(query.stderr, Stream::Null);
    assert_eq!(query.current_dir.as_deref(), Some("/work/crate"));
}

#[test]
fn no_path_needs_no_status_query() {
    let (dir, _) = CrateDir::new("/work/crate", &git());
    assert!(dir.tracked_query(&git(), &vec![]).is_none());
}

#[test]
fn status_without_flagged_record_passes() {
    assert!(scan_status("").is_ok());
    assert!(scan_status("1 .M N... 100644 100644 100644 abc def tests/data.zip\0").is_ok());
    assert!(scan_status("1 a!b\0u ?x\0").is_ok());
    assert!(scan_status("\0\0").is_ok());
}

#[test]
fn untracked_record_is_reported() {
    match scan_status("? tests/data.zip\0") {
        Err(Inconclusive::Untracked(record)) => assert_eq!(record, "? tests/data.zip"),
        other => panic!("{:?}", other),
    }
    let failure = scan_status("? tests/data.zip\0").unwrap_err();
    assert!(failure.message().contains("untracked"));
}

#[test]
fn ignored_record_is_reported() {
    match scan_status("1 .M x\0! target/data.bin\0? later\0") {
        Err(Inconclusive::Ignored(record)) => assert_eq!(record, "! target/data.bin"),
        other => panic!("{:?}", other),
    }
}

#[test]
fn first_flagged_record_decides() {
    match scan_status("? first\0! second") {
        Err(Inconclusive::Untracked(record)) => assert_eq!(record, "? first"),
        other => panic!("{:?}", other),
    }
    match scan_status("1 ok\0?") {
        Err(Inconclusive::Untracked(record)) => assert_eq!(record, "?"),
        other => panic!("{:?}", other),
    }
}

#[test]
fn verdict_demands_success_and_text() {
    assert!(tracked_verdict(&outcome(true, b"", b"")).is_ok());
    match tracked_verdict(&outcome(false, b"", b"fatal: outside repository")) {
        Err(Inconclusive::ProcessFailed(stderr)) => assert_eq!(stderr, b"fatal: outside repository"),
        other => panic!("{:?}", other),
    }
    match tracked_verdict(&outcome(true, &[0xff, 0xfe], b"")) {
        Err(Inconclusive::Io(why)) => {
            assert_eq!(why, std::str::from_utf8(&[0xff, 0xfe]).unwrap_err().to_string())
        }
        other => panic!("{:?}", other),
    }
    assert!(matches!(
        tracked_verdict(&outcome(true, b"? tests/data.zip\0", b"")),
        Err(Inconclusive::Untracked(_))
    ));
    assert!(tracked_verdict(&outcome(true, "1 .M caf\u{e9}\0".as_bytes(), b"")).is_ok());
}

#[test]
fn demand_success_hands_out_the_error_stream() {
    assert!(demand_success(&outcome(true, b"out", b"warn")).is_ok());
    match demand_success(&outcome(false, b"out", b"boom")) {
        Err(Inconclusive::ProcessFailed(stderr)) => assert_eq!(stderr, b"boom"),
        other => panic!("{:?}", other),
    }
}

#[test]
fn path_specs_are_listed_nul_terminated() {
    assert_eq!(nul_terminated_list(&vec![]), "");
    assert_eq!(
        nul_terminated_list(&specs(&["a", "b/c"])),
        ":(top,literal)a\0:(top,literal)b/c\0"
    );
}

#[test]
fn hashing_stores_the_list_of_path_specs() {
    let (dir, _) = CrateDir::new("/work/crate", &git());
    let cmd = dir.hash_sparse_oid(&git(), &specs(&["tests/data.zip"]));
    assert_eq!(cmd.args, ["hash-object", "-w", "--stdin"]);
    match &cmd.input {
        Input::Text(text) => assert_eq!(text, ":(top,literal)tests/data.zip\0"),
        other => panic!("{:?}", other),
    }
    assert_eq!(cmd.stdout, Stream::Piped);
    assert_eq!(cmd.stderr, Stream::Piped);
}

#[test]
fn hashed_identity_is_read_trimmed() {
    let id = sparse_oid(&outcome(true, b"0123456789abcdef0123456789abcdef01234567\n", b"")).unwrap();
    assert_eq!(id.as_ref(), "0123456789abcdef0123456789abcdef01234567");
    assert!(matches!(
        sparse_oid(&outcome(false, b"0123456789abcdef0123456789abcdef01234567\n", b"no")),
        Err(Inconclusive::ProcessFailed(_))
    ));
    match sparse_oid(&outcome(true, b"abc\n", b"")) {
        Err(Inconclusive::UnsafeCommitId(text)) => assert_eq!(text, "abc"),
        other => panic!("{:?}", other),
    }
}

#[test]
fn listings_filter_by_the_stored_list_and_by_blobs() {
    let (dir, _) = CrateDir::new("/work/crate", &git());
    let oid = CommitId::from("0123456789abcdef0123456789abcdef01234567");
    let (selected, trees) = dir.sparse_rev_list(&git(), &oid);
    assert_eq!(
        selected.args,
        [
            "rev-list",
            "-n",
            "1",
            "--objects",
            "--no-object-names",
            "--filter=sparse:oid=0123456789abcdef0123456789abcdef01234567",
            "HEAD",
        ]
    );
    assert_eq!(
        trees.args,
        ["rev-list", "-n", "1", "--objects", "--no-object-names", "--filter=blob:none", "HEAD"]
    );
    assert_eq!(selected.stdout, Stream::Piped);
    assert_eq!(trees.stderr, Stream::Piped);
    assert_eq!(dir.list_for(&git(), "--filter=blob:none").args, trees.args);
}

#[test]
fn packing_reads_both_listings() {
    let (dir, _) = CrateDir::new("/work/crate", &git());
    let objects = packed_objects(b"aaa\n".to_vec(), &b"bbb\n".to_vec());
    assert_eq!(objects, b"aaa\nbbb\n");
    let cmd = dir.pack_objects(&git(), "/work/crate/target/xtest-data", objects);
    assert_eq!(
        cmd.args,
        ["pack-objects", "--incremental", "/work/crate/target/xtest-data/xtest-data"]
    );
    match &cmd.input {
        Input::Bytes(bytes) => assert_eq!(bytes, b"aaa\nbbb\n"),
        other => panic!("{:?}", other),
    }
    assert_eq!(cmd.stdout, Stream::Null);
    assert_eq!(cmd.stderr, Stream::Piped);
}

#[test]
fn hashed_identity_with_broken_bytes_is_read_lossily() {
    let mut printed = vec![0xff];
    printed.extend_from_slice(b"0123456789abcdef0123456789abcdef01234567\n");
    let id = sparse_oid(&outcome(true, &printed, b"")).unwrap();
    assert_eq!(id.as_ref(), "\u{fffd}0123456789abcdef0123456789abcdef01234567");
}
