use xtest_data::checkout::CheckoutStage;
use xtest_data::checkout::CheckoutStep;
use xtest_data::error::Inconclusive;
use xtest_data::git::ClearedOrigin;
use xtest_data::git::CommitId;
use xtest_data::git::Git;
use xtest_data::git::Origin;
use xtest_data::git::PathSpec;
use xtest_data::git::ShallowBareRepository;
use xtest_data::process::Input;
use xtest_data::process::Outcome;
use xtest_data::process::Report;
use xtest_data::process::Stream;

const HEAD: &str = "0123456789abcdef0123456789abcdef01234567";

fn git() -> Git {
    Git::new("git")
}

fn commit() -> CommitId {
    CommitId::from(HEAD)
}

fn cleared() -> ClearedOrigin {
    let origin = Origin { url: String::from("https://example.com/repo.git") };
    git().consent_to_use("", "", &origin, &commit(), &vec![], &vec![], Some("yes")).unwrap()
}

fn repo() -> ShallowBareRepository {
    ShallowBareRepository { path: String::from("/tmp/xtest-data-git") }
}

fn specs(paths: &[&str]) -> Vec<PathSpec> {
    paths.iter().map(|p| PathSpec::Path(p.to_string())).collect()
}

fn exited(success: bool) -> Report {
    Report::Exited(Outcome { success, stdout: vec![], stderr: b"why".to_vec() })
}

fn text_input(input: &Input) -> &str {
    match input {
        Input::Text(text) => text,
        other => panic!("{:?}", other),
    }
}

#[test]
fn store_commands_name_the_git_dir() {
    let cmd = repo().exec(&git());
    assert_eq!(cmd.program, "git");
    assert_eq!(cmd.args, ["--git-dir", "/tmp/xtest-data-git"]);
    assert_eq!(cmd.stdout, Stream::Null);
    assert_eq!(cmd.stderr, Stream::Piped);
    assert!(cmd.current_dir.is_none());
}

#[test]
fn shallow_clone_clones_what_does_not_exist() {
    let (repo, cmd) = git().shallow_clone(String::from("/tmp/xtest-data-git"), &cleared(), false);
    assert_eq!(repo.path, "/tmp/xtest-data-git");
    assert_eq!(
        cmd.args,
        [
            "--git-dir",
            "/tmp/xtest-data-git",
            "clone",
            "--bare",
            "--no-checkout",
            "--filter=blob:none",
            "--depth=1",
            "--",
            "https://example.com/repo.git",
            "/tmp/xtest-data-git",
        ]
    );
}

#[test]
fn shallow_clone_probes_what_exists() {
    let (_, cmd) = git().shallow_clone(String::from("/tmp/xtest-data-git"), &cleared(), true);
    assert_eq!(cmd.args, ["--git-dir", "/tmp/xtest-data-git", "symbolic-ref", "HEAD"]);
}

#[test]
fn bare_store_is_made_without_network() {
    let (repo, cmd) = git().bare(String::from("/tmp/xtest-data-git"), false);
    assert_eq!(
        cmd.args,
        ["--git-dir", "/tmp/xtest-data-git", "init", "--bare", "--", "/tmp/xtest-data-git"]
    );
    let (_, probe) = git().bare(String::from("/tmp/xtest-data-git"), true);
    assert_eq!(probe.args, ["--git-dir", "/tmp/xtest-data-git", "symbolic-ref", "HEAD"]);
    let (path, contents) = repo.shallow_marker(&commit());
    assert_eq!(path, "/tmp/xtest-data-git/shallow");
    assert_eq!(contents, HEAD.as_bytes());
}

#[test]
fn fetch_takes_one_commit_without_blobs() {
    let cmd = repo().fetch(&git(), &commit(), &cleared());
    assert_eq!(
        cmd.args,
        [
            "--git-dir",
            "/tmp/xtest-data-git",
            "fetch",
            "--filter=blob:none",
            "--depth=1",
            "https://example.com/repo.git",
            HEAD,
        ]
    );
}

#[test]
fn unpack_streams_every_pack_file() {
    let entries = vec![
        String::from("/packs/xtest-data-1.pack"),
        String::from("/packs/xtest-data-1.idx"),
        String::from("/packs/readme"),
        String::from("/packs/xtest-data-2.pack"),
    ];
    let cmds = repo().unpack(&git(), &entries);
    assert_eq!(cmds.len(), 2);
    for (cmd, file) in cmds.iter().zip(["/packs/xtest-data-1.pack", "/packs/xtest-data-2.pack"]) {
        assert_eq!(cmd.args, ["--git-dir", "/tmp/xtest-data-git", "unpack-objects"]);
        match &cmd.input {
            Input::File(path) => assert_eq!(path, file),
            other => panic!("{:?}", other),
        }
    }
    assert!(repo().unpack(&git(), &vec![]).is_empty());
}

#[test]
fn slow_checkout_reads_nul_separated_path_specs() {
    let cmd = repo().checkout_fallback_slow(&git(), "/tmp/tree", &commit(), &specs(&["a", "b\nc"]));
    assert_eq!(
        cmd.args,
        [
            "--git-dir",
            "/tmp/xtest-data-git",
            "--work-tree",
            "/tmp/tree",
            "checkout",
            "--no-guess",
            "--force",
            "--pathspec-from-file=-",
            "--pathspec-file-nul",
            HEAD,
        ]
    );
    assert_eq!(text_input(&cmd.input), ":(top,literal)a\0:(top,literal)b\nc\0");
}

#[test]
fn checkout_goes_sparse_first() {
    let (mut job, first) =
        repo().checkout(&git(), "/tmp/tree", &commit(), &specs(&["a", "b\nc", "d"]));
    assert_eq!(job.stage, CheckoutStage::Adding);
    assert_eq!(
        first.args,
        ["--git-dir", "/tmp/xtest-data-git", "worktree", "add", "--no-checkout", "/tmp/tree", HEAD]
    );
    let sparse = match job.advance(exited(true)) {
        CheckoutStep::Run(cmd) => cmd,
        other => panic!("{:?}", other),
    };
    assert_eq!(
        sparse.args,
        [
            "--git-dir",
            "/tmp/xtest-data-git",
            "--work-tree",
            "/tmp/tree",
            "sparse-checkout",
            "set",
            "--stdin",
        ]
    );
    assert_eq!(text_input(&sparse.input), "a\nd\n");
    let force = match job.advance(exited(true)) {
        CheckoutStep::Run(cmd) => cmd,
        other => panic!("{:?}", other),
    };
    assert_eq!(
        force.args,
        [
            "--git-dir",
            "/tmp/xtest-data-git",
            "--work-tree",
            "/tmp/tree",
            "checkout",
            "--force",
            HEAD,
        ]
    );
    let slow = match job.advance(exited(true)) {
        CheckoutStep::Run(cmd) => cmd,
        other => panic!("{:?}", other),
    };
    assert_eq!(text_input(&slow.input), ":(top,literal)b\nc\0");
    assert!(slow.args.contains(&String::from("--pathspec-file-nul")));
    assert!(matches!(job.advance(exited(true)), CheckoutStep::Done));
    assert_eq!(job.stage, CheckoutStage::Finished);
    assert!(matches!(
        job.advance(exited(true)),
        CheckoutStep::Abort(Inconclusive::Unexpected)
    ));
}

#[test]
fn checkout_falls_back_when_sparse_fails() {
    let (mut job, _) = repo().checkout(&git(), "/tmp/tree", &commit(), &specs(&["a", "b\nc", "d"]));
    assert!(matches!(job.advance(exited(true)), CheckoutStep::Run(_)));
    let slow = match job.advance(exited(false)) {
        CheckoutStep::Run(cmd) => cmd,
        other => panic!("{:?}", other),
    };
    assert_eq!(job.stage, CheckoutStage::Slow);
    assert_eq!(
        text_input(&slow.input),
        ":(top,literal)a\0:(top,literal)d\0:(top,literal)b\nc\0"
    );
    assert!(matches!(job.advance(exited(true)), CheckoutStep::Done));
}

#[test]
fn checkout_falls_back_when_the_sparse_checkout_fails() {
    let (mut job, _) = repo().checkout(&git(), "/tmp/tree", &commit(), &specs(&["a", "b\nc", "d"]));
    assert!(matches!(job.advance(exited(true)), CheckoutStep::Run(_)));
    assert!(matches!(job.advance(exited(true)), CheckoutStep::Run(_)));
    assert_eq!(job.stage, CheckoutStage::Forcing);
    let slow = match job.advance(exited(false)) {
        CheckoutStep::Run(cmd) => cmd,
        other => panic!("{:?}", other),
    };
    assert_eq!(job.stage, CheckoutStage::Slow);
    assert!(slow.args.contains(&String::from("--pathspec-from-file=-")));
    assert_eq!(
        text_input(&slow.input),
        ":(top,literal)a\0:(top,literal)d\0:(top,literal)b\nc\0"
    );
    assert!(matches!(job.advance(exited(true)), CheckoutStep::Done));
    let (mut job, _) = repo().checkout(&git(), "/tmp/tree", &commit(), &specs(&["a"]));
    assert!(matches!(job.advance(exited(true)), CheckoutStep::Run(_)));
    assert!(matches!(job.advance(exited(true)), CheckoutStep::Run(_)));
    assert!(matches!(job.advance(exited(false)), CheckoutStep::Run(_)));
    assert!(matches!(
        job.advance(exited(false)),
        CheckoutStep::Abort(Inconclusive::ProcessFailed(_))
    ));
}

#[test]
fn checkout_falls_back_when_sparse_cannot_run() {
    let (mut job, _) = repo().checkout(&git(), "/tmp/tree", &commit(), &specs(&["a"]));
    assert!(matches!(job.advance(exited(true)), CheckoutStep::Run(_)));
    let slow = match job.advance(Report::Failed(String::from("no such file"))) {
        CheckoutStep::Run(cmd) => cmd,
        other => panic!("{:?}", other),
    };
    assert_eq!(text_input(&slow.input), ":(top,literal)a\0");
}

#[test]
fn checkout_aborts_when_a_required_step_fails() {
    let (mut job, _) = repo().checkout(&git(), "/tmp/tree", &commit(), &specs(&["a"]));
    match job.advance(exited(false)) {
        CheckoutStep::Abort(Inconclusive::ProcessFailed(stderr)) => assert_eq!(stderr, b"why"),
        other => panic!("{:?}", other),
    }
    let (mut job, _) = repo().checkout(&git(), "/tmp/tree", &commit(), &specs(&["a"]));
    assert!(matches!(job.advance(exited(true)), CheckoutStep::Run(_)));
    assert!(matches!(job.advance(exited(true)), CheckoutStep::Run(_)));
    assert!(matches!(job.advance(exited(true)), CheckoutStep::Run(_)));
    assert!(matches!(
        job.advance(exited(false)),
        CheckoutStep::Abort(Inconclusive::ProcessFailed(_))
    ));
    let (mut job, _) = repo().checkout(&git(), "/tmp/tree", &commit(), &specs(&["a"]));
    match job.advance(Report::Failed(String::from("cannot spawn"))) {
        CheckoutStep::Abort(Inconclusive::Io(why)) => assert_eq!(why, "cannot spawn"),
        other => panic!("{:?}", other),
    }
}
