use xtest_data::error::Inconclusive;
use xtest_data::setup::Managed;
use xtest_data::setup::Resources;
use xtest_data::setup::Source;
use xtest_data::EnvOptions;
use xtest_data::Environment;
use xtest_data::_setup;

const HEAD: &str = "0123456789abcdef0123456789abcdef01234567";

fn options() -> EnvOptions {
    EnvOptions {
        pkg_repository: String::from("https://example.com/repo.git"),
        manifest_dir: String::from("/work/crate"),
        target_tmpdir: None,
    }
}

fn environment() -> Environment {
    Environment {
        origin_override: None,
        pin: None,
        git: Ok(String::from("/usr/bin/git")),
        data_tmpdir: None,
        tmpdir: None,
        pack_objects: None,
        fetch: None,
    }
}

fn pin() -> Option<String> {
    Some(format!("{{\"git\":{{\"sha1\":\"{}\"}},\"path_in_vcs\":\"\"}}", HEAD))
}

#[test]
fn without_a_pin_the_mode_is_local() {
    let setup = _setup(options(), environment()).unwrap();
    assert_eq!(setup.repository(), "https://example.com/repo.git");
    assert_eq!(setup.manifest(), "/work/crate");
    assert!(setup.pack_objects().is_none());
    match setup.source() {
        Source::Local(git) => assert_eq!(git.bin, "/usr/bin/git"),
        other => panic!("{:?}", other),
    }
    assert!(setup.resources().relative_files.is_empty());
    assert!(setup.resources().unmanaged.is_empty());
}

#[test]
fn with_a_pin_the_mode_is_packaged() {
    let env = Environment { pin: pin(), tmpdir: Some(String::from("/tmp")), ..environment() };
    let setup = _setup(options(), env).unwrap();
    match setup.source() {
        Source::VcsFromManifest { commit_id, git, datadir } => {
            assert_eq!(commit_id.as_ref(), HEAD);
            assert_eq!(git.bin, "/usr/bin/git");
            assert_eq!(datadir, "/tmp");
        }
        other => panic!("{:?}", other),
    }
}

#[test]
fn data_directory_prefers_the_harness_then_the_variables() {
    let datadir = |options: EnvOptions, env: Environment| match _setup(options, env).unwrap().source() {
        Source::VcsFromManifest { datadir, .. } => datadir.clone(),
        other => panic!("{:?}", other),
    };
    let all = Environment {
        pin: pin(),
        data_tmpdir: Some(String::from("/data")),
        tmpdir: Some(String::from("/tmp")),
        ..environment()
    };
    let harness = EnvOptions { target_tmpdir: Some(String::from("/target/tmp")), ..options() };
    assert_eq!(datadir(harness, all), "/target/tmp");
    let all = Environment {
        pin: pin(),
        data_tmpdir: Some(String::from("/data")),
        tmpdir: Some(String::from("/tmp")),
        ..environment()
    };
    assert_eq!(datadir(options(), all), "/data");
    let only_tmp = Environment { pin: pin(), tmpdir: Some(String::from("/tmp")), ..environment() };
    assert_eq!(datadir(options(), only_tmp), "/tmp");
}

#[test]
fn packaged_mode_needs_a_data_directory() {
    let env = Environment { pin: pin(), ..environment() };
    assert!(matches!(_setup(options(), env), Err(Inconclusive::NoDataDir)));
}

#[test]
fn data_directory_is_looked_for_before_the_binary() {
    let env = Environment {
        pin: pin(),
        git: Err(String::from("cannot find binary path")),
        ..environment()
    };
    assert!(matches!(_setup(options(), env), Err(Inconclusive::NoDataDir)));
}

#[test]
fn local_mode_needs_no_data_directory() {
    assert!(_setup(options(), environment()).is_ok());
}

#[test]
fn empty_repository_is_refused_first() {
    let empty = EnvOptions { pkg_repository: String::new(), ..options() };
    let env = Environment {
        origin_override: Some(String::from("https://example.com/other.git")),
        pin: Some(String::from("not json")),
        git: Err(String::from("cannot find binary path")),
        ..environment()
    };
    assert!(matches!(_setup(empty, env), Err(Inconclusive::MissingRepository)));
}

#[test]
fn origin_can_be_overridden() {
    let env = Environment {
        origin_override: Some(String::from("/srv/mirror.git")),
        ..environment()
    };
    assert_eq!(_setup(options(), env).unwrap().repository(), "/srv/mirror.git");
}

#[test]
fn empty_override_is_refused_last() {
    let env = Environment { origin_override: Some(String::new()), ..environment() };
    assert!(matches!(_setup(options(), env), Err(Inconclusive::InvalidRepository)));
    let env = Environment {
        origin_override: Some(String::new()),
        git: Err(String::from("cannot find binary path")),
        ..environment()
    };
    assert!(matches!(_setup(options(), env), Err(Inconclusive::NoVcs(_))));
}

#[test]
fn missing_binary_is_inconclusive() {
    let env = Environment { git: Err(String::from("cannot find binary path")), ..environment() };
    match _setup(options(), env) {
        Err(Inconclusive::NoVcs(why)) => assert_eq!(why, "cannot find binary path"),
        other => panic!("{:?}", other),
    }
    let env = Environment {
        pin: pin(),
        tmpdir: Some(String::from("/tmp")),
        git: Err(String::from("cannot find binary path")),
        ..environment()
    };
    assert!(matches!(_setup(options(), env), Err(Inconclusive::NoVcs(_))));
}

#[test]
fn pin_errors_come_before_the_binary() {
    let env = Environment {
        pin: Some(String::from("{}")),
        git: Err(String::from("cannot find binary path")),
        ..environment()
    };
    assert!(matches!(_setup(options(), env), Err(Inconclusive::NoGitSection)));
    let env = Environment {
        pin: Some(String::from("{\"git\":{\"sha1\":\"0123\"}}")),
        tmpdir: Some(String::from("/tmp")),
        ..environment()
    };
    assert!(matches!(_setup(options(), env), Err(Inconclusive::UnsafeCommitId(_))));
}

#[test]
fn environment_is_kept_as_it_was_read() {
    let env = Environment {
        pack_objects: Some(String::from("/packs")),
        fetch: Some(String::from("yes")),
        ..environment()
    };
    let setup = _setup(options(), env).unwrap();
    assert_eq!(setup.pack_objects(), Some("/packs"));
    assert_eq!(setup.fetch(), Some("yes"));
}

#[test]
fn add_hands_out_keys_in_order() {
    let mut setup = _setup(options(), environment()).unwrap();
    let first = setup.add("tests/data.zip");
    let second = setup.add("../outside/the/tree");
    let third = setup.add("/absolute");
    let data = setup.resources().resolve("/root");
    assert_eq!(data.len(), 3);
    assert_eq!(data.path(&first), "/root/tests/data.zip");
    assert_eq!(data.path(&second), "/root/../outside/the/tree");
    assert_eq!(data.path(&third), "/absolute");
    assert_eq!(data.get(&second), Some("/root/../outside/the/tree"));
}

#[test]
fn key_of_another_setup_is_not_held() {
    let mut large = _setup(options(), environment()).unwrap();
    large.add("a");
    let beyond = large.add("b");
    let mut small = _setup(options(), environment()).unwrap();
    let held = small.add("only");
    let data = small.resources().resolve("/root");
    assert_eq!(data.get(&held), Some("/root/only"));
    assert_eq!(data.get(&beyond), None);
}

#[test]
fn rewrite_registers_borrowed_paths() {
    let setup = _setup(options(), environment()).unwrap();
    let setup = setup.rewrite(vec![String::from("a"), String::from("b")]);
    let setup = setup.rewrite(vec![String::from("c")]);
    assert_eq!(setup.resources().unmanaged, ["a", "b", "c"]);
    let data = setup.resources().resolve("/root");
    assert_eq!(data.rewritten(), &["/root/a", "/root/b", "/root/c"]);
    assert_eq!(data.len(), 0);
}

#[test]
fn resources_list_owned_paths_then_borrowed_ones() {
    let resources = Resources {
        relative_files: vec![Managed::Files(String::from("m1")), Managed::Files(String::from("m2"))],
        unmanaged: vec![String::from("u1")],
    };
    assert_eq!(resources.as_paths(), ["m1", "m2", "u1"]);
    let specs: Vec<String> = resources.path_specs().iter().map(|s| s.render()).collect();
    assert_eq!(specs, [":(top,literal)m1", ":(top,literal)m2", ":(top,literal)u1"]);
    assert!(Resources::new().as_paths().is_empty());
}

#[test]
fn managed_is_its_path() {
    let managed = Managed::Files(String::from("tests/data.zip"));
    assert_eq!(managed.as_path(), "tests/data.zip");
    assert_eq!(managed.as_path_spec().render(), ":(top,literal)tests/data.zip");
}

#[test]
fn pin_file_stands_beside_the_manifest() {
    assert_eq!(xtest_data::setup::vcs_info_path("/work/crate"), "/work/crate/.cargo_vcs_info.json");
}
