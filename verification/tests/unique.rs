use xtest_data::unique::unique_dir;
use xtest_data::unique::unique_name;

#[test]
fn unique_name_writes_low_half_first() {
    let num = [0x01, 0x23, 0x45, 0x67, 0x89, 0xab, 0xcd, 0xef];
    assert_eq!(unique_name("xtest-data-tree", &num), "xtest-data-tree-1032547698badcfe");
    assert_eq!(unique_name("", &[0; 8]), "-0000000000000000");
    assert_eq!(unique_name("p", &[0xff; 8]), "p-ffffffffffffffff");
    assert_eq!(unique_name("p", &[0xf0, 0x0f, 0, 0, 0, 0, 0, 0]), "p-0ff0000000000000");
}

#[test]
fn unique_dir_is_the_prefix_a_dash_and_sixteen_digits() {
    let path = unique_dir("/tmp/data", "xtest-data-tree");
    let suffix = path.strip_prefix("/tmp/data/xtest-data-tree-").unwrap();
    assert_eq!(suffix.len(), 16);
    assert!(suffix.chars().all(|c| "0123456789abcdef".contains(c)));
    let under = std::path::Path::new(&path);
    assert_eq!(under.parent(), Some(std::path::Path::new("/tmp/data")));
}

#[test]
fn unique_dir_draws_again() {
    let drawn: Vec<String> = (0..8).map(|_| unique_dir("/tmp", "t")).collect();
    assert!(drawn.iter().any(|path| path != &drawn[0]));
}
