use prof::target::{cargo_build_args, contains, release_bin_path, BinTarget};
use prof::{Cache, Commands, Heap};

fn target(name: &str, kinds: &[&str], src_path: &str) -> BinTarget {
    BinTarget {
        name: name.to_string(),
        kinds: kinds.iter().map(|k| k.to_string()).collect(),
        src_path: src_path.to_string(),
    }
}

#[test]
fn first_local_binary_is_chosen() {
    let targets = vec![
        target("helper", &["bin"], "/home/u/.cargo/registry/src/helper/main.rs"),
        target("mylib", &["lib"], "/work/app/src/lib.rs"),
        target("app", &["bin"], "/work/app/src/main.rs"),
        target("other", &["bin"], "/work/app/src/bin/other.rs"),
    ];
    assert_eq!(release_bin_path(&targets), Some("target/release/app".to_string()));
}

#[test]
fn no_local_binary() {
    let targets = vec![target("mylib", &["lib", "rlib"], "/work/app/src/lib.rs")];
    assert_eq!(release_bin_path(&targets), None);
    assert_eq!(release_bin_path(&Vec::new()), None);
}

#[test]
fn substring_search() {
    assert!(contains("/a/.cargo/registry/b", ".cargo/registry"));
    assert!(contains("abc", ""));
    assert!(!contains("/a/.cargo/git/b", ".cargo/registry"));
    assert!(!contains("ab", "abc"));
}

#[test]
fn cargo_arguments() {
    assert_eq!(cargo_build_args(&None), vec!["build", "--release"]);
    assert_eq!(
        cargo_build_args(&Some("app".to_string())),
        vec!["build", "--release", "--bin", "app"]
    );
}

#[test]
fn valgrind_arguments() {
    let extra = vec!["--fast".to_string(), "3".to_string()];
    assert_eq!(
        Commands::Cache(Cache {}).valgrind_args("target/release/app", &extra),
        vec!["--tool=cachegrind", "target/release/app", "--fast", "3"]
    );
    assert_eq!(
        Commands::Heap(Heap { subtract_bytes: 0 }).valgrind_args("bin", &Vec::new()),
        vec!["bin"]
    );
}
