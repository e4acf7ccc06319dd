use probe_run::paths::{relative_path, shorten_path};

const CWD: &str = "/home/user/project";

#[test]
fn registry_paths_are_shortened() {
    assert_eq!(
        shorten_path(
            "/home/user/.cargo/registry/src/index.crates.io-6f17d22bba15001f/cortex-m-rt-0.7.3/src/lib.rs",
            CWD
        ),
        "cortex-m-rt:src/lib.rs"
    );
}

#[test]
fn project_paths_become_relative() {
    assert_eq!(shorten_path("/home/user/project/src/main.rs", CWD), "src/main.rs");
    assert_eq!(relative_path("/home/user/project/src/main.rs", CWD), "src/main.rs");
}

#[test]
fn other_paths_are_kept() {
    assert_eq!(shorten_path("/rustc/abc/library/core/src/panicking.rs", CWD), "/rustc/abc/library/core/src/panicking.rs");
    assert_eq!(shorten_path("src/lib.rs", CWD), "src/lib.rs");
    assert_eq!(shorten_path("/home/user/projectx/a.rs", CWD), "/home/user/projectx/a.rs");
    assert_eq!(
        relative_path("/home/user/.cargo/registry/src/idx/foo-1.0.0/src/lib.rs", CWD),
        "/home/user/.cargo/registry/src/idx/foo-1.0.0/src/lib.rs"
    );
}

#[test]
fn shortening_twice_changes_nothing() {
    for p in [
        "/home/user/.cargo/registry/src/idx/foo-1.0.0/src/lib.rs",
        "/home/user/project/src/main.rs",
        "/rustc/abc/library/core/src/panicking.rs",
        "foo:src/lib.rs",
        "",
    ] {
        let once = shorten_path(p, CWD);
        assert_eq!(shorten_path(&once, CWD), once);
    }
}
