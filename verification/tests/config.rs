use dns_firewall::{project_root, Options};

#[test]
fn default_options_select_eth0() {
    let options = Options::default();
    assert_eq!(options.intf, "eth0");
    assert!(!options.release);
}

#[test]
fn project_root_is_the_manifest_directory_parent() {
    assert_eq!(
        project_root("/home/user/project/member"),
        Some("/home/user/project".to_string())
    );
    assert_eq!(project_root("a/b"), Some("a".to_string()));
    // a component directly under the root: the parent is the root
    assert_eq!(project_root("/top"), Some("/".to_string()));
    // a lone relative component: the parent is the empty path
    assert_eq!(project_root("member"), Some("".to_string()));
}

#[test]
fn project_root_matches_path_parent_for_each_case() {
    // mirrors std::path::Path::parent
    assert_eq!(
        std::path::Path::new("/home/user/project/member").parent(),
        Some(std::path::Path::new("/home/user/project"))
    );
    for dir in [
        "/home/user/project/member",
        "a/b",
        "/top",
        "member",
        "",
        "/",
        "//",
        "a/b/",
        "a//b",
        "//top",
        "a/./b",
        "a/.",
        "/.",
        ".",
        "./a",
        "..",
        "/..",
        "a/..",
        "a/././",
    ] {
        let expected = std::path::Path::new(dir)
            .parent()
            .map(|p| p.to_str().unwrap().to_string());
        assert_eq!(project_root(dir), expected, "path {dir:?}");
    }
}

#[test]
fn project_root_normalizes_the_tail() {
    assert_eq!(project_root("a/b/"), Some("a".to_string()));
    assert_eq!(project_root("a//b"), Some("a".to_string()));
    assert_eq!(project_root("a/./b"), Some("a".to_string()));
    assert_eq!(project_root("a/."), Some("".to_string()));
}

#[test]
fn rootless_path_has_no_parent() {
    assert_eq!(project_root(""), None);
    assert_eq!(project_root("/"), None);
    assert_eq!(project_root("//"), None);
    assert_eq!(project_root("/."), None);
}
