use s3_file_manager::key::{file_name, SEPARATOR};
use std::path::Path;

fn name(path: &str) -> Option<String> {
    file_name(path)
}

fn std_name(path: &str) -> Option<String> {
    Path::new(path)
        .file_name()
        .and_then(|n| n.to_str())
        .map(|n| n.to_string())
}

#[test]
fn separator_is_the_slash() {
    assert_eq!(SEPARATOR, '/');
}

#[test]
fn bare_name_is_kept() {
    assert_eq!(name("a.png"), Some("a.png".to_string()));
}

#[test]
fn directory_is_stripped() {
    assert_eq!(name("sub/b.png"), Some("b.png".to_string()));
}

#[test]
fn every_directory_is_stripped() {
    assert_eq!(
        name("/home/user/pictures/2024/c.jpeg"),
        Some("c.jpeg".to_string())
    );
    assert_eq!(name("./d.gif"), Some("d.gif".to_string()));
    assert_eq!(name("../e.gif"), Some("e.gif".to_string()));
}

#[test]
fn derived_keys_hold_no_separator() {
    for path in ["a.png", "sub/b.png", "x/y/z", "x//y", "/r", "q/"] {
        let key = name(path).unwrap();
        assert!(!key.contains('/'));
        assert!(!key.is_empty());
    }
}

#[test]
fn trailing_separators_are_passed_over() {
    assert_eq!(name("dir/"), Some("dir".to_string()));
    assert_eq!(name("a/b///"), Some("b".to_string()));
}

#[test]
fn trailing_dots_are_passed_over() {
    assert_eq!(name("foo.txt/."), Some("foo.txt".to_string()));
    assert_eq!(name("foo.txt/.//"), Some("foo.txt".to_string()));
    assert_eq!(name("a/./."), Some("a".to_string()));
}

#[test]
fn repeated_separators_count_once() {
    assert_eq!(name("a//b.png"), Some("b.png".to_string()));
}

#[test]
fn paths_without_file_name() {
    assert_eq!(name(""), None);
    assert_eq!(name("/"), None);
    assert_eq!(name("//"), None);
    assert_eq!(name("."), None);
    assert_eq!(name("./"), None);
    assert_eq!(name(".."), None);
    assert_eq!(name("a/.."), None);
    assert_eq!(name("a/../"), None);
    assert_eq!(name("a/../."), None);
}

#[test]
fn dots_inside_a_name_are_kept() {
    assert_eq!(name("..."), Some("...".to_string()));
    assert_eq!(name(".hidden"), Some(".hidden".to_string()));
    assert_eq!(name("a/..b"), Some("..b".to_string()));
    assert_eq!(name("a/b."), Some("b.".to_string()));
}

#[test]
fn names_beyond_ascii_are_kept_whole() {
    assert_eq!(name("фото/котик.png"), Some("котик.png".to_string()));
    assert_eq!(name("写真/猫 1.jpg"), Some("猫 1.jpg".to_string()));
}

#[test]
fn backslash_is_no_separator() {
    assert_eq!(name("a\\b.png"), Some("a\\b.png".to_string()));
}

#[test]
fn agrees_with_the_standard_library() {
    let paths = [
        "", "/", "//", ".", "..", "./", "../", "a", "a/", "a/b", "a//b", "/a", "/a/b/", "a/.",
        "a/..", "a/./b", "a/../b", "./a", "../a", "a/b/.", "a/b/./", "a/b/..", "a/b/../",
        "a/b/.././", "...", "a/...", ".a", "a.", "a/.b", "a/b.", "/.", "/..", "/./a", "x/y.z/",
        "noslash.txt", "deep/er/and/deeper/file.tar.gz", "spaces in/a name.png", "ü/ß.png",
    ];
    for path in paths {
        assert_eq!(name(path), std_name(path), "path {:?}", path);
    }
}
