use cio::paths::{parent_of, strip_leading_slash};

#[test]
fn parent_of_entry_under_root_is_root() {
    assert_eq!(parent_of("/README.md"), "/");
}

#[test]
fn parent_of_nested_entry() {
    assert_eq!(parent_of("docs/guide/intro.md"), "docs/guide");
    assert_eq!(parent_of("/docs/guide/intro.md"), "/docs/guide");
}

#[test]
fn parent_of_lone_name_is_empty() {
    assert_eq!(parent_of("README.md"), "");
}

#[test]
fn parent_of_skips_repeated_and_trailing_slashes() {
    assert_eq!(parent_of("a/b//c.txt"), "a/b");
    assert_eq!(parent_of("a/b/c.txt/"), "a/b");
    assert_eq!(parent_of("//a"), "/");
}

#[test]
fn parent_of_path_without_entry_is_itself() {
    assert_eq!(parent_of(""), "");
    assert_eq!(parent_of("/"), "/");
    assert_eq!(parent_of("///"), "///");
}

#[test]
fn parent_of_agrees_with_path_buf_on_plain_paths() {
    let cases = ["/README.md", "a/b/c", "a", "/a/b", "a//b", "a/b/", "/", "", "x/y/z.pdf", "/é/ü"];
    for case in cases {
        let mut buf = std::path::PathBuf::from(case);
        buf.pop();
        assert_eq!(parent_of(case), buf.to_str().unwrap());
    }
}

#[test]
fn strip_leading_slash_takes_one_slash() {
    assert_eq!(strip_leading_slash("/README.md"), "README.md");
    assert_eq!(strip_leading_slash("README.md"), "README.md");
    assert_eq!(strip_leading_slash("//a"), "/a");
    assert_eq!(strip_leading_slash("/"), "");
    assert_eq!(strip_leading_slash(""), "");
    assert_eq!(strip_leading_slash("a/b"), "a/b");
}
