use cargo_project::paths::{join, parent, replace_dashes, rfind_char, set_extension};

#[test]
fn join_inserts_separator() {
    assert_eq!(join("/a/b", "c"), "/a/b/c");
}

#[test]
fn join_onto_root() {
    assert_eq!(join("/", "c"), "/c");
}

#[test]
fn join_relative_component() {
    assert_eq!(join("/proj", ".cargo/config"), "/proj/.cargo/config");
}

#[test]
fn parent_of_nested_path() {
    assert_eq!(parent("/a/b/c"), Some("/a/b".to_string()));
}

#[test]
fn parent_just_below_root() {
    assert_eq!(parent("/a"), Some("/".to_string()));
}

#[test]
fn root_has_no_parent() {
    assert_eq!(parent("/"), None);
}

#[test]
fn separatorless_path_has_no_parent() {
    assert_eq!(parent("plain"), None);
}

#[test]
fn rfind_char_finds_last_occurrence() {
    assert_eq!(rfind_char("/a/b/c", '/'), Some(4));
    assert_eq!(rfind_char("abc", '/'), None);
}

#[test]
fn set_extension_appends_when_none() {
    assert_eq!(set_extension("/t/foo", "exe"), "/t/foo.exe");
}

#[test]
fn set_extension_replaces_existing() {
    assert_eq!(set_extension("/t/foo.bar", "wasm"), "/t/foo.wasm");
}

#[test]
fn set_extension_keeps_leading_dot_name() {
    assert_eq!(set_extension("/t/.cfg", "exe"), "/t/.cfg.exe");
}

#[test]
fn set_extension_ignores_dot_in_earlier_component() {
    assert_eq!(set_extension("/dir.d/foo", "exe"), "/dir.d/foo.exe");
}

#[test]
fn replace_dashes_rewrites_every_hyphen() {
    assert_eq!(replace_dashes("a-b-c"), "a_b_c");
    assert_eq!(replace_dashes("plain"), "plain");
    assert_eq!(replace_dashes(""), "");
}
