use redwood::path::{join, last_component};

#[test]
fn import_path_gives_final_component() {
    assert_eq!(last_component("/home/u/projects/foo"), "foo");
}

#[test]
fn final_component_edges() {
    assert_eq!(last_component("foo"), "foo");
    assert_eq!(last_component("/foo/"), "foo");
    assert_eq!(last_component("a/b//"), "b");
    assert_eq!(last_component("/"), "/");
    assert_eq!(last_component("///"), "/");
    assert_eq!(last_component(""), "");
    assert_eq!(last_component("/données/été"), "été");
}

#[test]
fn join_puts_one_separator() {
    assert_eq!(join("/repo", "wt"), "/repo/wt");
    assert_eq!(join("/repo/", "wt"), "/repo/wt");
    assert_eq!(join("", "wt"), "wt");
    assert_eq!(join("/repo", "/abs"), "/abs");
    assert_eq!(join("/repo", ""), "/repo/");
    assert_eq!(join("/", "wt"), "/wt");
}

#[test]
fn join_agrees_with_std_paths() {
    for (base, name) in [("/repo", "wt"), ("/repo/", "wt"), ("", "wt"), ("/repo", "/abs"), ("/repo", ""), (".", "x"), ("é", "ü")] {
        let expected = std::path::Path::new(base).join(name);
        assert_eq!(join(base, name), expected.to_string_lossy());
    }
}
