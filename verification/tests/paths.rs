use shfs::path::{
    child_path, file_name, final_component, from_chars, is_within, join, relative_to, resolve,
    to_chars,
};

#[test]
fn chars_round_trip() {
    let chars = to_chars("/srv/väl");
    assert_eq!(chars, vec!['/', 's', 'r', 'v', '/', 'v', 'ä', 'l']);
    assert_eq!(from_chars(&chars), "/srv/väl");
    assert_eq!(from_chars(&vec![]), "");
}

#[test]
fn join_puts_one_separator_between() {
    assert_eq!(join("/srv/v", "a"), "/srv/v/a");
    assert_eq!(join("/srv/v", "/a"), "/srv/v/a");
    assert_eq!(join("/srv/v/", "/a/"), "/srv/v/a");
}

#[test]
fn join_collapses_runs_of_separators() {
    assert_eq!(join("/srv//v", "a///b"), "/srv/v/a/b");
    assert_eq!(join("/srv/v", "//"), "/srv/v");
}

#[test]
fn join_keeps_the_lone_separator() {
    assert_eq!(join("/", "/"), "/");
    assert_eq!(join("/", ""), "/");
    assert_eq!(join("", ""), "/");
}

#[test]
fn join_keeps_the_dots_for_resolution() {
    assert_eq!(join("/srv/v", "../../etc"), "/srv/v/../../etc");
    assert_eq!(join("/srv/v", "./a"), "/srv/v/./a");
}

#[test]
fn resolve_removes_the_dots() {
    assert_eq!(resolve("/srv/v", "a/../b"), Some("/srv/v/b".to_string()));
    assert_eq!(resolve("/srv/v", "./a/."), Some("/srv/v/a".to_string()));
    assert_eq!(resolve("/srv/v", "../../etc/passwd"), Some("/etc/passwd".to_string()));
    assert_eq!(resolve("/srv/v", "../../../../.."), Some("/".to_string()));
}

#[test]
fn within_goes_by_components() {
    assert!(is_within("/srv/v", "/srv/v"));
    assert!(is_within("/srv/v", "/srv/v/a/b"));
    assert!(!is_within("/srv/v", "/srv/vault"));
    assert!(!is_within("/srv/v", "/srv"));
    assert!(!is_within("/srv/v", "/etc/passwd"));
}

#[test]
fn within_ignores_how_the_root_is_written() {
    assert!(is_within("/srv/v/", "/srv/v/a"));
    assert!(is_within("/srv//v/.", "/srv/v/a"));
    assert!(is_within("/", "/anything"));
    assert!(is_within("/", "/"));
}

#[test]
fn within_wants_an_absolute_path() {
    assert!(!is_within("/srv/v", "srv/v/a"));
    assert!(!is_within("/srv/v", ""));
}

#[test]
fn within_refuses_a_step_to_the_parent() {
    assert!(!is_within("/srv/v", "/srv/v/../../etc"));
    assert!(!is_within("/srv/v", "/srv/v/a/.."));
    assert!(is_within("/srv/v", "/srv/v/a..b/..."));
}

#[test]
fn relative_to_strips_the_root() {
    assert_eq!(relative_to("/srv/v", "/srv/v/a"), "/a");
    assert_eq!(relative_to("/srv/v", "/srv/v/a/b"), "/a/b");
    assert_eq!(relative_to("/srv/v/", "/srv/v/a"), "/a");
    assert_eq!(relative_to("/", "/a"), "/a");
}

#[test]
fn relative_to_of_the_root_is_the_separator() {
    assert_eq!(relative_to("/srv/v", "/srv/v"), "/");
    assert_eq!(relative_to("/srv/v", "/srv/v/"), "/");
}

#[test]
fn relative_to_keeps_a_root_that_occurs_again() {
    assert_eq!(relative_to("/a", "/a/a/a"), "/a/a");
}

#[test]
fn relative_to_leaves_a_path_outside_as_it_is() {
    assert_eq!(relative_to("/srv/v", "/etc/passwd"), "/etc/passwd");
    assert_eq!(relative_to("/srv/v", "/srv/vault/x"), "/srv/vault/x");
}

#[test]
fn child_path_appends_after_a_separator() {
    assert_eq!(child_path("/", "a"), "/a");
    assert_eq!(child_path("/a", "b"), "/a/b");
    assert_eq!(child_path("/a/", "b"), "/a/b");
    assert_eq!(child_path("", "b"), "b");
    assert_eq!(child_path("/a", ""), "/a/");
}

#[test]
fn child_path_of_an_absolute_name_is_the_name() {
    assert_eq!(child_path("/a", "/etc"), "/etc");
}

#[test]
fn child_path_keeps_the_dots() {
    assert_eq!(child_path("/a", ".."), "/a/..");
    assert_eq!(child_path("/", "../../etc"), "/../../etc");
}

#[test]
fn file_name_is_the_last_component() {
    assert_eq!(file_name("/srv/v"), Some("v".to_string()));
    assert_eq!(file_name("/srv/v/"), Some("v".to_string()));
    assert_eq!(file_name("/srv/v/."), Some("v".to_string()));
    assert_eq!(file_name("data"), Some("data".to_string()));
}

#[test]
fn file_name_of_the_host_root_is_none() {
    assert_eq!(file_name("/"), None);
    assert_eq!(file_name(""), None);
    assert_eq!(file_name("."), None);
}

#[test]
fn file_name_is_none_after_a_step_to_the_parent() {
    assert_eq!(file_name("/srv/.."), None);
    assert_eq!(final_component("/srv/.."), Some("..".to_string()));
}

#[test]
fn final_component_names_the_child() {
    assert_eq!(final_component("/a/b.txt"), Some("b.txt".to_string()));
    assert_eq!(final_component("/a"), Some("a".to_string()));
    assert_eq!(final_component("/"), None);
}

#[test]
fn joined_path_is_the_path_again_from_inside() {
    for path in ["a", "/a/b", "a//b/", "./a/./b", "", "/", "a/../b"] {
        let expected = match path {
            "a" => "/a",
            "/a/b" | "a//b/" | "./a/./b" => "/a/b",
            "a/../b" => "/a/../b",
            _ => "/",
        };
        assert_eq!(relative_to("/srv/v", &join("/srv/v", path)), expected);
    }
}

#[test]
fn listed_path_leads_back_to_its_host_path() {
    for host in ["/srv/v", "/srv/v/a", "/srv/v/a/b.txt"] {
        assert_eq!(join("/srv/v", &relative_to("/srv/v", host)), host);
        assert_eq!(join("/srv/v/", &relative_to("/srv//v", host)), host);
    }
}

#[test]
fn resolve_wants_an_absolute_join() {
    assert_eq!(resolve("..", ""), None);
    assert_eq!(resolve(".", "a"), None);
    assert_eq!(resolve("a", "../.."), None);
    assert_eq!(resolve("srv/v", "a"), None);
}

#[test]
fn resolve_takes_the_empty_root_for_the_host_root() {
    assert_eq!(resolve("", "a"), Some("/a".to_string()));
    assert_eq!(resolve("", ".."), Some("/".to_string()));
}

#[test]
fn resolve_stays_at_the_host_root() {
    assert_eq!(resolve("/", ".."), Some("/".to_string()));
    assert_eq!(resolve("/", "../a/../../b"), Some("/b".to_string()));
    assert_eq!(resolve("/srv", "../../../x/./y//"), Some("/x/y".to_string()));
}

#[test]
fn resolve_leaves_a_canonical_path_as_it_is() {
    assert_eq!(resolve("/srv/v", ""), Some("/srv/v".to_string()));
    assert_eq!(resolve("/srv/v", "a/b...c/..d"), Some("/srv/v/a/b...c/..d".to_string()));
}
