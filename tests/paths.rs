use agent::paths::{join_path, remainder_after, starts_with_path};

#[test]
fn ancestor_on_component_boundary() {
    assert!(starts_with_path("C:\\Users\\me\\AppData\\x", "C:\\Users\\me\\AppData"));
    assert!(starts_with_path("C:\\Users\\me\\AppData", "C:\\Users\\me\\AppData"));
    assert!(starts_with_path("/a/b/c", "/a/"));
    assert!(starts_with_path("anything", ""));
}

#[test]
fn textual_prefix_inside_component_is_no_ancestor() {
    assert!(!starts_with_path("C:\\Users\\me\\AppDataX\\f", "C:\\Users\\me\\AppData"));
    assert!(!starts_with_path("C:\\Users", "C:\\Users\\me"));
    assert!(!starts_with_path("c:\\users\\me", "C:\\Users\\me"));
}

#[test]
fn remainder_drops_leading_separators() {
    assert_eq!(remainder_after("C:\\a\\\\b\\c", "C:\\a"), "b\\c");
    assert_eq!(remainder_after("/x/y", "/x/y"), "");
    assert_eq!(remainder_after("/x/y", "/x/"), "y");
}

#[test]
fn join_uses_the_base_separator() {
    assert_eq!(join_path("R", "user/AppData/Roaming"), "R/user/AppData/Roaming");
    assert_eq!(join_path("R\\user\\AppData", "Local\\x.dat"), "R\\user\\AppData\\Local\\x.dat");
    assert_eq!(join_path("C:\\c1\\", "temp"), "C:\\c1\\temp");
    assert_eq!(join_path("/srv/c1", "temp"), "/srv/c1/temp");
}

#[test]
fn join_edge_cases() {
    assert_eq!(join_path("R", ""), "R");
    assert_eq!(join_path("", "temp"), "temp");
    assert_eq!(join_path("R", "D:\\Apps"), "D:\\Apps");
    assert_eq!(join_path("R", "/abs"), "/abs");
}
