use autotiling::filter::{focused_workspace_name, workspace_allowed, WorkspaceInfo};

fn ws(name: &str, focused: bool) -> WorkspaceInfo {
    WorkspaceInfo {
        name: String::from(name),
        focused,
    }
}

#[test]
fn finds_the_focused_workspace() {
    let list = vec![ws("1", false), ws("dev", true), ws("web", false)];
    assert_eq!(focused_workspace_name(&list), Some(String::from("dev")));
}

#[test]
fn first_focused_workspace_wins() {
    let list = vec![ws("a", true), ws("b", true)];
    assert_eq!(focused_workspace_name(&list), Some(String::from("a")));
}

#[test]
fn no_focused_workspace_yields_none() {
    let list = vec![ws("1", false), ws("2", false)];
    assert_eq!(focused_workspace_name(&list), None);
    assert_eq!(focused_workspace_name(&Vec::new()), None);
}

#[test]
fn empty_allow_list_allows_everything() {
    assert!(workspace_allowed(&Vec::new(), &Some(String::from("x"))));
    assert!(workspace_allowed(&Vec::new(), &None));
}

#[test]
fn allow_list_matches_exact_names() {
    let allow = vec![String::from("dev"), String::from("web")];
    assert!(workspace_allowed(&allow, &Some(String::from("dev"))));
    assert!(workspace_allowed(&allow, &Some(String::from("web"))));
    assert!(!workspace_allowed(&allow, &Some(String::from("De"))));
    assert!(!workspace_allowed(&allow, &Some(String::from("devv"))));
    assert!(!workspace_allowed(&allow, &None));
}
