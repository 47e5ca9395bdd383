use rift_app_indicator::indicator::{
    collect_applications, sort_applications, stable_sort_by_keys, workspace_heading,
    workspace_number, workspace_sections, AppEntry, WindowInfo, WorkspaceInfo,
};
use rift_app_indicator::order::{chars_le, chars_of};
use rift_app_indicator::status_bar::{status_groups, status_layout};

fn win(bundle: Option<&str>, name: Option<&str>) -> WindowInfo {
    WindowInfo { bundle_id: bundle.map(String::from), app_name: name.map(String::from) }
}

fn names(apps: &[AppEntry]) -> Vec<String> {
    apps.iter().map(|a| a.name.clone()).collect()
}

#[test]
fn applications_are_listed_once_by_bundle_or_name() {
    let windows = vec![
        win(Some("com.apple.Safari"), Some("Safari")),
        win(None, None),
        win(Some("com.apple.Safari"), Some("Safari")),
        win(None, Some("Terminal")),
        win(None, Some("Terminal")),
        win(Some("org.example.App"), None),
        win(Some("com.other.Safari"), Some("Safari")),
    ];
    let apps = collect_applications(&windows);
    assert_eq!(names(&apps), vec!["Safari", "Terminal", "org.example.App", "Safari"]);
    assert_eq!(apps[0].bundle_id.as_deref(), Some("com.apple.Safari"));
    assert_eq!(apps[1].bundle_id, None);
    assert_eq!(apps[2].bundle_id.as_deref(), Some("org.example.App"));
    assert_eq!(apps[3].bundle_id.as_deref(), Some("com.other.Safari"));
}

#[test]
fn a_name_matching_another_bundle_id_is_the_same_key() {
    let windows = vec![win(Some("Mail"), Some("Apple Mail")), win(None, Some("Mail"))];
    let apps = collect_applications(&windows);
    assert_eq!(names(&apps), vec!["Apple Mail"]);
}

#[test]
fn applications_sort_by_lowercase_name_stably() {
    let apps = vec![
        AppEntry { bundle_id: Some(String::from("b.2")), name: String::from("beta") },
        AppEntry { bundle_id: None, name: String::from("Alpha") },
        AppEntry { bundle_id: Some(String::from("b.1")), name: String::from("Beta") },
        AppEntry { bundle_id: None, name: String::from("alpha2") },
        AppEntry { bundle_id: None, name: String::from("Zed") },
    ];
    let sorted = sort_applications(apps);
    assert_eq!(names(&sorted), vec!["Alpha", "alpha2", "beta", "Beta", "Zed"]);
    assert_eq!(sorted[2].bundle_id.as_deref(), Some("b.2"));
    assert_eq!(sorted[3].bundle_id.as_deref(), Some("b.1"));
}

#[test]
fn stable_sort_by_given_keys() {
    let apps = vec![
        AppEntry { bundle_id: None, name: String::from("x") },
        AppEntry { bundle_id: None, name: String::from("y") },
        AppEntry { bundle_id: None, name: String::from("z") },
    ];
    let keys = vec![vec!['b'], vec!['a'], vec!['b']];
    assert_eq!(names(&stable_sort_by_keys(apps, keys)), vec!["y", "x", "z"]);
    assert!(sort_applications(Vec::new()).is_empty());
}

#[test]
fn character_order() {
    assert!(chars_le(&chars_of("abc"), &chars_of("abd")));
    assert!(chars_le(&chars_of("ab"), &chars_of("abc")));
    assert!(!chars_le(&chars_of("abc"), &chars_of("ab")));
    assert!(chars_le(&chars_of(""), &chars_of("")));
    assert!(chars_le(&chars_of("Z"), &chars_of("a")));
    assert!(chars_le(&chars_of("z"), &chars_of("\u{e9}")));
}

#[test]
fn headings() {
    assert_eq!(workspace_heading(false, 3, ""), "Workspace 3");
    assert_eq!(workspace_heading(false, 3, "Mail"), "Workspace 3: Mail");
    assert_eq!(workspace_heading(true, 12, "Code"), "\u{25cf} Workspace 12: Code");
    assert_eq!(workspace_heading(true, 1, ""), "\u{25cf} Workspace 1");
}

#[test]
fn workspace_numbers() {
    assert_eq!(workspace_number(0, 5), 1);
    assert_eq!(workspace_number(6, 0), 7);
    assert_eq!(workspace_number(usize::MAX, 4), 5);
}

#[test]
fn sections_list_workspaces_in_order() {
    let workspaces = vec![
        WorkspaceInfo {
            index: 0,
            name: String::from("Web"),
            is_active: true,
            windows: vec![win(None, Some("safari")), win(None, Some("Arc"))],
        },
        WorkspaceInfo { index: 1, name: String::new(), is_active: false, windows: Vec::new() },
    ];
    let sections = workspace_sections(&workspaces);
    assert_eq!(sections.len(), 2);
    assert_eq!(sections[0].number, 1);
    assert_eq!(sections[0].heading, "\u{25cf} Workspace 1: Web");
    assert_eq!(names(&sections[0].applications), vec!["Arc", "safari"]);
    assert_eq!(sections[1].number, 2);
    assert_eq!(sections[1].heading, "Workspace 2");
    assert!(sections[1].applications.is_empty());
}

#[test]
fn status_groups_keep_workspaces_with_icons() {
    let numbers = vec![1, 2, 3];
    let found = vec![vec![true, false, true], vec![false], vec![false, true]];
    let groups = status_groups(&numbers, &found);
    assert_eq!(groups.len(), 2);
    assert_eq!((groups[0].section, groups[0].number), (0, 1));
    assert_eq!(groups[0].members, vec![0, 2]);
    assert_eq!((groups[1].section, groups[1].number), (2, 3));
    assert_eq!(groups[1].members, vec![1]);
    assert!(status_groups(&Vec::new(), &Vec::new()).is_empty());
}

#[test]
fn status_row_layout() {
    let layout = status_layout(&vec![2, 0, 1]);
    assert_eq!(layout.number_x, vec![0, 50, 62]);
    assert_eq!(layout.icon_x, vec![vec![12, 31], vec![], vec![74]]);
    assert_eq!(layout.width, 3 * 12 + 3 * 19);
    let empty = status_layout(&Vec::new());
    assert_eq!(empty.width, 0);
    assert!(empty.number_x.is_empty());
}
