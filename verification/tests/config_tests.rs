use ghall::config::{
    default_sort_column, default_true, find_column, join_path, Column, Config, IgnoredSet,
};

#[test]
fn default_order_lists_all_columns() {
    let cols = Column::default_order();
    assert_eq!(cols.len(), 10);
    assert!(cols[0] == Column::Origin);
    assert!(cols[1] == Column::Repository);
    assert!(cols[9] == Column::Path);
}

#[test]
fn column_names_and_widths() {
    assert_eq!(Column::Archived.name(), "Arch");
    assert_eq!(Column::Private.name(), "Priv");
    assert_eq!(Column::Ghq.name(), "ghq?");
    assert_eq!(Column::Repository.name(), "Repository");
    assert_eq!(Column::Origin.width(), 18);
    assert_eq!(Column::Repository.width(), 24);
    assert_eq!(Column::Type.width(), 20);
    assert_eq!(Column::Updated.width(), 16);
    assert_eq!(Column::Status.width(), 14);
    assert_eq!(Column::Dirty.width(), 11);
    assert_eq!(Column::Path.width(), 0);
}

#[test]
fn default_config() {
    let c = Config::default();
    assert!(c.ignored_repos.is_empty());
    assert_eq!(c.columns.len(), 10);
    assert_eq!(c.sort_column, "updated");
    assert!(!c.sort_ascending);
    assert!(c.show_archived);
    assert!(c.show_private);
    assert_eq!(default_sort_column(), "updated");
    assert!(default_true());
}

#[test]
fn find_column_gives_first_position() {
    let cols = [Column::Path, Column::Origin, Column::Path];
    assert_eq!(find_column(&cols, Column::Path), Some(0));
    assert_eq!(find_column(&cols, Column::Origin), Some(1));
    assert_eq!(find_column(&cols, Column::Ghq), None);
    assert_eq!(find_column(&[], Column::Ghq), None);
}

#[test]
fn move_column_left_swaps_with_neighbour() {
    let mut c = Config::default();
    c.move_column_left(Column::Repository);
    assert!(c.columns[0] == Column::Repository);
    assert!(c.columns[1] == Column::Origin);
    // the first stays
    c.move_column_left(Column::Repository);
    assert!(c.columns[0] == Column::Repository);
    assert_eq!(c.columns.len(), 10);
}

#[test]
fn move_column_right_swaps_with_neighbour() {
    let mut c = Config::default();
    c.move_column_right(Column::Dirty);
    assert!(c.columns[9] == Column::Dirty);
    assert!(c.columns[8] == Column::Path);
    // the last stays
    c.move_column_right(Column::Dirty);
    assert!(c.columns[9] == Column::Dirty);
}

#[test]
fn move_column_that_is_not_shown_changes_nothing() {
    let mut c = Config::default();
    c.columns = vec![Column::Origin, Column::Path];
    c.move_column_left(Column::Ghq);
    c.move_column_right(Column::Ghq);
    assert!(c.columns == vec![Column::Origin, Column::Path]);
}

#[test]
fn ignored_set_holds_each_identity_once() {
    let mut s = IgnoredSet::new();
    assert!(s.is_empty());
    assert!(s.insert("b".to_string()));
    assert!(s.insert("a".to_string()));
    assert!(!s.insert("b".to_string()));
    assert_eq!(s.len(), 2);
    assert!(s.contains("a"));
    assert!(!s.contains("c"));
    assert_eq!(s.items(), &vec!["b".to_string(), "a".to_string()]);
    assert!(s.remove("b"));
    assert!(!s.remove("b"));
    assert!(!s.contains("b"));
    assert_eq!(s.items(), &vec!["a".to_string()]);
}

#[test]
fn join_path_adds_one_separator() {
    assert_eq!(join_path("/a", "b"), "/a/b");
    assert_eq!(join_path("/a/", "b"), "/a/b");
    assert_eq!(join_path("", "b"), "b");
    assert_eq!(join_path(".", "ghall"), "./ghall");
}

#[test]
fn config_dir_is_below_platform_folder() {
    assert_eq!(Config::config_dir_in(Some("/home/u/.config".to_string())), "/home/u/.config/ghall");
    assert_eq!(Config::config_dir_in(None), "./ghall");
}

#[test]
fn config_paths_end_as_expected() {
    assert!(Config::config_dir().ends_with("ghall"));
    assert!(Config::config_path().ends_with("ghall/config.toml"));
}

#[test]
fn legacy_list_becomes_ignored_set() {
    let c = Config::from_ignored_list("one\ntwo\r\none\n");
    assert_eq!(c.ignored_repos.items(), &vec!["one".to_string(), "two".to_string()]);
    assert_eq!(c.sort_column, "updated");
    assert!(c.show_archived);
    let empty = Config::from_ignored_list("");
    assert!(empty.ignored_repos.is_empty());
}

#[test]
fn ignored_set_never_holds_an_identity_twice() {
    let mut s = IgnoredSet::new();
    for id in ["a", "b", "a", "c", "b", "a", "", ""] {
        s.insert(id.to_string());
    }
    assert_eq!(s.items(), &vec!["a".to_string(), "b".to_string(), "c".to_string(), String::new()]);
    assert!(s.remove("a"));
    assert!(s.insert("a".to_string()));
    assert!(!s.insert("a".to_string()));
    assert_eq!(s.items(), &vec!["b".to_string(), "c".to_string(), String::new(), "a".to_string()]);
    let mut seen = s.items().clone();
    seen.sort();
    seen.dedup();
    assert_eq!(seen.len(), s.len());
}

#[test]
fn ignored_set_from_list_keeps_first_occurrences() {
    let names: Vec<String> = ["b", "a", "b", "c", "a", ""].iter().map(|s| s.to_string()).collect();
    let s = IgnoredSet::from_list(&names);
    assert_eq!(s.items(), &vec!["b".to_string(), "a".to_string(), "c".to_string(), String::new()]);
    assert!(IgnoredSet::from_list(&Vec::new()).is_empty());
}

#[test]
fn ignored_set_from_names_is_in_byte_order() {
    let names: Vec<String> = ["b", "a", "B", "c", "a", "ä"].iter().map(|s| s.to_string()).collect();
    let s = IgnoredSet::from_names(&names);
    assert_eq!(
        s.items(),
        &vec!["B".to_string(), "a".to_string(), "b".to_string(), "c".to_string(), "ä".to_string()]
    );
    let mut turned = names.clone();
    turned.reverse();
    assert_eq!(IgnoredSet::from_names(&turned).items(), s.items());
}

#[test]
fn legacy_list_keeps_the_order_of_its_lines() {
    let c = Config::from_ignored_list("z\na\nz\nm");
    assert_eq!(c.ignored_repos.items(), &vec!["z".to_string(), "a".to_string(), "m".to_string()]);
}
