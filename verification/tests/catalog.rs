use baam_injector::catalog::{AddOutcome, LibraryCatalog};

fn three() -> LibraryCatalog {
    let mut c = LibraryCatalog::new();
    assert_eq!(c.add("a.dll".to_string()), AddOutcome::Added);
    assert_eq!(c.add("b.dll".to_string()), AddOutcome::Added);
    assert_eq!(c.add("c.dll".to_string()), AddOutcome::Added);
    c
}

#[test]
fn new_catalog_is_empty() {
    let c = LibraryCatalog::new();
    assert_eq!(c.len(), 0);
    assert_eq!(c.selected_dll(), None);
    assert_eq!(c.selected_path(), None);
    assert!(c.get_dlls().is_empty());
}

#[test]
fn adding_twice_reports_already_present() {
    let mut c = LibraryCatalog::new();
    assert_eq!(c.add("x.dll".to_string()), AddOutcome::Added);
    let len = c.len();
    assert_eq!(c.add("x.dll".to_string()), AddOutcome::AlreadyPresent);
    assert_eq!(c.len(), len);
    assert_eq!(c.get_dlls(), &vec!["x.dll".to_string()]);
}

#[test]
fn paths_are_compared_exactly() {
    let mut c = LibraryCatalog::new();
    c.add("x.dll".to_string());
    assert_eq!(c.add("X.dll".to_string()), AddOutcome::Added);
    assert!(c.contains(&"x.dll".to_string()));
    assert!(!c.contains(&"y.dll".to_string()));
    assert_eq!(c.len(), 2);
}

#[test]
fn removing_the_selected_entry_clears_the_selection() {
    let mut c = three();
    c.select(Some(1));
    c.remove(1);
    assert_eq!(c.selected_dll(), None);
    assert_eq!(c.get_dlls(), &vec!["a.dll".to_string(), "c.dll".to_string()]);
}

#[test]
fn removing_before_the_selection_moves_it_down() {
    let mut c = three();
    c.select(Some(2));
    assert_eq!(c.selected_path(), Some("c.dll".to_string()));
    c.remove(0);
    assert_eq!(c.selected_dll(), Some(1));
    assert_eq!(c.selected_path(), Some("c.dll".to_string()));
}

#[test]
fn removing_behind_the_selection_leaves_it() {
    let mut c = three();
    c.select(Some(0));
    c.remove(2);
    assert_eq!(c.selected_dll(), Some(0));
    assert_eq!(c.selected_path(), Some("a.dll".to_string()));
}

#[test]
fn select_sets_and_clears() {
    let mut c = three();
    c.select(Some(2));
    assert_eq!(c.selected_dll(), Some(2));
    c.select(None);
    assert_eq!(c.selected_dll(), None);
    assert_eq!(c.selected_path(), None);
}

#[test]
fn adding_keeps_the_selection() {
    let mut c = three();
    c.select(Some(1));
    c.add("d.dll".to_string());
    c.add("a.dll".to_string());
    assert_eq!(c.selected_dll(), Some(1));
    assert_eq!(c.len(), 4);
}
