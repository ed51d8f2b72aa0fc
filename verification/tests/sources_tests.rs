use songbreeze::sources::SourceTabState;

fn tab_with(paths: &[&str]) -> SourceTabState {
    let doc = format!(
        "{{\"sources\": [{}]}}",
        paths.iter().map(|p| format!("\"{}\"", p)).collect::<Vec<_>>().join(", ")
    );
    let mut tab = SourceTabState::new();
    tab.load_sources(&doc).unwrap();
    tab
}

fn selection_consistent(tab: &SourceTabState) -> bool {
    match tab.sources_list_state.selected {
        None => tab.source_db.sources.is_empty(),
        Some(i) => i < tab.source_db.sources.len(),
    }
}

#[test]
fn load_selects_first_source() {
    let tab = tab_with(&["/a", "/b"]);
    assert_eq!(tab.sources_list_state.selected, Some(0));
}

#[test]
fn load_of_empty_list_selects_nothing() {
    let tab = tab_with(&[]);
    assert_eq!(tab.sources_list_state.selected, None);
}

#[test]
fn select_next_wraps_back_after_full_cycle() {
    let mut tab = tab_with(&["/a", "/b", "/c"]);
    tab.select_next();
    assert_eq!(tab.sources_list_state.selected, Some(1));
    tab.select_next();
    assert_eq!(tab.sources_list_state.selected, Some(2));
    tab.select_next();
    assert_eq!(tab.sources_list_state.selected, Some(0));
}

#[test]
fn select_previous_wraps_to_last() {
    let mut tab = tab_with(&["/a", "/b", "/c"]);
    tab.select_previous();
    assert_eq!(tab.sources_list_state.selected, Some(2));
    tab.select_previous();
    assert_eq!(tab.sources_list_state.selected, Some(1));
    tab.select_previous();
    assert_eq!(tab.sources_list_state.selected, Some(0));
}

#[test]
fn single_element_navigation_is_identity() {
    let mut tab = tab_with(&["/only"]);
    tab.select_next();
    assert_eq!(tab.sources_list_state.selected, Some(0));
    tab.select_previous();
    assert_eq!(tab.sources_list_state.selected, Some(0));
}

#[test]
fn navigation_on_empty_list_is_a_no_op() {
    let mut tab = tab_with(&[]);
    tab.select_next();
    assert_eq!(tab.sources_list_state.selected, None);
    tab.select_previous();
    assert_eq!(tab.sources_list_state.selected, None);
}

#[test]
fn add_to_empty_list_selects_the_new_tail() {
    let mut tab = tab_with(&[]);
    let r = tab.add_source("/new".to_string());
    assert!(r.is_some());
    assert_eq!(tab.sources_list_state.selected, Some(0));
    assert_eq!(tab.cloned_sources(), vec!["/new".to_string()]);
}

#[test]
fn delete_reselects_the_last_element() {
    let mut tab = tab_with(&["/a", "/b", "/c"]);
    let r = tab.delete_current_selected_source();
    assert!(r.is_some());
    assert_eq!(tab.cloned_sources(), vec!["/b".to_string(), "/c".to_string()]);
    assert_eq!(tab.sources_list_state.selected, Some(1));
}

#[test]
fn delete_last_remaining_element_clears_selection() {
    let mut tab = tab_with(&["/a"]);
    tab.delete_current_selected_source();
    assert_eq!(tab.sources_list_state.selected, None);
    assert!(tab.cloned_sources().is_empty());
}

#[test]
fn delete_with_nothing_selected_is_a_no_op() {
    let mut tab = tab_with(&[]);
    let r = tab.delete_current_selected_source();
    assert!(r.is_none());
}

#[test]
fn selection_stays_consistent_over_mutations() {
    let mut tab = tab_with(&[]);
    assert!(selection_consistent(&tab));
    tab.add_source("/a".to_string());
    assert!(selection_consistent(&tab));
    tab.add_source("/b".to_string());
    assert!(selection_consistent(&tab));
    tab.select_next();
    assert!(selection_consistent(&tab));
    tab.delete_current_selected_source();
    assert!(selection_consistent(&tab));
    tab.delete_current_selected_source();
    assert!(selection_consistent(&tab));
    tab.add_source(String::new());
    assert!(selection_consistent(&tab));
    tab.add_source("/c".to_string());
    assert!(selection_consistent(&tab));
}
