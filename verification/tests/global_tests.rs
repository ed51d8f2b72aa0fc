use songbreeze::global::GlobalState;

fn with_tabs() -> GlobalState {
    let mut g = GlobalState::new();
    g.set_tab_titles(vec!["Home".to_string(), "Sources".to_string(), "Settings".to_string()]);
    g
}

#[test]
fn set_tab_titles_selects_the_first_tab() {
    let g = with_tabs();
    assert_eq!(g.get_selected_tab_idx(), Some(0));
    assert_eq!(
        g.cloned_tab_titles(),
        vec!["Home".to_string(), "Sources".to_string(), "Settings".to_string()]
    );
}

#[test]
fn tab_navigation_wraps_both_ways() {
    let mut g = with_tabs();
    g.go_previous_tab();
    assert_eq!(g.get_selected_tab_idx(), Some(2));
    g.go_next_tab();
    assert_eq!(g.get_selected_tab_idx(), Some(0));
    g.go_next_tab();
    g.go_next_tab();
    g.go_next_tab();
    assert_eq!(g.get_selected_tab_idx(), Some(0));
}

#[test]
fn set_selected_tab_idx_out_of_range_unsets() {
    let mut g = with_tabs();
    g.set_selected_tab_idx(2);
    assert_eq!(g.get_selected_tab_idx(), Some(2));
    g.set_selected_tab_idx(3);
    assert_eq!(g.get_selected_tab_idx(), None);
}

#[test]
fn edit_buffer_reads_back_exactly_what_was_pushed() {
    let mut g = GlobalState::new();
    for c in ['h', 'e', 'l', 'l', 'o'] {
        g.push_input(c);
    }
    assert_eq!(g.input_string(), "hello");
}

#[test]
fn backspace_once_per_character_empties_the_buffer() {
    let mut g = GlobalState::new();
    for c in ['a', 'b', 'c'] {
        g.push_input(c);
    }
    g.backspace_input();
    assert_eq!(g.input_string(), "ab");
    g.backspace_input();
    g.backspace_input();
    assert_eq!(g.input_string(), "");
    g.backspace_input();
    assert_eq!(g.input_string(), "");
}

#[test]
fn clear_empties_the_buffer() {
    let mut g = GlobalState::new();
    g.push_input('x');
    g.clear_input();
    assert_eq!(g.input_string(), "");
}

#[test]
fn cursor_position_within_the_visible_rows() {
    let mut g = GlobalState::new();
    for _ in 0..25 {
        g.push_input('x');
    }
    let p = g.render_position(10);
    assert_eq!(p.row, 2);
    assert_eq!(p.column, 5);
    assert_eq!(p.scroll_offset, 0);
    assert_eq!(p.displayed_row, 2);
}

#[test]
fn cursor_position_scrolls_past_the_fourth_row() {
    let mut g = GlobalState::new();
    for _ in 0..45 {
        g.push_input('x');
    }
    let p = g.render_position(10);
    assert_eq!(p.row, 4);
    assert_eq!(p.column, 5);
    assert_eq!(p.scroll_offset, 1);
    assert_eq!(p.displayed_row, 3);
}

#[test]
fn zero_viewport_width_is_clamped_to_one() {
    let mut g = GlobalState::new();
    for _ in 0..5 {
        g.push_input('x');
    }
    let p = g.render_position(0);
    assert_eq!(p.row, 5);
    assert_eq!(p.column, 0);
    assert_eq!(p.scroll_offset, 2);
    assert_eq!(p.displayed_row, 3);
}
