use songbreeze::dispatch::{App, KeyCode, KeyInput, KeyMods};
use songbreeze::global::InputMode;
use songbreeze::home::HomeTabStateFocus;
use songbreeze::store::Source;

fn plain(code: KeyCode) -> KeyInput {
    KeyInput { code, mods: KeyMods::Plain }
}

fn press(app: &mut App, c: char) -> songbreeze::dispatch::Effects {
    app.handle_key(plain(KeyCode::Char(c)))
}

fn type_text(app: &mut App, text: &str) {
    for c in text.chars() {
        press(app, c);
    }
}

fn fresh_app(sources_doc: &str) -> App {
    let mut app = App::new();
    app.global.set_tab_titles(vec![
        "Home".to_string(),
        "Sources".to_string(),
        "Settings".to_string(),
    ]);
    app.home.load_data(vec![]);
    app.sources.load_sources(sources_doc).unwrap();
    app
}

#[test]
fn quit_requires_the_control_modifier() {
    let mut app = fresh_app(r#"{"sources": []}"#);
    let eff = app.handle_key(KeyInput { code: KeyCode::Char('q'), mods: KeyMods::Control });
    assert!(eff.quit);
    let eff2 = press(&mut app, 'q');
    assert!(!eff2.quit);
}

#[test]
fn unknown_keys_are_ignored() {
    let mut app = fresh_app(r#"{"sources": ["/a"]}"#);
    let eff = app.handle_key(plain(KeyCode::Other));
    assert!(!eff.quit && !eff.show_cursor && !eff.hide_cursor && eff.persist.is_none());
    let eff2 = press(&mut app, 'z');
    assert!(eff2.persist.is_none());
    assert_eq!(app.sources.cloned_sources(), vec!["/a".to_string()]);
}

#[test]
fn tab_keys_move_the_tab_selection() {
    let mut app = fresh_app(r#"{"sources": []}"#);
    press(&mut app, 'l');
    assert_eq!(app.global.get_selected_tab_idx(), Some(1));
    press(&mut app, 'h');
    assert_eq!(app.global.get_selected_tab_idx(), Some(0));
    press(&mut app, 'h');
    assert_eq!(app.global.get_selected_tab_idx(), Some(2));
}

#[test]
fn add_key_only_works_on_the_sources_tab() {
    let mut app = fresh_app(r#"{"sources": []}"#);
    let eff = press(&mut app, 'a');
    assert_eq!(app.global.input_mode, InputMode::Normal);
    assert!(!eff.show_cursor);
    press(&mut app, 'l');
    let eff2 = press(&mut app, 'a');
    assert_eq!(app.global.input_mode, InputMode::Edit);
    assert!(eff2.show_cursor);
}

#[test]
fn escape_discards_the_buffer_without_appending() {
    let mut app = fresh_app(r#"{"sources": ["/a"]}"#);
    press(&mut app, 'l');
    press(&mut app, 'a');
    type_text(&mut app, "/discarded");
    let eff = app.handle_key(plain(KeyCode::Esc));
    assert!(eff.hide_cursor);
    assert!(eff.persist.is_none());
    assert_eq!(app.global.input_mode, InputMode::Normal);
    assert_eq!(app.global.input_string(), "");
    assert_eq!(app.sources.cloned_sources(), vec!["/a".to_string()]);
}

#[test]
fn committing_an_empty_buffer_appends_nothing() {
    let mut app = fresh_app(r#"{"sources": ["/a"]}"#);
    press(&mut app, 'l');
    press(&mut app, 'a');
    let eff = app.handle_key(plain(KeyCode::Enter));
    assert!(eff.hide_cursor);
    assert!(eff.persist.is_none());
    assert_eq!(app.global.input_mode, InputMode::Normal);
    assert_eq!(app.sources.cloned_sources(), vec!["/a".to_string()]);
}

#[test]
fn backspace_shortens_the_buffer_while_editing() {
    let mut app = fresh_app(r#"{"sources": []}"#);
    press(&mut app, 'l');
    press(&mut app, 'a');
    type_text(&mut app, "/ab");
    app.handle_key(plain(KeyCode::Backspace));
    assert_eq!(app.global.input_string(), "/a");
}

#[test]
fn navigation_keys_drive_the_home_tab_focus() {
    let mut app = fresh_app(r#"{"sources": []}"#);
    press(&mut app, 'i');
    assert_eq!(app.home.focus, HomeTabStateFocus::Left);
    press(&mut app, 'j');
    assert_eq!(app.home.playlists_state.selected, Some(0));
    press(&mut app, 'k');
    assert_eq!(app.home.playlists_state.selected, Some(0));
}

#[test]
fn add_type_commit_then_delete_scenario() {
    let mut app = fresh_app(r#"{"sources": ["~/music"]}"#);
    press(&mut app, 'l');
    assert_eq!(app.global.get_selected_tab_idx(), Some(1));

    press(&mut app, 'a');
    assert_eq!(app.global.input_mode, InputMode::Edit);
    type_text(&mut app, "/home/x");
    let eff = app.handle_key(plain(KeyCode::Enter));
    assert_eq!(app.global.input_mode, InputMode::Normal);
    assert!(eff.hide_cursor);
    assert_eq!(
        app.sources.cloned_sources(),
        vec!["~/music".to_string(), "/home/x".to_string()]
    );
    let persisted = Source::load(&eff.persist.unwrap()).unwrap();
    assert_eq!(persisted.sources, app.sources.cloned_sources());

    press(&mut app, 'j');
    assert_eq!(app.sources.sources_list_state.selected, Some(1));

    let eff2 = press(&mut app, 'd');
    assert_eq!(app.sources.cloned_sources(), vec!["~/music".to_string()]);
    assert_eq!(app.sources.sources_list_state.selected, Some(0));
    let persisted2 = Source::load(&eff2.persist.unwrap()).unwrap();
    assert_eq!(persisted2.sources, vec!["~/music".to_string()]);
}
