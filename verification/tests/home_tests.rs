use songbreeze::home::{FileProbe, HomeTabState, HomeTabStateFocus, PlayList, Song};

fn probe(exists: bool, name: &str, size: u16, format: &str) -> FileProbe {
    FileProbe { exists, name: name.to_string(), size, format: format.to_string() }
}

fn playlist(name: &str, songs: &[&str]) -> PlayList {
    let entries: Vec<(String, FileProbe)> = songs
        .iter()
        .map(|s| (format!("/music/{}.mp3", s), probe(true, s, 1, "mp3")))
        .collect();
    PlayList::from_probes(name.to_string(), entries)
}

fn loaded(playlists: Vec<PlayList>) -> HomeTabState {
    let mut home = HomeTabState::new();
    home.load_data(playlists);
    home
}

#[test]
fn song_new_keeps_existing_file() {
    let s = Song::new("/music/a.mp3".to_string(), probe(true, "a.mp3", 42, "mp3")).unwrap();
    assert_eq!(s.name, "a.mp3");
    assert_eq!(s.path, "/music/a.mp3");
    assert_eq!(s.size, 42);
    assert_eq!(s.format, "mp3");
}

#[test]
fn song_new_drops_missing_file() {
    let s = Song::new("/music/gone.mp3".to_string(), probe(false, "", 0, ""));
    assert!(s.is_none());
}

#[test]
fn from_probes_keeps_only_existing_paths() {
    let entries = vec![
        ("/music/a.mp3".to_string(), probe(true, "a.mp3", 1, "mp3")),
        ("/music/gone.mp3".to_string(), probe(false, "", 0, "")),
        ("/music/b.flac".to_string(), probe(true, "b.flac", 2, "flac")),
    ];
    let p = PlayList::from_probes("Mix".to_string(), entries);
    assert_eq!(p.name, "Mix");
    assert_eq!(p.songs.len(), 2);
    assert_eq!(p.songs[0].name, "a.mp3");
    assert_eq!(p.songs[1].name, "b.flac");
}

#[test]
fn load_data_adds_default_and_sorts_by_name() {
    let home = loaded(vec![playlist("Zulu", &["z"]), playlist("Alpha", &["a"])]);
    let names: Vec<&str> = home.playlists.iter().map(|p| p.name.as_str()).collect();
    assert_eq!(names, vec!["Default", "Alpha", "Zulu"]);
    assert_eq!(home.playlists_state.selected, Some(0));
    assert_eq!(home.songs_list_states.len(), 3);
    assert!(home.songs_list_states.iter().all(|s| s.selected.is_none()));
}

#[test]
fn load_data_keeps_an_existing_default_first() {
    let home = loaded(vec![playlist("Ambient", &["a"]), playlist("Default", &["d1", "d2"])]);
    let names: Vec<&str> = home.playlists.iter().map(|p| p.name.as_str()).collect();
    assert_eq!(names, vec!["Default", "Ambient"]);
    assert_eq!(home.playlists[0].songs.len(), 2);
}

#[test]
fn load_data_of_nothing_yields_only_default() {
    let home = loaded(vec![]);
    assert_eq!(home.playlists.len(), 1);
    assert_eq!(home.playlists[0].name, "Default");
    assert!(home.playlists[0].songs.is_empty());
}

#[test]
fn playlist_navigation_wraps_after_full_cycle() {
    let mut home = loaded(vec![playlist("A", &[]), playlist("B", &[])]);
    assert_eq!(home.playlists.len(), 3);
    for _ in 0..3 {
        home.select_next_playlist();
    }
    assert_eq!(home.playlists_state.selected, Some(0));
    home.select_previous_playlist();
    assert_eq!(home.playlists_state.selected, Some(2));
}

#[test]
fn enter_on_empty_song_list_changes_nothing() {
    let mut home = loaded(vec![]);
    home.enter_current_playlist_songs_list();
    assert_eq!(home.focus, HomeTabStateFocus::Left);
    assert_eq!(home.songs_list_states[0].selected, None);
}

#[test]
fn enter_and_back_drive_focus_and_song_selection() {
    let mut home = loaded(vec![playlist("Mix", &["a", "b"])]);
    home.select_next_playlist();
    assert_eq!(home.playlists[1].name, "Mix");
    home.enter_current_playlist_songs_list();
    assert_eq!(home.focus, HomeTabStateFocus::Mid);
    assert_eq!(home.songs_list_states[1].selected, Some(0));
    home.back_to_playlists_list();
    assert_eq!(home.focus, HomeTabStateFocus::Left);
    assert_eq!(home.songs_list_states[1].selected, None);
}

#[test]
fn song_navigation_wraps_in_both_directions() {
    let mut home = loaded(vec![playlist("Mix", &["a", "b", "c"])]);
    home.select_next_playlist();
    home.enter_current_playlist_songs_list();
    home.select_next_song();
    home.select_next_song();
    assert_eq!(home.songs_list_states[1].selected, Some(2));
    home.select_next_song();
    assert_eq!(home.songs_list_states[1].selected, Some(0));
    home.select_previous_song();
    assert_eq!(home.songs_list_states[1].selected, Some(2));
}
