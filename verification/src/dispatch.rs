//! The modal input dispatcher: one key press in, one state transition and a
//! set of requested side effects out.
//!
//! The whole key surface is stated as a transition relation: in normal mode,
//! Ctrl+q quits, h/l move the tab selection, j/k move the focused list
//! selection, i/b drill into and out of the selected playlist's songs, a
//! opens the edit overlay on the sources tab, and d deletes the selected
//! source; in edit mode, plain characters extend the buffer, Backspace
//! shortens it, Enter commits the buffer as a new source, and Esc discards
//! it. Every other key is explicitly ignored. The home tab's pane focus
//! persists across tab switches: leaving the home tab and coming back finds
//! the same pane focused.

use vstd::prelude::*;

use crate::global::{GlobalState, InputMode};
use crate::home::{HomeTabState, HomeTabStateFocus};
use crate::selection::{cyc_next, cyc_prev, ListState};
use crate::sources::SourceTabState;
use crate::store::parsed_sources;

verus! {

/// A key press, as handed in by the key-event source: the key itself and
/// which modifier held.
#[derive(Clone, Copy, PartialEq, Eq, Debug)]
pub enum KeyCode {
    /// A character key.
    Char(char),
    /// The Enter key.
    Enter,
    /// The Escape key.
    Esc,
    /// The Backspace key.
    Backspace,
    /// Any other key.
    Other,
}

/// Which modifier held during the key press.
#[derive(Clone, Copy, PartialEq, Eq, Structural, Debug)]
pub enum KeyMods {
    /// No modifier.
    Plain,
    /// The control modifier.
    Control,
    /// Any other modifier combination.
    Other,
}

/// One key press with its modifier.
#[derive(Clone, Copy, PartialEq, Eq, Debug)]
pub struct KeyInput {
    /// The key itself.
    pub code: KeyCode,
    /// The modifier held.
    pub mods: KeyMods,
}

/// The side effects one transition asks of the surrounding event loop.
pub struct Effects {
    /// Terminate the event loop.
    pub quit: bool,
    /// Make the text cursor visible.
    pub show_cursor: bool,
    /// Hide the text cursor.
    pub hide_cursor: bool,
    /// Write this document through to the source-list record.
    pub persist: Option<String>,
}

/// No side effect is requested.
pub open spec fn no_effects(eff: Effects) -> bool {
    &&& eff.quit == false
    &&& eff.show_cursor == false
    &&& eff.hide_cursor == false
    &&& eff.persist is None
}

/// Only termination is requested.
pub open spec fn quit_effects(eff: Effects) -> bool {
    &&& eff.quit == true
    &&& eff.show_cursor == false
    &&& eff.hide_cursor == false
    &&& eff.persist is None
}

/// Only showing the cursor is requested.
pub open spec fn show_cursor_effects(eff: Effects) -> bool {
    &&& eff.quit == false
    &&& eff.show_cursor == true
    &&& eff.hide_cursor == false
    &&& eff.persist is None
}

/// Hiding the cursor is requested; a write-through may accompany it.
pub open spec fn leave_edit_effects(eff: Effects) -> bool {
    &&& eff.quit == false
    &&& eff.show_cursor == false
    &&& eff.hide_cursor == true
}

fn no_effect() -> (r: Effects)
    ensures
        no_effects(r),
{
    Effects { quit: false, show_cursor: false, hide_cursor: false, persist: None }
}

/// The whole application state the dispatcher works on.
pub struct App {
    /// Tabs, mode and the edit buffer.
    pub global: GlobalState,
    /// The home tab.
    pub home: HomeTabState,
    /// The sources tab.
    pub sources: SourceTabState,
}

/// The home tab is the selected tab.
pub open spec fn on_home_tab(pre: App) -> bool {
    pre.global.selected_tab_idx == Option::Some(0usize)
}

/// The sources tab is the selected tab.
pub open spec fn on_sources_tab(pre: App) -> bool {
    pre.global.selected_tab_idx == Option::Some(1usize)
}

/// Nothing changed and nothing was requested: the key was ignored.
pub open spec fn noop_step(pre: App, post: App, eff: Effects) -> bool {
    post == pre && no_effects(eff)
}

/// Only the home tab changed.
pub open spec fn frame_home_only(pre: App, post: App) -> bool {
    &&& post.global == pre.global
    &&& post.sources == pre.sources
}

/// Only the sources tab changed.
pub open spec fn frame_sources_only(pre: App, post: App) -> bool {
    &&& post.global == pre.global
    &&& post.home == pre.home
}

/// Only the tab selection changed.
pub open spec fn frame_tab_nav(pre: App, post: App) -> bool {
    &&& post.home == pre.home
    &&& post.sources == pre.sources
    &&& post.global.tab_titles == pre.global.tab_titles
    &&& post.global.input_mode == pre.global.input_mode
    &&& post.global.input_stream == pre.global.input_stream
}

/// The playlist selection moved one step, by `fwd` forward or backward,
/// wrapping at either end; with no playlists nothing changed.
pub open spec fn playlist_nav_rel(h: HomeTabState, h2: HomeTabState, fwd: bool) -> bool {
    &&& h2.playlists == h.playlists
    &&& h2.songs_list_states == h.songs_list_states
    &&& h2.focus == h.focus
    &&& match h.playlists_state.selected {
        Option::None => h2 == h,
        Option::Some(i) => h2.playlists_state.selected == Option::Some(
            (if fwd {
                cyc_next(i as int, h.playlists@.len() as int)
            } else {
                cyc_prev(i as int, h.playlists@.len() as int)
            }) as usize,
        ),
    }
}

/// The song selection of the selected playlist moved one step, by `fwd`
/// forward or backward, wrapping at either end; an unset song selection moves
/// to the first song, and on an empty song list nothing changed.
pub open spec fn song_nav_rel(h: HomeTabState, h2: HomeTabState, fwd: bool) -> bool {
    &&& h2.playlists == h.playlists
    &&& h2.playlists_state == h.playlists_state
    &&& h2.focus == h.focus
    &&& match h.playlists_state.selected {
        Option::None => h2 == h,
        Option::Some(i) => {
            let n = h.playlists@[i as int].songs@.len() as int;
            if n == 0 {
                h2 == h
            } else {
                h2.songs_list_states@ == h.songs_list_states@.update(
                    i as int,
                    ListState {
                        selected: Option::Some(
                            match h.songs_list_states@[i as int].selected {
                                Option::None => 0usize,
                                Option::Some(s) => (if fwd {
                                    cyc_next(s as int, n)
                                } else {
                                    cyc_prev(s as int, n)
                                }) as usize,
                            },
                        ),
                    },
                )
            }
        },
    }
}

/// Focus drilled into the selected playlist's songs and selected the first
/// one — only if that song list is non-empty; otherwise nothing changed.
pub open spec fn enter_songs_rel(h: HomeTabState, h2: HomeTabState) -> bool {
    &&& h2.playlists == h.playlists
    &&& h2.playlists_state == h.playlists_state
    &&& match h.playlists_state.selected {
        Option::None => h2 == h,
        Option::Some(i) => {
            if h.playlists@[i as int].songs@.len() > 0 {
                &&& h2.focus == HomeTabStateFocus::Mid
                &&& h2.songs_list_states@ == h.songs_list_states@.update(
                    i as int,
                    ListState { selected: Option::Some(0usize) },
                )
            } else {
                h2 == h
            }
        },
    }
}

/// Focus returned to the playlist list and the selected playlist's song
/// selection was cleared.
pub open spec fn back_rel(h: HomeTabState, h2: HomeTabState) -> bool {
    &&& h2.playlists == h.playlists
    &&& h2.playlists_state == h.playlists_state
    &&& h2.focus == HomeTabStateFocus::Left
    &&& match h.playlists_state.selected {
        Option::None => h2.songs_list_states == h.songs_list_states,
        Option::Some(i) => h2.songs_list_states@ == h.songs_list_states@.update(
            i as int,
            ListState { selected: Option::None },
        ),
    }
}

/// The source selection moved one step, by `fwd` forward or backward,
/// wrapping at either end; on an empty list nothing changed.
pub open spec fn source_nav_rel(s: SourceTabState, s2: SourceTabState, fwd: bool) -> bool {
    &&& s2.source_db == s.source_db
    &&& match s.sources_list_state.selected {
        Option::None => s2 == s,
        Option::Some(i) => s2.sources_list_state.selected == Option::Some(
            (if fwd {
                cyc_next(i as int, s.source_db@.len() as int)
            } else {
                cyc_prev(i as int, s.source_db@.len() as int)
            }) as usize,
        ),
    }
}

/// The buffer text was appended as a new source and the document to write
/// through hands back exactly the new list; an empty buffer appended nothing.
pub open spec fn add_source_rel(
    s: SourceTabState,
    s2: SourceTabState,
    text: Seq<char>,
    persist: Option<String>,
) -> bool {
    if text.len() == 0 {
        s2 == s && persist is None
    } else {
        &&& s2.source_db@ == s.source_db@.push(text)
        &&& (persist matches Option::Some(t) && parsed_sources(t@) == Option::Some(s2.source_db@))
        &&& s2.sources_list_state.selected == match s.sources_list_state.selected {
            Option::None => Option::Some(0usize),
            Option::Some(i) => Option::Some(i),
        }
    }
}

/// The selected source was removed, the document to write through hands back
/// exactly the shortened list, and the selection re-derived to the last
/// element or to nothing; with nothing selected nothing changed.
pub open spec fn delete_source_rel(
    s: SourceTabState,
    s2: SourceTabState,
    persist: Option<String>,
) -> bool {
    match s.sources_list_state.selected {
        Option::None => s2 == s && persist is None,
        Option::Some(i) => {
            &&& s2.source_db@ == s.source_db@.remove(i as int)
            &&& (persist matches Option::Some(t) && parsed_sources(t@) == Option::Some(
                s2.source_db@,
            ))
            &&& s2.sources_list_state.selected == if s2.source_db@.len() > 0 {
                Option::Some((s2.source_db@.len() - 1) as usize)
            } else {
                Option::<usize>::None
            }
        },
    }
}

/// The transition table for normal mode.
pub open spec fn step_normal(pre: App, key: KeyInput, post: App, eff: Effects) -> bool {
    match (key.code, key.mods) {
        (KeyCode::Char(c), KeyMods::Control) => {
            if c == 'q' {
                post == pre && quit_effects(eff)
            } else {
                noop_step(pre, post, eff)
            }
        },
        (KeyCode::Char(c), KeyMods::Plain) => {
            if c == 'h' || c == 'l' {
                &&& no_effects(eff)
                &&& frame_tab_nav(pre, post)
                &&& post.global.selected_tab_idx == match pre.global.selected_tab_idx {
                    Option::None => Option::<usize>::None,
                    Option::Some(i) => Option::Some(
                        (if c == 'l' {
                            cyc_next(i as int, pre.global.tab_titles@.len() as int)
                        } else {
                            cyc_prev(i as int, pre.global.tab_titles@.len() as int)
                        }) as usize,
                    ),
                }
            } else if c == 'i' {
                no_effects(eff) && if on_home_tab(pre) && pre.home.focus is Left {
                    frame_home_only(pre, post) && enter_songs_rel(pre.home, post.home)
                } else {
                    post == pre
                }
            } else if c == 'b' {
                no_effects(eff) && if on_home_tab(pre) && pre.home.focus is Mid {
                    frame_home_only(pre, post) && back_rel(pre.home, post.home)
                } else {
                    post == pre
                }
            } else if c == 'j' || c == 'k' {
                no_effects(eff) && if on_home_tab(pre) {
                    match pre.home.focus {
                        HomeTabStateFocus::Left => frame_home_only(pre, post) && playlist_nav_rel(
                            pre.home,
                            post.home,
                            c == 'j',
                        ),
                        HomeTabStateFocus::Mid => frame_home_only(pre, post) && song_nav_rel(
                            pre.home,
                            post.home,
                            c == 'j',
                        ),
                        HomeTabStateFocus::Right => post == pre,
                    }
                } else if on_sources_tab(pre) {
                    frame_sources_only(pre, post) && source_nav_rel(
                        pre.sources,
                        post.sources,
                        c == 'j',
                    )
                } else {
                    post == pre
                }
            } else if c == 'a' {
                if on_sources_tab(pre) {
                    &&& show_cursor_effects(eff)
                    &&& post.home == pre.home
                    &&& post.sources == pre.sources
                    &&& post.global == (GlobalState { input_mode: InputMode::Edit, ..pre.global })
                } else {
                    noop_step(pre, post, eff)
                }
            } else if c == 'd' {
                if on_sources_tab(pre) {
                    &&& eff.quit == false
                    &&& eff.show_cursor == false
                    &&& eff.hide_cursor == false
                    &&& frame_sources_only(pre, post)
                    &&& delete_source_rel(pre.sources, post.sources, eff.persist)
                } else {
                    noop_step(pre, post, eff)
                }
            } else {
                noop_step(pre, post, eff)
            }
        },
        _ => noop_step(pre, post, eff),
    }
}

/// The transition table for edit mode.
pub open spec fn step_edit(pre: App, key: KeyInput, post: App, eff: Effects) -> bool {
    match (key.code, key.mods) {
        (KeyCode::Enter, KeyMods::Plain) => {
            &&& leave_edit_effects(eff)
            &&& post.home == pre.home
            &&& post.global.tab_titles == pre.global.tab_titles
            &&& post.global.selected_tab_idx == pre.global.selected_tab_idx
            &&& post.global.input_mode == InputMode::Normal
            &&& post.global.input_stream@ == Seq::<char>::empty()
            &&& if on_sources_tab(pre) {
                add_source_rel(pre.sources, post.sources, pre.global.input_stream@, eff.persist)
            } else {
                post.sources == pre.sources && eff.persist is None
            }
        },
        (KeyCode::Esc, KeyMods::Plain) => {
            &&& leave_edit_effects(eff)
            &&& eff.persist is None
            &&& post.home == pre.home
            &&& post.sources == pre.sources
            &&& post.global.tab_titles == pre.global.tab_titles
            &&& post.global.selected_tab_idx == pre.global.selected_tab_idx
            &&& post.global.input_mode == InputMode::Normal
            &&& post.global.input_stream@ == Seq::<char>::empty()
        },
        (KeyCode::Char(c), KeyMods::Plain) => {
            &&& no_effects(eff)
            &&& post.home == pre.home
            &&& post.sources == pre.sources
            &&& post.global.tab_titles == pre.global.tab_titles
            &&& post.global.selected_tab_idx == pre.global.selected_tab_idx
            &&& post.global.input_mode == pre.global.input_mode
            &&& post.global.input_stream@ == pre.global.input_stream@.push(c)
        },
        (KeyCode::Backspace, KeyMods::Plain) => {
            &&& no_effects(eff)
            &&& post.home == pre.home
            &&& post.sources == pre.sources
            &&& post.global.tab_titles == pre.global.tab_titles
            &&& post.global.selected_tab_idx == pre.global.selected_tab_idx
            &&& post.global.input_mode == pre.global.input_mode
            &&& post.global.input_stream@ == if pre.global.input_stream@.len() == 0 {
                pre.global.input_stream@
            } else {
                pre.global.input_stream@.drop_last()
            }
        },
        _ => noop_step(pre, post, eff),
    }
}

/// One step of the dispatcher: what a key press does to the whole state and
/// which side effects it requests, depending on the current mode.
pub open spec fn step(pre: App, key: KeyInput, post: App, eff: Effects) -> bool {
    match pre.global.input_mode {
        InputMode::Normal => step_normal(pre, key, post, eff),
        InputMode::Edit => step_edit(pre, key, post, eff),
    }
}

impl App {
    /// All three parts are consistent.
    pub open spec fn wf(&self) -> bool {
        &&& self.global.wf()
        &&& self.home.wf()
        &&& self.sources.wf()
    }

    /// The initial state: normal mode, nothing selected, nothing loaded,
    /// focus on the playlist list, empty edit buffer.
    pub fn new() -> (r: App)
        ensures
            r.wf(),
            r.global.input_mode == InputMode::Normal,
            r.global.selected_tab_idx is None,
            r.global.tab_titles@ =~= Seq::<String>::empty(),
            r.global.input_stream@ =~= Seq::<char>::empty(),
            r.home.focus == HomeTabStateFocus::Left,
            r.home.playlists@ =~= Seq::<crate::home::PlayList>::empty(),
            r.sources.source_db@ =~= Seq::<Seq<char>>::empty(),
    {
        App { global: GlobalState::new(), home: HomeTabState::new(), sources: SourceTabState::new() }
    }

    /// Applies one key press: exactly one transition of the dispatcher's
    /// table, returning the side effects the event loop must perform.
    pub fn handle_key(&mut self, key: KeyInput) -> (eff: Effects)
        requires
            old(self).wf(),
        ensures
            final(self).wf(),
            step(*old(self), key, *final(self), eff),
    {
        match self.global.input_mode {
            InputMode::Normal => self.handle_key_normal(key),
            InputMode::Edit => self.handle_key_edit(key),
        }
    }

    fn handle_key_normal(&mut self, key: KeyInput) -> (eff: Effects)
        requires
            old(self).wf(),
            old(self).global.input_mode == InputMode::Normal,
        ensures
            final(self).wf(),
            step_normal(*old(self), key, *final(self), eff),
    {
        match (key.code, key.mods) {
            (KeyCode::Char(c), KeyMods::Control) => {
                if c == 'q' {
                    Effects { quit: true, show_cursor: false, hide_cursor: false, persist: None }
                } else {
                    no_effect()
                }
            },
            (KeyCode::Char(c), KeyMods::Plain) => {
                if c == 'h' {
                    self.global.go_previous_tab();
                    no_effect()
                } else if c == 'l' {
                    self.global.go_next_tab();
                    no_effect()
                } else if c == 'i' {
                    if let Some(idx) = self.global.get_selected_tab_idx() {
                        if idx == 0 {
                            match self.home.focus {
                                HomeTabStateFocus::Left => {
                                    self.home.enter_current_playlist_songs_list();
                                },
                                HomeTabStateFocus::Mid => {},
                                HomeTabStateFocus::Right => {},
                            }
                        }
                    }
                    no_effect()
                } else if c == 'b' {
                    if let Some(idx) = self.global.get_selected_tab_idx() {
                        if idx == 0 {
                            match self.home.focus {
                                HomeTabStateFocus::Left => {},
                                HomeTabStateFocus::Mid => {
                                    self.home.back_to_playlists_list();
                                },
                                HomeTabStateFocus::Right => {},
                            }
                        }
                    }
                    no_effect()
                } else if c == 'j' {
                    if let Some(idx) = self.global.get_selected_tab_idx() {
                        if idx == 0 {
                            match self.home.focus {
                                HomeTabStateFocus::Left => self.home.select_next_playlist(),
                                HomeTabStateFocus::Mid => self.home.select_next_song(),
                                HomeTabStateFocus::Right => {},
                            }
                        } else if idx == 1 {
                            self.sources.select_next();
                        }
                    }
                    no_effect()
                } else if c == 'k' {
                    if let Some(idx) = self.global.get_selected_tab_idx() {
                        if idx == 0 {
                            match self.home.focus {
                                HomeTabStateFocus::Left => self.home.select_previous_playlist(),
                                HomeTabStateFocus::Mid => self.home.select_previous_song(),
                                HomeTabStateFocus::Right => {},
                            }
                        } else if idx == 1 {
                            self.sources.select_previous();
                        }
                    }
                    no_effect()
                } else if c == 'a' {
                    let mut eff = no_effect();
                    if let Some(idx) = self.global.get_selected_tab_idx() {
                        if idx == 1 {
                            self.global.switch_mode_to_edit();
                            eff.show_cursor = true;
                        }
                    }
                    eff
                } else if c == 'd' {
                    let mut eff = no_effect();
                    if let Some(idx) = self.global.get_selected_tab_idx() {
                        if idx == 1 {
                            eff.persist = self.sources.delete_current_selected_source();
                        }
                    }
                    eff
                } else {
                    no_effect()
                }
            },
            _ => no_effect(),
        }
    }

    fn handle_key_edit(&mut self, key: KeyInput) -> (eff: Effects)
        requires
            old(self).wf(),
            old(self).global.input_mode == InputMode::Edit,
        ensures
            final(self).wf(),
            step_edit(*old(self), key, *final(self), eff),
    {
        match (key.code, key.mods) {
            (KeyCode::Enter, KeyMods::Plain) => {
                let mut eff = Effects {
                    quit: false,
                    show_cursor: false,
                    hide_cursor: true,
                    persist: None,
                };
                if let Some(idx) = self.global.get_selected_tab_idx() {
                    if idx == 1 {
                        let text = self.global.input_string();
                        eff.persist = self.sources.add_source(text);
                    }
                }
                self.global.clear_input();
                self.global.switch_mode_to_normal();
                eff
            },
            (KeyCode::Esc, KeyMods::Plain) => {
                self.global.clear_input();
                self.global.switch_mode_to_normal();
                Effects { quit: false, show_cursor: false, hide_cursor: true, persist: None }
            },
            (KeyCode::Char(c), KeyMods::Plain) => {
                self.global.push_input(c);
                no_effect()
            },
            (KeyCode::Backspace, KeyMods::Plain) => {
                self.global.backspace_input();
                no_effect()
            },
            _ => no_effect(),
        }
    }
}

} // verus!
