//! The home tab: playlists, their songs, and the two coupled selection
//! levels.
//!
//! Loading puts the distinguished "Default" playlist first and orders the
//! remaining playlists by name ascending. Navigation wraps cyclically at
//! either level; drilling into a playlist's songs requires the song list to
//! be non-empty, and drilling back up clears that playlist's song selection.

use vstd::prelude::*;
use vstd::pervasive::VecAdditionalExecFns;
use vstd::seq_lib::group_to_multiset_ensures;
use vstd::string::StringExecFns;

use crate::order::{lemma_lex_le_total, lemma_lex_le_trans, lex_le, str_le};
use crate::selection::{cyc_next, cyc_prev, ListState};

verus! {

/// A song, as derived from one file's probe at load time.
#[derive(PartialEq, Eq, Debug)]
pub struct Song {
    /// The file name.
    pub name: String,
    /// The full path the song was loaded from.
    pub path: String,
    /// The probed size.
    pub size: u16,
    /// The file extension.
    pub format: String,
}

/// What a filesystem probe of one path reports: whether the file exists and,
/// if so, its name, size and extension. The probe itself is made by the
/// caller; the library only decides what to keep.
#[derive(PartialEq, Eq, Debug)]
pub struct FileProbe {
    /// Whether the path names an existing file.
    pub exists: bool,
    /// The file name.
    pub name: String,
    /// The probed size.
    pub size: u16,
    /// The file extension.
    pub format: String,
}

impl Song {
    /// The song a probe yields: a path that does not exist yields none.
    pub fn new(path: String, probe: FileProbe) -> (r: Option<Song>)
        ensures
            match r {
                Option::Some(s) => probe.exists && s.path == path && s.name == probe.name && s.size
                    == probe.size && s.format == probe.format,
                Option::None => !probe.exists,
            },
    {
        if probe.exists {
            Some(Song { name: probe.name, path, size: probe.size, format: probe.format })
        } else {
            None
        }
    }
}

/// A named, ordered collection of songs.
#[derive(PartialEq, Eq, Debug)]
pub struct PlayList {
    /// The playlist's name, its unique key.
    pub name: String,
    /// The playlist's songs, in order.
    pub songs: Vec<Song>,
}

/// The song that a probed path contributes to a playlist.
pub open spec fn song_of_entry(e: (String, FileProbe)) -> Song {
    Song { name: e.1.name, path: e.0, size: e.1.size, format: e.1.format }
}

impl PlayList {
    /// Builds a playlist from probed paths, keeping exactly the paths that
    /// exist, in order; the rest are silently dropped.
    #[verifier::loop_isolation(false)]
    pub fn from_probes(name: String, entries: Vec<(String, FileProbe)>) -> (r: PlayList)
        ensures
            r.name == name,
            r.songs@ == entries@.filter(|e: (String, FileProbe)| e.1.exists).map_values(
                |e: (String, FileProbe)| song_of_entry(e),
            ),
    {
        broadcast use vstd::prelude::Seq::lemma_filter_push;
        broadcast use vstd::prelude::Seq::lemma_push_map_commute;
        broadcast use vstd::prelude::Seq::lemma_take_succ_push;

        let ghost keep = |e: (String, FileProbe)| e.1.exists;
        let ghost to_song = |e: (String, FileProbe)| song_of_entry(e);
        let mut songs: Vec<Song> = Vec::new();
        let mut i: usize = 0;
        proof {
            assert(entries@.take(0int).filter(keep) =~= Seq::<(String, FileProbe)>::empty());
        }
        while i < entries.len()
            invariant
                i <= entries@.len(),
                songs@ == entries@.take(i as int).filter(keep).map_values(to_song),
            decreases entries@.len() - i,
        {
            let ghost entry = entries@[i as int];
            let e = &entries[i];
            let song = Song::new(
                e.0.clone(),
                FileProbe {
                    exists: e.1.exists,
                    name: e.1.name.clone(),
                    size: e.1.size,
                    format: e.1.format.clone(),
                },
            );
            match song {
                Option::Some(s) => songs.push(s),
                Option::None => {},
            }
            proof {
                let pre = entries@.take(i as int);
                assert(entries@.take(i as int + 1) =~= pre.push(entry));
                pre.lemma_filter_push(entry, keep);
                if keep(entry) {
                    pre.filter(keep).lemma_push_map_commute(to_song, entry);
                }
            }
            i += 1;
        }
        proof {
            assert(entries@.take(entries@.len() as int) =~= entries@);
        }
        PlayList { name, songs }
    }
}

/// The name of the distinguished playlist that always exists and always
/// comes first.
pub open spec fn default_playlist_name() -> Seq<char> {
    "Default"@
}

/// The order playlists are kept in: the "Default" playlist before everything,
/// the rest by name ascending.
pub open spec fn playlist_le(a: PlayList, b: PlayList) -> bool {
    ||| a.name@ == default_playlist_name()
    ||| (b.name@ != default_playlist_name() && lex_le(a.name@, b.name@))
}

/// The whole sequence is in playlist order.
pub open spec fn playlists_ordered(s: Seq<PlayList>) -> bool {
    forall|i: int, j: int| 0 <= i < j < s.len() ==> playlist_le(s[i], s[j])
}

/// Some playlist in the sequence is the "Default" playlist.
pub open spec fn contains_default(s: Seq<PlayList>) -> bool {
    exists|i: int| 0 <= i < s.len() && s[i].name@ == default_playlist_name()
}

proof fn lemma_playlist_le_total(a: PlayList, b: PlayList)
    ensures
        playlist_le(a, b) || playlist_le(b, a),
{
    lemma_lex_le_total(a.name@, b.name@);
}

proof fn lemma_playlist_le_trans(a: PlayList, b: PlayList, c: PlayList)
    requires
        playlist_le(a, b),
        playlist_le(b, c),
    ensures
        playlist_le(a, c),
{
    if a.name@ != default_playlist_name() {
        lemma_lex_le_trans(a.name@, b.name@, c.name@);
    }
}

/// True exactly when the name is the distinguished playlist name.
fn is_default_name(s: &String) -> (r: bool)
    ensures
        r == (s@ == default_playlist_name()),
{
    let d: String = String::from_str("Default");
    *s == d
}

/// Whether `a` comes no later than `b` in playlist order.
fn playlist_before(a: &PlayList, b: &PlayList) -> (r: bool)
    ensures
        r == playlist_le(*a, *b),
{
    if is_default_name(&a.name) {
        true
    } else if is_default_name(&b.name) {
        false
    } else {
        str_le(a.name.as_str(), b.name.as_str())
    }
}

/// The position of a least playlist, in playlist order.
fn min_playlist_index(v: &Vec<PlayList>) -> (m: usize)
    requires
        v@.len() > 0,
    ensures
        m < v@.len(),
        forall|l: int| 0 <= l < v@.len() ==> playlist_le(v@[m as int], v@[l]),
{
    let mut m: usize = 0;
    let mut i: usize = 1;
    proof {
        lemma_playlist_le_total(v@[0], v@[0]);
    }
    while i < v.len()
        invariant
            m < i <= v@.len(),
            forall|l: int| 0 <= l < i ==> playlist_le(v@[m as int], v@[l]),
        decreases v@.len() - i,
    {
        if playlist_before(&v[i], &v[m]) {
            proof {
                lemma_playlist_le_total(v@[i as int], v@[i as int]);
                assert forall|l: int| 0 <= l < i implies playlist_le(v@[i as int], v@[l]) by {
                    lemma_playlist_le_trans(v@[i as int], v@[m as int], v@[l]);
                }
            }
            m = i;
        } else {
            proof {
                lemma_playlist_le_total(v@[m as int], v@[i as int]);
            }
        }
        i += 1;
    }
    m
}

/// Sorts playlists into playlist order, keeping exactly the same playlists.
fn sort_playlists(input: Vec<PlayList>) -> (r: Vec<PlayList>)
    ensures
        r@.to_multiset() == input@.to_multiset(),
        playlists_ordered(r@),
{
    broadcast use group_to_multiset_ensures;
    broadcast use vstd::multiset::group_multiset_axioms;

    let mut rest = input;
    let mut out: Vec<PlayList> = Vec::new();
    proof {
        assert(out@.to_multiset().add(rest@.to_multiset()) =~= input@.to_multiset());
    }
    while rest.len() > 0
        invariant
            out@.to_multiset().add(rest@.to_multiset()) == input@.to_multiset(),
            playlists_ordered(out@),
            forall|k: int, l: int|
                0 <= k < out@.len() && 0 <= l < rest@.len() ==> playlist_le(out@[k], rest@[l]),
        decreases rest@.len(),
    {
        broadcast use group_to_multiset_ensures;
        broadcast use vstd::multiset::group_multiset_axioms;

        let ghost old_out = out@;
        let ghost old_rest = rest@;
        let m = min_playlist_index(&rest);
        let ghost xv = rest@[m as int];
        let x = rest.remove(m);
        out.push(x);
        proof {
            assert(old_rest.to_multiset().contains(xv));
            assert(out@.to_multiset().add(rest@.to_multiset()) =~= input@.to_multiset());
            assert forall|i2: int, j2: int| 0 <= i2 < j2 < out@.len() implies playlist_le(
                out@[i2],
                out@[j2],
            ) by {
                if j2 == out@.len() - 1 {
                    assert(playlist_le(old_out[i2], old_rest[m as int]));
                }
            }
            assert forall|k: int, l: int|
                0 <= k < out@.len() && 0 <= l < rest@.len() implies playlist_le(
                out@[k],
                rest@[l],
            ) by {
                let lo = if l < m as int {
                    l
                } else {
                    l + 1
                };
                assert(rest@[l] == old_rest[lo]);
                if k == out@.len() - 1 {
                    assert(playlist_le(xv, old_rest[lo]));
                } else {
                    assert(playlist_le(old_out[k], old_rest[lo]));
                }
            }
        }
    }
    out
}

/// Which pane of the home tab receives navigation keys.
#[derive(Clone, Copy, PartialEq, Eq, Structural, Debug)]
pub enum HomeTabStateFocus {
    /// The playlist list.
    Left,
    /// The song list of the selected playlist.
    Mid,
    /// The song-detail pane.
    Right,
}

/// State of the home tab: the playlists, the selection into them, one song
/// selection per playlist (aligned by position), and the focused pane.
pub struct HomeTabState {
    /// The playlists, in playlist order after loading.
    pub playlists: Vec<PlayList>,
    /// The selection into the playlist list.
    pub playlists_state: ListState,
    /// One song-list selection per playlist, aligned by position.
    pub songs_list_states: Vec<ListState>,
    /// The focused pane.
    pub focus: HomeTabStateFocus,
}

impl HomeTabState {
    /// There is one song selection per playlist; the playlist selection is
    /// unset exactly while there are no playlists, and a valid index
    /// otherwise; and each song selection is unset or a valid index into its
    /// playlist's songs.
    pub open spec fn wf(&self) -> bool {
        &&& self.songs_list_states@.len() == self.playlists@.len()
        &&& self.playlists_state.consistent_with(self.playlists@.len())
        &&& forall|j: int|
            0 <= j < self.playlists@.len() ==> self.songs_list_states@[j].in_bounds(
                self.playlists@[j].songs@.len(),
            )
    }

    /// An empty home tab: no playlists, nothing selected, focus on the
    /// playlist list.
    pub fn new() -> (r: Self)
        ensures
            r.playlists@ =~= Seq::<PlayList>::empty(),
            r.playlists_state.selected is None,
            r.songs_list_states@ =~= Seq::<ListState>::empty(),
            r.focus == HomeTabStateFocus::Left,
            r.wf(),
    {
        HomeTabState {
            playlists: Vec::new(),
            playlists_state: ListState::default(),
            songs_list_states: Vec::new(),
            focus: HomeTabStateFocus::Left,
        }
    }

    /// Installs the loaded playlists: adds the "Default" playlist when it is
    /// absent, orders everything with "Default" first and the rest by name
    /// ascending, selects the first playlist, and resets every song selection.
    pub fn load_data(&mut self, input: Vec<PlayList>)
        ensures
            final(self).wf(),
            playlists_ordered(final(self).playlists@),
            contains_default(final(self).playlists@),
            final(self).playlists@.len() > 0,
            final(self).playlists@[0].name@ == default_playlist_name(),
            contains_default(input@) ==> final(self).playlists@.to_multiset()
                == input@.to_multiset(),
            !contains_default(input@) ==> exists|d: PlayList|
                d.name@ == default_playlist_name() && d.songs@ =~= Seq::<Song>::empty()
                    && final(self).playlists@.to_multiset() == input@.to_multiset().insert(d),
            final(self).playlists_state.selected == Option::Some(0usize),
            final(self).songs_list_states@.len() == final(self).playlists@.len(),
            forall|j: int|
                0 <= j < final(self).songs_list_states@.len() ==> final(self)
                    .songs_list_states@[j].selected is None,
            final(self).focus == old(self).focus,
    {
        broadcast use group_to_multiset_ensures;
        broadcast use vstd::multiset::group_multiset_axioms;

        let mut input = input;
        let mut include_default = false;
        let mut i: usize = 0;
        while i < input.len()
            invariant
                i <= input@.len(),
                include_default == exists|j: int|
                    0 <= j < i && input@[j].name@ == default_playlist_name(),
            decreases input@.len() - i,
        {
            if is_default_name(&input[i].name) {
                include_default = true;
            }
            i += 1;
        }
        let ghost given = input@;
        if !include_default {
            let d = PlayList { name: String::from_str("Default"), songs: Vec::new() };
            input.push(d);
        }
        let ghost with_d = input@;
        let sorted = sort_playlists(input);
        self.playlists = sorted;
        self.playlists_state.select(Some(0));
        let mut states: Vec<ListState> = Vec::new();
        while states.len() < self.playlists.len()
            invariant
                states@.len() <= self.playlists@.len(),
                forall|j: int| 0 <= j < states@.len() ==> states@[j].selected is None,
            decreases self.playlists@.len() - states@.len(),
        {
            states.push(ListState::default());
        }
        self.songs_list_states = states;
        proof {
            if !contains_default(given) {
                assert(with_d =~= given.push(with_d.last()));
                assert(self.playlists@.to_multiset() == given.to_multiset().insert(with_d.last()));
            }
            assert(contains_default(with_d)) by {
                if contains_default(given) {
                    let j = choose|j: int|
                        0 <= j < given.len() && given[j].name@ == default_playlist_name();
                    assert(with_d[j].name@ == default_playlist_name());
                } else {
                    assert(with_d.last().name@ == default_playlist_name());
                }
            }
            assert(contains_default(self.playlists@)) by {
                let j = choose|j: int|
                    0 <= j < with_d.len() && with_d[j].name@ == default_playlist_name();
                assert(with_d.to_multiset().contains(with_d[j]));
                assert(self.playlists@.to_multiset().contains(with_d[j]));
                assert(self.playlists@.contains(with_d[j]));
            }
            assert(self.playlists@.len() > 0) by {
                assert(self.playlists@.to_multiset().len() == with_d.to_multiset().len());
            }
            assert(self.playlists@[0].name@ == default_playlist_name()) by {
                let j = choose|j: int|
                    0 <= j < self.playlists@.len() && self.playlists@[j].name@
                        == default_playlist_name();
                if j != 0 {
                    assert(playlist_le(self.playlists@[0], self.playlists@[j]));
                }
            }
        }
    }

    /// Moves the playlist selection one step forward, wrapping from the last
    /// playlist to the first; with no playlists nothing changes.
    pub fn select_next_playlist(&mut self)
        requires
            old(self).wf(),
        ensures
            final(self).wf(),
            final(self).playlists == old(self).playlists,
            final(self).songs_list_states == old(self).songs_list_states,
            final(self).focus == old(self).focus,
            match old(self).playlists_state.selected {
                Option::None => *final(self) == *old(self),
                Option::Some(i) => final(self).playlists_state.selected == Option::Some(
                    cyc_next(i as int, old(self).playlists@.len() as int) as usize,
                ),
            },
    {
        let idx = match self.playlists_state.selected() {
            Some(i) => i,
            None => {
                return ;
            },
        };
        let n = self.playlists.len();
        if idx + 1 < n {
            self.playlists_state.select(Some(idx + 1));
        } else {
            self.playlists_state.select(Some(0));
        }
    }

    /// Moves the playlist selection one step backward, wrapping from the
    /// first playlist to the last; with no playlists nothing changes.
    pub fn select_previous_playlist(&mut self)
        requires
            old(self).wf(),
        ensures
            final(self).wf(),
            final(self).playlists == old(self).playlists,
            final(self).songs_list_states == old(self).songs_list_states,
            final(self).focus == old(self).focus,
            match old(self).playlists_state.selected {
                Option::None => *final(self) == *old(self),
                Option::Some(i) => final(self).playlists_state.selected == Option::Some(
                    cyc_prev(i as int, old(self).playlists@.len() as int) as usize,
                ),
            },
    {
        let idx = match self.playlists_state.selected() {
            Some(i) => i,
            None => {
                return ;
            },
        };
        if idx > 0 {
            self.playlists_state.select(Some(idx - 1));
        } else {
            self.playlists_state.select(Some(self.playlists.len() - 1));
        }
    }

    /// Drills into the selected playlist's song list: only when that list is
    /// non-empty, focus moves to it and its first song is selected; on an
    /// empty song list neither the focus nor any selection changes.
    pub fn enter_current_playlist_songs_list(&mut self)
        requires
            old(self).wf(),
        ensures
            final(self).wf(),
            final(self).playlists == old(self).playlists,
            final(self).playlists_state == old(self).playlists_state,
            match old(self).playlists_state.selected {
                Option::None => *final(self) == *old(self),
                Option::Some(i) => {
                    if old(self).playlists@[i as int].songs@.len() > 0 {
                        &&& final(self).focus == HomeTabStateFocus::Mid
                        &&& final(self).songs_list_states@ == old(self).songs_list_states@.update(
                            i as int,
                            ListState { selected: Option::Some(0usize) },
                        )
                    } else {
                        *final(self) == *old(self)
                    }
                },
            },
    {
        let idx = match self.playlists_state.selected() {
            Some(i) => i,
            None => {
                return ;
            },
        };
        if self.playlists[idx].songs.len() > 0 {
            self.focus = HomeTabStateFocus::Mid;
            self.songs_list_states.set(idx, ListState { selected: Some(0) });
        }
    }

    /// Drills back up to the playlist list: focus returns to it, and the
    /// selected playlist's song selection is cleared.
    pub fn back_to_playlists_list(&mut self)
        requires
            old(self).wf(),
        ensures
            final(self).wf(),
            final(self).playlists == old(self).playlists,
            final(self).playlists_state == old(self).playlists_state,
            final(self).focus == HomeTabStateFocus::Left,
            match old(self).playlists_state.selected {
                Option::None => final(self).songs_list_states == old(self).songs_list_states,
                Option::Some(i) => final(self).songs_list_states@ == old(self)
                    .songs_list_states@.update(i as int, ListState { selected: Option::None }),
            },
    {
        self.focus = HomeTabStateFocus::Left;
        let idx = match self.playlists_state.selected() {
            Some(i) => i,
            None => {
                return ;
            },
        };
        self.songs_list_states.set(idx, ListState { selected: None });
    }

    /// Moves the song selection of the selected playlist one step forward,
    /// wrapping from the last song to the first; with no selected song yet
    /// the first song is selected, and on an empty song list nothing changes.
    pub fn select_next_song(&mut self)
        requires
            old(self).wf(),
        ensures
            final(self).wf(),
            final(self).playlists == old(self).playlists,
            final(self).playlists_state == old(self).playlists_state,
            final(self).focus == old(self).focus,
            match old(self).playlists_state.selected {
                Option::None => *final(self) == *old(self),
                Option::Some(i) => {
                    let n = old(self).playlists@[i as int].songs@.len() as int;
                    if n == 0 {
                        *final(self) == *old(self)
                    } else {
                        final(self).songs_list_states@ == old(self).songs_list_states@.update(
                            i as int,
                            ListState {
                                selected: Option::Some(
                                    match old(self).songs_list_states@[i as int].selected {
                                        Option::None => 0usize,
                                        Option::Some(s) => cyc_next(s as int, n) as usize,
                                    },
                                ),
                            },
                        )
                    }
                },
            },
    {
        let idx = match self.playlists_state.selected() {
            Some(i) => i,
            None => {
                return ;
            },
        };
        let n = self.playlists[idx].songs.len();
        if n == 0 {
            return ;
        }
        let next = match self.songs_list_states[idx].selected() {
            Some(s) => if s + 1 < n {
                s + 1
            } else {
                0
            },
            None => 0,
        };
        self.songs_list_states.set(idx, ListState { selected: Some(next) });
    }

    /// Moves the song selection of the selected playlist one step backward,
    /// wrapping from the first song to the last; with no selected song yet
    /// the first song is selected, and on an empty song list nothing changes.
    pub fn select_previous_song(&mut self)
        requires
            old(self).wf(),
        ensures
            final(self).wf(),
            final(self).playlists == old(self).playlists,
            final(self).playlists_state == old(self).playlists_state,
            final(self).focus == old(self).focus,
            match old(self).playlists_state.selected {
                Option::None => *final(self) == *old(self),
                Option::Some(i) => {
                    let n = old(self).playlists@[i as int].songs@.len() as int;
                    if n == 0 {
                        *final(self) == *old(self)
                    } else {
                        final(self).songs_list_states@ == old(self).songs_list_states@.update(
                            i as int,
                            ListState {
                                selected: Option::Some(
                                    match old(self).songs_list_states@[i as int].selected {
                                        Option::None => 0usize,
                                        Option::Some(s) => cyc_prev(s as int, n) as usize,
                                    },
                                ),
                            },
                        )
                    }
                },
            },
    {
        let idx = match self.playlists_state.selected() {
            Some(i) => i,
            None => {
                return ;
            },
        };
        let n = self.playlists[idx].songs.len();
        if n == 0 {
            return ;
        }
        let prev = match self.songs_list_states[idx].selected() {
            Some(s) => if s > 0 {
                s - 1
            } else {
                n - 1
            },
            None => 0,
        };
        self.songs_list_states.set(idx, ListState { selected: Some(prev) });
    }
}

} // verus!
