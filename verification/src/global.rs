//! Global application state: the tab row, the input mode, and the text-edit
//! buffer with its cursor and scroll math.
//!
//! The tab selection wraps cyclically and is always a valid index or unset.
//! Edit mode owns the character buffer: pushing characters and reading the
//! buffer back yields exactly the pushed characters, and backspacing once per
//! character empties it again.

use vstd::prelude::*;

verus! {

/// The two modes of the dispatcher: navigation or free-text entry.
#[derive(Clone, Copy, PartialEq, Eq, Structural, Debug)]
pub enum InputMode {
    /// Navigation and commands.
    Normal,
    /// Free-text entry into the edit buffer.
    Edit,
}

/// Relies on String's FromIterator over char: collecting characters yields
/// the string of exactly those characters, in order.
#[verifier::external_body]
fn chars_to_string(v: &Vec<char>) -> (r: String)
    ensures
        r@ == v@,
{
    v.iter().collect()
}

/// Where the edit cursor stands for a text area that wraps at a given width,
/// and how far the text is scrolled to keep the cursor visible.
#[derive(Clone, Copy, PartialEq, Eq, Structural, Debug)]
pub struct RenderPosition {
    /// The cursor's row in the unwrapped text.
    pub row: usize,
    /// The cursor's column.
    pub column: usize,
    /// How many rows are scrolled off above.
    pub scroll_offset: usize,
    /// The cursor's row as displayed, after scrolling.
    pub displayed_row: usize,
}

/// The buffer after pushing each character of `cs` in order onto `b`: the
/// model of repeated `push_input` calls.
pub open spec fn pushed_chars(b: Seq<char>, cs: Seq<char>) -> Seq<char>
    decreases cs.len(),
{
    if cs.len() == 0 {
        b
    } else {
        pushed_chars(b.push(cs[0]), cs.drop_first())
    }
}

/// The buffer after `k` backspaces: the model of repeated `backspace_input`
/// calls, each a no-op on an empty buffer.
pub open spec fn backspaced_chars(b: Seq<char>, k: nat) -> Seq<char>
    decreases k,
{
    if k == 0 {
        b
    } else {
        backspaced_chars(
            if b.len() == 0 {
                b
            } else {
                b.drop_last()
            },
            (k - 1) as nat,
        )
    }
}

/// Pushing the characters `cs` appends exactly `cs`: reading the buffer back
/// after pushing them onto an empty buffer yields exactly `cs`.
pub proof fn lemma_edit_buffer_round_trip(b: Seq<char>, cs: Seq<char>)
    ensures
        pushed_chars(b, cs) == b + cs,
        pushed_chars(Seq::<char>::empty(), cs) == cs,
    decreases cs.len(),
{
    if cs.len() == 0 {
        assert(b + cs =~= b);
        assert(Seq::<char>::empty() + cs =~= cs);
    } else {
        lemma_edit_buffer_round_trip(b.push(cs[0]), cs.drop_first());
        lemma_edit_buffer_round_trip(Seq::<char>::empty().push(cs[0]), cs.drop_first());
        assert(b.push(cs[0]) + cs.drop_first() =~= b + cs);
        assert(Seq::<char>::empty().push(cs[0]) + cs.drop_first() =~= cs);
    }
}

/// Backspacing once per character of the buffer empties it.
pub proof fn lemma_backspace_empties(b: Seq<char>)
    ensures
        backspaced_chars(b, b.len()) == Seq::<char>::empty(),
    decreases b.len(),
{
    if b.len() > 0 {
        lemma_backspace_empties(b.drop_last());
    }
}

/// Global application state: tab titles and tab selection, the input mode,
/// and the edit buffer.
pub struct GlobalState {
    /// The titles of the tab row, in order.
    pub tab_titles: Vec<String>,
    /// The selected tab: a valid index or unset.
    pub selected_tab_idx: Option<usize>,
    /// The current input mode.
    pub input_mode: InputMode,
    /// The characters entered in edit mode, in order.
    pub input_stream: Vec<char>,
}

impl GlobalState {
    /// The selected tab, when set, is a valid index into the tab titles.
    pub open spec fn wf(&self) -> bool {
        match self.selected_tab_idx {
            Option::None => true,
            Option::Some(i) => i < self.tab_titles@.len(),
        }
    }

    /// A fresh state: no tabs, no selection, normal mode, empty buffer.
    pub fn new() -> (r: GlobalState)
        ensures
            r.tab_titles@ =~= Seq::<String>::empty(),
            r.selected_tab_idx is None,
            r.input_mode == InputMode::Normal,
            r.input_stream@ =~= Seq::<char>::empty(),
            r.wf(),
    {
        GlobalState {
            tab_titles: Vec::new(),
            selected_tab_idx: None,
            input_mode: InputMode::Normal,
            input_stream: Vec::new(),
        }
    }

    /// Installs the tab titles, which must be non-empty, and selects the
    /// first tab.
    pub fn set_tab_titles(&mut self, tab_titles: Vec<String>)
        requires
            tab_titles@.len() > 0,
        ensures
            final(self).tab_titles == tab_titles,
            final(self).selected_tab_idx == Option::Some(0usize),
            final(self).input_mode == old(self).input_mode,
            final(self).input_stream == old(self).input_stream,
            final(self).wf(),
    {
        self.tab_titles = tab_titles;
        self.selected_tab_idx = Some(0);
    }

    /// A copy of the tab titles, in order.
    pub fn cloned_tab_titles(&self) -> (r: Vec<String>)
        ensures
            r.deep_view() == self.tab_titles.deep_view(),
    {
        let mut out: Vec<String> = Vec::new();
        let mut i: usize = 0;
        while i < self.tab_titles.len()
            invariant
                i <= self.tab_titles@.len(),
                out@.len() == i,
                forall|j: int| 0 <= j < i ==> out@[j] == self.tab_titles@[j],
            decreases self.tab_titles@.len() - i,
        {
            out.push(self.tab_titles[i].clone());
            i += 1;
        }
        proof {
            assert(out.deep_view() =~= self.tab_titles.deep_view());
        }
        out
    }

    /// Selects the tab at `selected_tab_idx`, or unsets the selection when
    /// the index is out of range.
    pub fn set_selected_tab_idx(&mut self, selected_tab_idx: usize)
        ensures
            final(self).tab_titles == old(self).tab_titles,
            final(self).input_mode == old(self).input_mode,
            final(self).input_stream == old(self).input_stream,
            final(self).selected_tab_idx == if selected_tab_idx >= old(self).tab_titles@.len() {
                Option::<usize>::None
            } else {
                Option::Some(selected_tab_idx)
            },
            final(self).wf(),
    {
        if selected_tab_idx >= self.tab_titles.len() {
            self.selected_tab_idx = None;
        } else {
            self.selected_tab_idx = Some(selected_tab_idx);
        }
    }

    /// The selected tab index, if any.
    pub fn get_selected_tab_idx(&self) -> (r: Option<usize>)
        ensures
            r == self.selected_tab_idx,
    {
        self.selected_tab_idx
    }

    /// Moves the tab selection one tab to the left, wrapping from the first
    /// tab to the last; with no selection nothing changes.
    pub fn go_previous_tab(&mut self)
        requires
            old(self).wf(),
        ensures
            final(self).wf(),
            final(self).tab_titles == old(self).tab_titles,
            final(self).input_mode == old(self).input_mode,
            final(self).input_stream == old(self).input_stream,
            match old(self).selected_tab_idx {
                Option::None => *final(self) == *old(self),
                Option::Some(i) => final(self).selected_tab_idx == Option::Some(
                    crate::selection::cyc_prev(i as int, old(self).tab_titles@.len() as int)
                        as usize,
                ),
            },
    {
        if let Some(selected_tab_idx) = self.selected_tab_idx {
            if selected_tab_idx > 0 {
                self.selected_tab_idx = Some(selected_tab_idx - 1);
            } else {
                self.selected_tab_idx = Some(self.tab_titles.len() - 1);
            }
        }
    }

    /// Moves the tab selection one tab to the right, wrapping from the last
    /// tab to the first; with no selection nothing changes.
    pub fn go_next_tab(&mut self)
        requires
            old(self).wf(),
        ensures
            final(self).wf(),
            final(self).tab_titles == old(self).tab_titles,
            final(self).input_mode == old(self).input_mode,
            final(self).input_stream == old(self).input_stream,
            match old(self).selected_tab_idx {
                Option::None => *final(self) == *old(self),
                Option::Some(i) => final(self).selected_tab_idx == Option::Some(
                    crate::selection::cyc_next(i as int, old(self).tab_titles@.len() as int)
                        as usize,
                ),
            },
    {
        if let Some(selected_tab_idx) = self.selected_tab_idx {
            let n = self.tab_titles.len();
            if selected_tab_idx + 1 < n {
                self.selected_tab_idx = Some(selected_tab_idx + 1);
            } else {
                self.selected_tab_idx = Some(0);
            }
        }
    }

    /// Switches to normal mode.
    pub fn switch_mode_to_normal(&mut self)
        ensures
            final(self).input_mode == InputMode::Normal,
            final(self).tab_titles == old(self).tab_titles,
            final(self).selected_tab_idx == old(self).selected_tab_idx,
            final(self).input_stream == old(self).input_stream,
    {
        self.input_mode = InputMode::Normal;
    }

    /// Switches to edit mode.
    pub fn switch_mode_to_edit(&mut self)
        ensures
            final(self).input_mode == InputMode::Edit,
            final(self).tab_titles == old(self).tab_titles,
            final(self).selected_tab_idx == old(self).selected_tab_idx,
            final(self).input_stream == old(self).input_stream,
    {
        self.input_mode = InputMode::Edit;
    }

    /// Appends one character to the edit buffer.
    pub fn push_input(&mut self, c: char)
        ensures
            final(self).input_stream@ == old(self).input_stream@.push(c),
            final(self).tab_titles == old(self).tab_titles,
            final(self).selected_tab_idx == old(self).selected_tab_idx,
            final(self).input_mode == old(self).input_mode,
    {
        self.input_stream.push(c);
    }

    /// Removes the last character of the edit buffer, if any.
    pub fn backspace_input(&mut self)
        ensures
            final(self).input_stream@ == if old(self).input_stream@.len() == 0 {
                old(self).input_stream@
            } else {
                old(self).input_stream@.drop_last()
            },
            final(self).tab_titles == old(self).tab_titles,
            final(self).selected_tab_idx == old(self).selected_tab_idx,
            final(self).input_mode == old(self).input_mode,
    {
        let _popped = self.input_stream.pop();
        proof {
            if old(self).input_stream@.len() > 0 {
                assert(self.input_stream@ =~= old(self).input_stream@.drop_last());
            }
        }
    }

    /// Empties the edit buffer.
    pub fn clear_input(&mut self)
        ensures
            final(self).input_stream@ =~= Seq::<char>::empty(),
            final(self).tab_titles == old(self).tab_titles,
            final(self).selected_tab_idx == old(self).selected_tab_idx,
            final(self).input_mode == old(self).input_mode,
    {
        self.input_stream.clear();
    }

    /// The text currently in the edit buffer, as one string.
    pub fn input_string(&self) -> (r: String)
        ensures
            r@ == self.input_stream@,
    {
        chars_to_string(&self.input_stream)
    }

    /// Where the cursor stands for a text area wrapping at `viewport_width`
    /// columns (a zero width is clamped to one): the cursor sits after the
    /// buffer's last character, and the text scrolls just enough to keep the
    /// cursor within the bottom four rows.
    pub fn render_position(&self, viewport_width: usize) -> (p: RenderPosition)
        ensures
            ({
                let w = if viewport_width == 0 {
                    1int
                } else {
                    viewport_width as int
                };
                let l = self.input_stream@.len() as int;
                &&& p.row == l / w
                &&& p.column == l % w
                &&& p.scroll_offset == if l / w > 3 {
                    l / w - 3
                } else {
                    0
                }
                &&& p.displayed_row == p.row - p.scroll_offset
            }),
    {
        let w = if viewport_width == 0 {
            1
        } else {
            viewport_width
        };
        let l = self.input_stream.len();
        let row = l / w;
        let column = l % w;
        let scroll_offset = if row > 3 {
            row - 3
        } else {
            0
        };
        let displayed_row = row - scroll_offset;
        RenderPosition { row, column, scroll_offset, displayed_row }
    }
}

} // verus!
