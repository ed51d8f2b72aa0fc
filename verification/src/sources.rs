//! The sources tab: the persisted source-path list together with its
//! selection.
//!
//! Every operation keeps the selection consistent: unset exactly while the
//! list is empty, and a valid index otherwise. Mutations hand back the full
//! encoded document so the caller can write it through to the backing file.

use vstd::prelude::*;

use crate::selection::{cyc_next, cyc_prev, ListState};
use crate::store::{parsed_sources, Source, StoreError};

verus! {

/// State of the sources tab: the store and the selection into it.
pub struct SourceTabState {
    /// The persisted source-path list.
    pub source_db: Source,
    /// The selection into the source-path list.
    pub sources_list_state: ListState,
}

impl SourceTabState {
    /// The selection is unset exactly while the list is empty, and a valid
    /// index otherwise; every operation of this tab preserves this.
    pub open spec fn wf(&self) -> bool {
        self.sources_list_state.consistent_with(self.source_db@.len())
    }

    /// An empty tab: no paths, nothing selected.
    pub fn new() -> (r: Self)
        ensures
            r.source_db@ =~= Seq::<Seq<char>>::empty(),
            r.sources_list_state.selected is None,
            r.wf(),
    {
        SourceTabState { source_db: Source::new_empty(), sources_list_state: ListState::default() }
    }

    /// Replaces the store with the list loaded from the persisted text, and
    /// selects its first path, or nothing when it is empty. A text that does
    /// not parse leaves the tab untouched and is reported.
    pub fn load_sources(&mut self, text: &str) -> (r: Result<(), StoreError>)
        ensures
            match r {
                Result::Ok(()) => {
                    &&& parsed_sources(text@) == Option::Some(final(self).source_db@)
                    &&& final(self).sources_list_state.selected == if final(self).source_db@.len()
                        > 0 {
                        Option::Some(0usize)
                    } else {
                        Option::<usize>::None
                    }
                    &&& final(self).wf()
                },
                Result::Err(e) => {
                    &&& parsed_sources(text@) is None
                    &&& e == StoreError::StoreCorrupt
                    &&& *final(self) == *old(self)
                },
            },
    {
        match Source::load(text) {
            Result::Ok(db) => {
                self.source_db = db;
                if self.source_db.len() > 0 {
                    self.sources_list_state.select(Some(0));
                } else {
                    self.sources_list_state.select(None);
                }
                Result::Ok(())
            },
            Result::Err(e) => Result::Err(e),
        }
    }

    /// A copy of the stored paths, in order.
    pub fn cloned_sources(&self) -> (r: Vec<String>)
        ensures
            r.deep_view() == self.source_db@,
    {
        let mut out: Vec<String> = Vec::new();
        let mut i: usize = 0;
        while i < self.source_db.sources.len()
            invariant
                i <= self.source_db.sources.len(),
                out@.len() == i,
                forall|j: int| 0 <= j < i ==> out@[j] == self.source_db.sources@[j],
            decreases self.source_db.sources.len() - i,
        {
            out.push(self.source_db.sources[i].clone());
            i += 1;
        }
        proof {
            assert(out.deep_view() =~= self.source_db@);
        }
        out
    }

    /// Moves the selection one path forward, wrapping from the last path to
    /// the first; on an empty list nothing changes.
    pub fn select_next(&mut self)
        requires
            old(self).wf(),
        ensures
            final(self).wf(),
            final(self).source_db == old(self).source_db,
            match old(self).sources_list_state.selected {
                Option::None => *final(self) == *old(self),
                Option::Some(i) => final(self).sources_list_state.selected == Option::Some(
                    cyc_next(i as int, old(self).source_db@.len() as int) as usize,
                ),
            },
    {
        if self.source_db.len() == 0 {
            return ;
        }
        let idx = match self.sources_list_state.selected() {
            Some(i) => i,
            None => 0,
        };
        if idx + 1 < self.source_db.len() {
            self.sources_list_state.select(Some(idx + 1));
        } else {
            self.sources_list_state.select(Some(0));
        }
    }

    /// Moves the selection one path backward, wrapping from the first path to
    /// the last; on an empty list nothing changes.
    pub fn select_previous(&mut self)
        requires
            old(self).wf(),
        ensures
            final(self).wf(),
            final(self).source_db == old(self).source_db,
            match old(self).sources_list_state.selected {
                Option::None => *final(self) == *old(self),
                Option::Some(i) => final(self).sources_list_state.selected == Option::Some(
                    cyc_prev(i as int, old(self).source_db@.len() as int) as usize,
                ),
            },
    {
        if self.source_db.len() == 0 {
            return ;
        }
        let idx = match self.sources_list_state.selected() {
            Some(i) => i,
            None => 0,
        };
        if idx > 0 {
            self.sources_list_state.select(Some(idx - 1));
        } else {
            self.sources_list_state.select(Some(self.source_db.len() - 1));
        }
    }

    /// Appends one path and returns the document to write through; an empty
    /// path is ignored. A prior selection is kept; when nothing was selected
    /// the selection extends to the newly added tail element.
    pub fn add_source(&mut self, source: String) -> (r: Option<String>)
        requires
            old(self).wf(),
        ensures
            final(self).wf(),
            source@.len() == 0 ==> *final(self) == *old(self) && r is None,
            source@.len() > 0 ==> {
                &&& final(self).source_db@ == old(self).source_db@.push(source@)
                &&& (r matches Option::Some(t) && parsed_sources(t@) == Option::Some(
                    final(self).source_db@,
                ))
                &&& final(self).sources_list_state.selected == match old(self)
                    .sources_list_state
                    .selected {
                    Option::None => Option::Some(0usize),
                    Option::Some(i) => Option::Some(i),
                }
            },
    {
        let r = self.source_db.append(source);
        if r.is_some() && self.sources_list_state.selected().is_none() {
            self.sources_list_state.select(Some(self.source_db.len() - 1));
        }
        r
    }

    /// Removes the selected path and returns the document to write through;
    /// with nothing selected (so, by consistency, an empty list) nothing
    /// changes. After a removal the selection re-derives to the last element,
    /// or to nothing when the list became empty.
    pub fn delete_current_selected_source(&mut self) -> (r: Option<String>)
        requires
            old(self).wf(),
        ensures
            final(self).wf(),
            match old(self).sources_list_state.selected {
                Option::None => *final(self) == *old(self) && r is None,
                Option::Some(i) => {
                    &&& final(self).source_db@ == old(self).source_db@.remove(i as int)
                    &&& (r matches Option::Some(t) && parsed_sources(t@) == Option::Some(
                        final(self).source_db@,
                    ))
                    &&& final(self).sources_list_state.selected == if final(self)
                        .source_db@.len() > 0 {
                        Option::Some((final(self).source_db@.len() - 1) as usize)
                    } else {
                        Option::<usize>::None
                    }
                },
            },
    {
        let idx = match self.sources_list_state.selected() {
            Some(i) => i,
            None => {
                return None;
            },
        };
        let r = self.source_db.remove(idx);
        if self.source_db.len() > 0 {
            self.sources_list_state.select(Some(self.source_db.len() - 1));
        } else {
            self.sources_list_state.select(None);
        }
        r
    }
}

} // verus!
