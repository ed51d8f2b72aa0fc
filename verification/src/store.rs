//! Persisted list store for the source-path list.
//!
//! The store keeps an ordered list of path strings in memory. Every mutation
//! hands back the full encoded document, so the caller can write it through
//! to the backing file at once; reloading that text yields exactly the list
//! that was in memory when it was produced.

use vstd::prelude::*;
use vstd::string::StrSliceExecFns;

verus! {

/// What parsing a persisted source-list document yields: the listed paths in
/// order, or nothing when the text is not such a document. Named here so that
/// contracts can relate the encoder and the decoder without restating JSON.
pub uninterp spec fn parsed_sources(text: Seq<char>) -> Option<Seq<Seq<char>>>;

/// Relies on serde_json::to_string_pretty: printing a one-field document of a
/// string list is total and depends on the list alone, and serde_json::from_str
/// parses the printed document back to the same list.
#[verifier::external_body]
fn encode_sources(sources: &Vec<String>) -> (r: String)
    ensures
        parsed_sources(r@) == Option::Some(sources.deep_view()),
{
    let mut doc = std::collections::BTreeMap::new();
    doc.insert("sources", sources);
    serde_json::to_string_pretty(&doc).expect("a map of strings always serializes")
}

/// Relies on serde_json::from_str: whether a text parses as the source-list
/// document, and to which list, depends on the text alone.
#[verifier::external_body]
fn decode_sources(text: &str) -> (r: Option<Vec<String>>)
    ensures
        match r {
            Option::Some(v) => parsed_sources(text@) == Option::Some(v.deep_view()),
            Option::None => parsed_sources(text@) is None,
        },
{
    let doc: std::collections::BTreeMap<String, Vec<String>> = match serde_json::from_str(text) {
        Ok(d) => d,
        Err(_) => return None,
    };
    doc.get("sources").cloned()
}

/// Why a persisted record could not be used.
#[derive(Clone, Copy, PartialEq, Eq, Structural, Debug)]
pub enum StoreError {
    /// The backing text is not a source-list document.
    StoreCorrupt,
}

/// The source-path list, backed by one persisted record.
pub struct Source {
    /// The registered source paths, in insertion order.
    pub sources: Vec<String>,
}

impl View for Source {
    type V = Seq<Seq<char>>;

    open spec fn view(&self) -> Seq<Seq<char>> {
        self.sources.deep_view()
    }
}

impl Source {
    /// A store with no paths.
    pub fn new_empty() -> (r: Self)
        ensures
            r@ =~= Seq::<Seq<char>>::empty(),
    {
        Source { sources: Vec::new() }
    }

    /// Loads a store from the persisted text. Succeeds exactly when the text
    /// parses as a source-list document, and then holds exactly the listed
    /// paths; a text that does not parse is reported, never replaced by a
    /// default, so that no user data is silently dropped.
    pub fn load(text: &str) -> (r: Result<Self, StoreError>)
        ensures
            match r {
                Result::Ok(s) => parsed_sources(text@) == Option::Some(s@),
                Result::Err(e) => parsed_sources(text@) is None && e == StoreError::StoreCorrupt,
            },
    {
        match decode_sources(text) {
            Option::Some(v) => Result::Ok(Source { sources: v }),
            Option::None => Result::Err(StoreError::StoreCorrupt),
        }
    }

    /// Appends one path and returns the full document to write through.
    /// An empty item is ignored. After a successful append the returned text
    /// reloads to exactly the new list, whose last element is the new item.
    pub fn append(&mut self, item: String) -> (r: Option<String>)
        ensures
            item@.len() == 0 ==> *final(self) == *old(self) && r is None,
            item@.len() > 0 ==> {
                &&& final(self)@ == old(self)@.push(item@)
                &&& final(self)@.len() == old(self)@.len() + 1
                &&& final(self)@.last() == item@
                &&& (r matches Option::Some(t) && parsed_sources(t@) == Option::Some(final(self)@))
            },
    {
        if item.as_str().unicode_len() == 0 {
            return None;
        }
        let ghost item_view = item@;
        self.sources.push(item);
        proof {
            assert(self@ =~= old(self)@.push(item_view));
        }
        Some(encode_sources(&self.sources))
    }

    /// Removes the path at `index` and returns the full document to write
    /// through. An out-of-bounds index is ignored. After a successful removal
    /// the returned text reloads to exactly the shortened list, with the later
    /// elements shifted left.
    pub fn remove(&mut self, index: usize) -> (r: Option<String>)
        ensures
            index >= old(self)@.len() ==> *final(self) == *old(self) && r is None,
            index < old(self)@.len() ==> {
                &&& final(self)@ == old(self)@.remove(index as int)
                &&& final(self)@.len() == old(self)@.len() - 1
                &&& (r matches Option::Some(t) && parsed_sources(t@) == Option::Some(final(self)@))
            },
    {
        if index >= self.sources.len() {
            return None;
        }
        self.sources.remove(index);
        proof {
            assert(self@ =~= old(self)@.remove(index as int));
        }
        Some(encode_sources(&self.sources))
    }

    /// How many paths the store holds.
    pub fn len(&self) -> (r: usize)
        ensures
            r == self@.len(),
    {
        self.sources.len()
    }
}

/// Write-through round trip for `append`: the document a successful append
/// hands back — which parses to the appended list, as `append` ensures —
/// reloads through `load` to a list one longer than before whose last element
/// is the new item.
pub proof fn lemma_append_reload(text: Seq<char>, before: Seq<Seq<char>>, item: Seq<char>)
    requires
        parsed_sources(text) == Option::Some(before.push(item)),
    ensures
        parsed_sources(text) matches Option::Some(after) && after.len() == before.len() + 1
            && after.last() == item,
{
}

/// Write-through round trip for `remove`: the document a successful removal
/// hands back — which parses to the shortened list, as `remove` ensures —
/// reloads through `load` to a list one shorter than before, with the element
/// at the removed position gone and the later elements shifted left.
pub proof fn lemma_remove_reload(text: Seq<char>, before: Seq<Seq<char>>, index: int)
    requires
        0 <= index < before.len(),
        parsed_sources(text) == Option::Some(before.remove(index)),
    ensures
        parsed_sources(text) matches Option::Some(after) && after.len() == before.len() - 1
            && (forall|j: int| 0 <= j < index ==> after[j] == before[j]) && (forall|j: int|
            index <= j < after.len() ==> after[j] == before[j + 1]),
{
}

} // verus!
