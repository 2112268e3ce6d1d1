//! The value stored under a key, with the time of its last write where the
//! store keeps one.

use vstd::prelude::*;

verus! {

/// What an [`Entry`] holds, as mathematical values.
pub struct EntryView {
    /// The stored text, character by character.
    pub value: Seq<char>,
    /// Whole seconds since the Unix epoch at which the entry was last
    /// written, where that was recorded.
    pub modified_at: Option<u64>,
}

/// The value stored under one key.
#[derive(Debug, PartialEq, Eq)]
pub struct Entry {
    /// The stored text; the empty string is a value like any other.
    pub value: String,
    /// Whole seconds since the Unix epoch at which the entry was last
    /// written, where that was recorded.
    pub modified_at: Option<u64>,
}

impl View for Entry {
    type V = EntryView;

    open spec fn view(&self) -> EntryView {
        EntryView { value: self.value@, modified_at: self.modified_at }
    }
}

/// What an entry that may be missing holds, as mathematical values.
pub open spec fn entry_of(found: Option<Entry>) -> Option<EntryView> {
    match found {
        Some(entry) => Some(entry@),
        None => None,
    }
}

impl Clone for Entry {
    /// A copy that later writes to the store cannot reach.
    fn clone(&self) -> (copy: Entry)
        ensures
            copy@ == self@,
    {
        Entry { value: self.value.clone(), modified_at: self.modified_at }
    }
}

impl Entry {
    /// An entry holding `value`, stamped with `modified_at`.
    pub fn new(value: String, modified_at: Option<u64>) -> (entry: Entry)
        ensures
            entry@ == (EntryView { value: value@, modified_at }),
    {
        Entry { value, modified_at }
    }
}

} // verus!
