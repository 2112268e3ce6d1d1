//! The store itself: the two tokens it was configured with and the entries
//! written so far, with `get` and `put` as its only operations.

use crate::entry::{entry_of, Entry, EntryView};
use crate::time::unix_time_now;
use vstd::hash_map::StringHashMap;
use vstd::prelude::*;

verus! {

/// What a [`Store`] holds, as mathematical values.
pub struct StoreView {
    /// The token that authorizes reads.
    pub read_token: Seq<char>,
    /// The token that authorizes writes.
    pub write_token: Seq<char>,
    /// Whether writes are stamped with the time at which they were accepted.
    pub tracks_modified: bool,
    /// The entry stored under each key that was ever written.
    pub entries: Map<Seq<char>, EntryView>,
}

impl StoreView {
    /// The store before any write.
    pub open spec fn empty(
        read_token: Seq<char>,
        write_token: Seq<char>,
        tracks_modified: bool,
    ) -> StoreView {
        StoreView { read_token, write_token, tracks_modified, entries: Map::empty() }
    }

    /// The entry under `key`, if one was written.
    pub open spec fn get(self, key: Seq<char>) -> Option<EntryView> {
        if self.entries.contains_key(key) {
            Some(self.entries[key])
        } else {
            None
        }
    }

    /// The stamp that a write accepted at clock reading `now` records: the
    /// reading itself where the store tracks modification times, else none.
    pub open spec fn stamp(self, now: Option<u64>) -> Option<u64> {
        if self.tracks_modified {
            now
        } else {
            None
        }
    }

    /// The store after `value` was written under `key` at clock reading
    /// `now`: the entry of `key` is replaced whole, every other entry and the
    /// configuration stay as they were.
    pub open spec fn put(self, key: Seq<char>, value: Seq<char>, now: Option<u64>) -> StoreView {
        StoreView {
            entries: self.entries.insert(
                key,
                EntryView { value, modified_at: self.stamp(now) },
            ),
            ..self
        }
    }

    /// A store that does not track modification times holds no stamp.
    pub open spec fn wf(self) -> bool {
        !self.tracks_modified ==> forall|key: Seq<char>| #[trigger]
            self.entries.contains_key(key) ==> self.entries[key].modified_at is None
    }
}

/// An in-memory mapping from keys to entries, together with the two tokens
/// that guard it. It owns its entries: they are reached through [`Store::get`]
/// and [`Store::put`] alone.
pub struct Store {
    read_token: String,
    write_token: String,
    tracks_modified: bool,
    entries: StringHashMap<Entry>,
}

impl View for Store {
    type V = StoreView;

    closed spec fn view(&self) -> StoreView {
        StoreView {
            read_token: self.read_token@,
            write_token: self.write_token@,
            tracks_modified: self.tracks_modified,
            entries: self.entries@.map_values(|entry: Entry| entry@),
        }
    }
}

impl Store {
    /// An empty store guarded by the two tokens. With `tracks_modified` it
    /// stamps every write with the time at which it was accepted.
    pub fn new(read_token: String, write_token: String, tracks_modified: bool) -> (store: Store)
        ensures
            store@ == StoreView::empty(read_token@, write_token@, tracks_modified),
    {
        let store = Store {
            read_token,
            write_token,
            tracks_modified,
            entries: StringHashMap::new(),
        };
        assert(store@.entries =~= Map::empty());
        store
    }

    /// The token that authorizes reads.
    pub fn read_token(&self) -> (token: &str)
        ensures
            token@ == self@.read_token,
    {
        self.read_token.as_str()
    }

    /// The token that authorizes writes.
    pub fn write_token(&self) -> (token: &str)
        ensures
            token@ == self@.write_token,
    {
        self.write_token.as_str()
    }

    /// Whether writes are stamped with the time at which they were accepted.
    pub fn tracks_modified(&self) -> (tracks: bool)
        ensures
            tracks == self@.tracks_modified,
    {
        self.tracks_modified
    }

    /// A copy of the entry under `key`, or `None` where nothing was written
    /// under it. The store is left as it was, and later writes do not reach
    /// the copy.
    pub fn get(&self, key: &str) -> (found: Option<Entry>)
        ensures
            entry_of(found) == self@.get(key@),
    {
        match self.entries.get(key) {
            Some(entry) => Some(entry.clone()),
            None => None,
        }
    }

    /// Stores `value` under `key` as a write accepted at clock reading `now`,
    /// replacing whatever the key held.
    pub fn put_at(&mut self, key: String, value: String, now: Option<u64>)
        ensures
            final(self)@ == old(self)@.put(key@, value@, now),
    {
        let modified_at = if self.tracks_modified {
            now
        } else {
            None
        };
        let entry = Entry::new(value, modified_at);
        self.entries.insert(key, entry);
        assert(self@.entries =~= old(self)@.put(key@, value@, now).entries);
    }

    /// Stores `value` under `key`, replacing whatever the key held. Where the
    /// store tracks modification times, the entry is stamped with the wall
    /// clock as it reads when the write is carried out.
    pub fn put(&mut self, key: String, value: String)
        ensures
            exists|now: Option<u64>| final(self)@ == old(self)@.put(key@, value@, now),
    {
        let now = if self.tracks_modified {
            unix_time_now()
        } else {
            None
        };
        self.put_at(key, value, now);
    }
}

} // verus!
