//! A store that many request handlers share. One lock guards the whole
//! store, and every request holds it, alone, from its token check to its
//! answer: requests take effect one at a time, each on the store as the one
//! before it left it.

use crate::handlers::{
    answer_view,
    authorized,
    presented,
    read,
    read_outcome,
    write_outcome,
    ReadResponse,
    RequestError,
};
use crate::store::{Store, StoreView};
use crate::theorems::write_keeps_the_store_well_formed;
use vstd::prelude::*;
use vstd::rwlock::{RwLock, RwLockPredicate};

verus! {

/// What is fixed when a shared store is made, and so holds of the store
/// behind the lock whenever the lock is taken.
pub struct Configuration {
    /// The token that authorizes reads.
    pub read_token: Seq<char>,
    /// The token that authorizes writes.
    pub write_token: Seq<char>,
    /// Whether writes are stamped with the time at which they were accepted.
    pub tracks_modified: bool,
}

impl Configuration {
    /// Whether `store` is a state that a store of this configuration can be
    /// in: it has the configured tokens and tracking choice and is well
    /// formed.
    pub open spec fn admits(self, store: StoreView) -> bool {
        &&& store.read_token == self.read_token
        &&& store.write_token == self.write_token
        &&& store.tracks_modified == self.tracks_modified
        &&& store.wf()
    }
}

impl RwLockPredicate<Store> for Configuration {
    open spec fn inv(self, store: Store) -> bool {
        self.admits(store@)
    }
}

/// A store behind a lock, for use from many threads at once.
pub struct SharedStore {
    lock: RwLock<Store, Configuration>,
}

impl SharedStore {
    /// The configuration this store was made with.
    pub closed spec fn configuration(&self) -> Configuration {
        self.lock.pred()
    }

    /// An empty shared store guarded by the two tokens. With
    /// `tracks_modified` it stamps every write with the time at which it was
    /// accepted.
    pub fn new(read_token: String, write_token: String, tracks_modified: bool) -> (shared:
        SharedStore)
        ensures
            shared.configuration() == (Configuration {
                read_token: read_token@,
                write_token: write_token@,
                tracks_modified,
            }),
    {
        let ghost configuration = Configuration {
            read_token: read_token@,
            write_token: write_token@,
            tracks_modified,
        };
        let store = Store::new(read_token, write_token, tracks_modified);
        SharedStore { lock: RwLock::new(store, Ghost(configuration)) }
    }

    /// Answers a request to read `key` that came with `token`, on the store
    /// as it stands when the request gains the lock.
    ///
    /// Whether the request is refused as unauthorized depends on the token
    /// alone. What an authorized read finds depends on the writes that gained
    /// the lock before it: the answer is the one that [`read`] gives on some
    /// state that the configuration admits.
    pub fn read(&self, key: &str, token: Option<&str>) -> (answer: Result<
        ReadResponse,
        RequestError,
    >)
        ensures
            answer == Err::<ReadResponse, RequestError>(RequestError::Unauthorized) <==> !authorized(
                presented(token),
                self.configuration().read_token,
            ),
            exists|store: StoreView|
                self.configuration().admits(store) && answer_view(answer) == #[trigger] read_outcome(
                    store,
                    key@,
                    presented(token),
                ),
    {
        let (store, handle) = self.lock.acquire_write();
        let answer = read(&store, key, token);
        handle.release_write(store);
        answer
    }

    /// Answers a request to store `body` under `key` that came with `token`.
    ///
    /// The request succeeds exactly when it presents the write token. An
    /// accepted write replaces the entry of `key` while it holds the lock, and
    /// reads the clock for its stamp then and not when the request arrived.
    pub fn write(&self, key: String, token: Option<&str>, body: String) -> (answer: Result<
        (),
        RequestError,
    >)
        ensures
            answer == (if authorized(presented(token), self.configuration().write_token) {
                Ok::<(), RequestError>(())
            } else {
                Err::<(), RequestError>(RequestError::Unauthorized)
            }),
    {
        let (mut store, handle) = self.lock.acquire_write();
        let ghost before = store@;
        let ghost written_key = key@;
        let ghost written_body = body@;
        let answer = crate::handlers::write(&mut store, key, token, body);
        proof {
            let now = choose|now: Option<u64>|
                store@ == crate::handlers::write_effect(
                    before,
                    written_key,
                    presented(token),
                    written_body,
                    now,
                );
            write_keeps_the_store_well_formed(
                before,
                written_key,
                presented(token),
                written_body,
                now,
            );
        }
        handle.release_write(store);
        answer
    }
}

} // verus!
