//! What holds of the handlers on every store, and over whole histories of
//! write requests.

use crate::handlers::{
    authorized,
    read_outcome,
    write_effect,
    write_outcome,
    ReadResponseView,
    RequestError,
};
use crate::store::StoreView;
use crate::time::last_modified_text;
use vstd::prelude::*;
use vstd::seq_lib::to_multiset_contains;

verus! {

/// One write request, together with what the clock read when the store
/// carried it out.
pub struct WriteRequest {
    /// The key to write.
    pub key: Seq<char>,
    /// The token that came with the request, if one came.
    pub token: Option<Seq<char>>,
    /// The value to store.
    pub body: Seq<char>,
    /// The clock reading at the moment the store carried the request out.
    pub now: Option<u64>,
}

/// The store after `requests` were carried out one after the other, first to
/// last, each seeing the store as the one before it left it.
pub open spec fn after_writes(store: StoreView, requests: Seq<WriteRequest>) -> StoreView
    decreases requests.len(),
{
    if requests.len() == 0 {
        store
    } else {
        let request = requests.last();
        write_effect(
            after_writes(store, requests.drop_last()),
            request.key,
            request.token,
            request.body,
            request.now,
        )
    }
}

/// A read that presents anything but the store's read token, or no token at
/// all, is refused as unauthorized, whether or not the key exists.
pub proof fn read_without_the_read_token_is_refused(
    store: StoreView,
    key: Seq<char>,
    token: Option<Seq<char>>,
)
    requires
        token != Some(store.read_token),
    ensures
        read_outcome(store, key, token) == Err::<ReadResponseView, RequestError>(
            RequestError::Unauthorized,
        ),
{
}

/// A write that presents anything but the store's write token, or no token
/// at all, is refused as unauthorized and leaves the store as it was.
pub proof fn write_without_the_write_token_is_refused(
    store: StoreView,
    key: Seq<char>,
    token: Option<Seq<char>>,
    body: Seq<char>,
    now: Option<u64>,
)
    requires
        token != Some(store.write_token),
    ensures
        write_outcome(store, token) == Err::<(), RequestError>(RequestError::Unauthorized),
        write_effect(store, key, token, body, now) == store,
{
}

/// A request that presents the token of its class is served: a read is not
/// refused as unauthorized, and a write succeeds and replaces the entry of
/// its key, whatever the key and the body are.
pub proof fn the_right_token_is_accepted(
    store: StoreView,
    key: Seq<char>,
    body: Seq<char>,
    now: Option<u64>,
)
    ensures
        read_outcome(store, key, Some(store.read_token)) != Err::<ReadResponseView, RequestError>(
            RequestError::Unauthorized,
        ),
        write_outcome(store, Some(store.write_token)) == Ok::<(), RequestError>(()),
        write_effect(store, key, Some(store.write_token), body, now) == store.put(key, body, now),
{
}

/// After a write of `value` under `key` with the write token, a read of `key`
/// with the read token returns exactly `value`, the empty text included.
pub proof fn read_returns_the_written_value(
    store: StoreView,
    key: Seq<char>,
    value: Seq<char>,
    now: Option<u64>,
)
    ensures
        write_outcome(store, Some(store.write_token)) is Ok,
        read_outcome(
            write_effect(store, key, Some(store.write_token), value, now),
            key,
            Some(store.read_token),
        ) == Ok::<ReadResponseView, RequestError>(
            ReadResponseView {
                body: value,
                last_modified: last_modified_text(store.stamp(now)),
            },
        ),
{
}

/// A write under one key leaves what a read of any other key returns.
pub proof fn write_leaves_other_keys(
    store: StoreView,
    key: Seq<char>,
    token: Option<Seq<char>>,
    body: Seq<char>,
    now: Option<u64>,
    other: Seq<char>,
    reader: Option<Seq<char>>,
)
    requires
        other != key,
    ensures
        read_outcome(write_effect(store, key, token, body, now), other, reader) == read_outcome(
            store,
            other,
            reader,
        ),
{
}

/// Of two writes to one key the later wins: once the second is accepted, a
/// read returns its value and its stamp, and nothing of the first.
pub proof fn later_write_replaces_the_earlier(
    store: StoreView,
    key: Seq<char>,
    first_token: Option<Seq<char>>,
    first: Seq<char>,
    first_now: Option<u64>,
    second: Seq<char>,
    second_now: Option<u64>,
)
    ensures
        read_outcome(
            write_effect(
                write_effect(store, key, first_token, first, first_now),
                key,
                Some(store.write_token),
                second,
                second_now,
            ),
            key,
            Some(store.read_token),
        ) == Ok::<ReadResponseView, RequestError>(
            ReadResponseView {
                body: second,
                last_modified: last_modified_text(store.stamp(second_now)),
            },
        ),
{
}

/// Writing the same value twice is the same as writing it once, as far as
/// the value goes: a repeated write only renews the stamp.
pub proof fn repeated_write_keeps_the_value(
    store: StoreView,
    key: Seq<char>,
    value: Seq<char>,
    first_now: Option<u64>,
    second_now: Option<u64>,
)
    ensures
        store.put(key, value, first_now).put(key, value, second_now) == store.put(
            key,
            value,
            second_now,
        ),
{
    assert(store.put(key, value, first_now).put(key, value, second_now).entries
        =~= store.put(key, value, second_now).entries);
}

/// A store without entries is well formed.
pub proof fn empty_store_is_well_formed(
    read_token: Seq<char>,
    write_token: Seq<char>,
    tracks_modified: bool,
)
    ensures
        StoreView::empty(read_token, write_token, tracks_modified).wf(),
{
}

/// No write, accepted or refused, takes a well-formed store to one that is
/// not.
pub proof fn write_keeps_the_store_well_formed(
    store: StoreView,
    key: Seq<char>,
    token: Option<Seq<char>>,
    body: Seq<char>,
    now: Option<u64>,
)
    requires
        store.wf(),
    ensures
        store.put(key, body, now).wf(),
        write_effect(store, key, token, body, now).wf(),
{
}

/// The tokens and the choice to track modification times are fixed when the
/// store is made: no history of writes changes them.
pub proof fn configuration_never_changes(store: StoreView, requests: Seq<WriteRequest>)
    ensures
        after_writes(store, requests).read_token == store.read_token,
        after_writes(store, requests).write_token == store.write_token,
        after_writes(store, requests).tracks_modified == store.tracks_modified,
    decreases requests.len(),
{
    if requests.len() > 0 {
        configuration_never_changes(store, requests.drop_last());
    }
}

/// A store that does not track modification times never holds a stamp, so
/// no read of it yields a `Last-Modified` text.
pub proof fn untracked_store_reports_no_modification_time(
    read_token: Seq<char>,
    write_token: Seq<char>,
    requests: Seq<WriteRequest>,
    key: Seq<char>,
)
    ensures
        after_writes(StoreView::empty(read_token, write_token, false), requests).wf(),
        read_outcome(
            after_writes(StoreView::empty(read_token, write_token, false), requests),
            key,
            Some(read_token),
        ) matches Ok(response) ==> response.last_modified is None,
    decreases requests.len(),
{
    let store = StoreView::empty(read_token, write_token, false);
    configuration_never_changes(store, requests);
    if requests.len() > 0 {
        configuration_never_changes(store, requests.drop_last());
        untracked_store_reports_no_modification_time(
            read_token,
            write_token,
            requests.drop_last(),
            key,
        );
    }
}

/// A key that was never written has no entry: where every request of the
/// history went to another key or was refused, a read of `key` from a store
/// that started empty finds no content.
pub proof fn never_written_key_has_no_content(
    read_token: Seq<char>,
    write_token: Seq<char>,
    tracks_modified: bool,
    requests: Seq<WriteRequest>,
    key: Seq<char>,
)
    requires
        forall|i: int|
            0 <= i < requests.len() ==> (#[trigger] requests[i]).key != key || !authorized(
                requests[i].token,
                write_token,
            ),
    ensures
        after_writes(
            StoreView::empty(read_token, write_token, tracks_modified),
            requests,
        ).get(key) is None,
        read_outcome(
            after_writes(StoreView::empty(read_token, write_token, tracks_modified), requests),
            key,
            Some(read_token),
        ) == Err::<ReadResponseView, RequestError>(RequestError::NoContent),
    decreases requests.len(),
{
    let store = StoreView::empty(read_token, write_token, tracks_modified);
    configuration_never_changes(store, requests);
    if requests.len() > 0 {
        configuration_never_changes(store, requests.drop_last());
        never_written_key_has_no_content(
            read_token,
            write_token,
            tracks_modified,
            requests.drop_last(),
            key,
        );
    }
}

/// The stamp that the store holds for the key of the request at `index`,
/// right after that request was carried out.
pub open spec fn stamp_recorded_by(
    store: StoreView,
    requests: Seq<WriteRequest>,
    index: int,
) -> Option<u64> {
    match after_writes(store, requests.take(index + 1)).get(requests[index].key) {
        Some(entry) => entry.modified_at,
        None => None,
    }
}

/// Each accepted write to a tracking store records the clock reading at
/// which it was carried out.
pub proof fn accepted_write_records_its_clock_reading(
    store: StoreView,
    requests: Seq<WriteRequest>,
    index: int,
)
    requires
        store.tracks_modified,
        0 <= index < requests.len(),
        authorized(requests[index].token, store.write_token),
    ensures
        stamp_recorded_by(store, requests, index) == requests[index].now,
{
    let upto = requests.take(index + 1);
    assert(upto.last() == requests[index]);
    configuration_never_changes(store, upto.drop_last());
}

/// Stamps never run backwards while the clock does not: of two accepted
/// writes to one key, the later records a stamp that is no earlier than the
/// one the earlier write recorded.
pub proof fn later_write_records_no_earlier_stamp(
    store: StoreView,
    requests: Seq<WriteRequest>,
    earlier: int,
    later: int,
)
    requires
        store.tracks_modified,
        0 <= earlier <= later < requests.len(),
        requests[earlier].key == requests[later].key,
        authorized(requests[earlier].token, store.write_token),
        authorized(requests[later].token, store.write_token),
        requests[earlier].now is Some,
        requests[later].now is Some,
        requests[earlier].now->0 <= requests[later].now->0,
    ensures
        stamp_recorded_by(store, requests, earlier) is Some,
        stamp_recorded_by(store, requests, later) is Some,
        stamp_recorded_by(store, requests, earlier)->0 <= stamp_recorded_by(
            store,
            requests,
            later,
        )->0,
{
    accepted_write_records_its_clock_reading(store, requests, earlier);
    accepted_write_records_its_clock_reading(store, requests, later);
}

/// After a history whose last request is an accepted write to `key`, a read
/// of `key` returns the value of that last request.
pub proof fn last_accepted_write_is_read(
    store: StoreView,
    requests: Seq<WriteRequest>,
    key: Seq<char>,
)
    requires
        requests.len() > 0,
        requests.last().key == key,
        authorized(requests.last().token, store.write_token),
    ensures
        read_outcome(after_writes(store, requests), key, Some(store.read_token)) == Ok::<
            ReadResponseView,
            RequestError,
        >(
            ReadResponseView {
                body: requests.last().body,
                last_modified: last_modified_text(store.stamp(requests.last().now)),
            },
        ),
{
    configuration_never_changes(store, requests.drop_last());
}

/// Writers that race for one key leave exactly one of their values. The
/// store carries the writes out one at a time, in some order; whatever that
/// order is, a read that follows returns the whole value of one of the
/// writes, never a blend of two.
pub proof fn racing_writes_leave_one_written_value(
    store: StoreView,
    key: Seq<char>,
    writes: Seq<WriteRequest>,
    order: Seq<WriteRequest>,
)
    requires
        writes.len() > 0,
        forall|i: int|
            0 <= i < writes.len() ==> (#[trigger] writes[i]).key == key && authorized(
                writes[i].token,
                store.write_token,
            ),
        order.to_multiset() == writes.to_multiset(),
    ensures
        read_outcome(after_writes(store, order), key, Some(store.read_token)) is Ok,
        exists|i: int|
            0 <= i < writes.len() && read_outcome(
                after_writes(store, order),
                key,
                Some(store.read_token),
            )->Ok_0.body == (#[trigger] writes[i]).body,
{
    vstd::seq_lib::to_multiset_len(order);
    vstd::seq_lib::to_multiset_len(writes);
    let winner = order.last();
    assert(order.contains(winner)) by {
        assert(order[order.len() - 1] == winner);
    }
    to_multiset_contains(order, winner);
    to_multiset_contains(writes, winner);
    let i = choose|i: int| 0 <= i < writes.len() && writes[i] == winner;
    last_accepted_write_is_read(store, order, key);
    assert(writes[i].body == winner.body);
}

} // verus!
