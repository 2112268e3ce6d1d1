//! The two request handlers. Each checks the bearer token that came with the
//! request against the token the store was configured with for that class of
//! operation, and only then touches the store.

use crate::store::{Store, StoreView};
use crate::text::{same_text, text_of};
use crate::time::{http_date, last_modified_text};
use vstd::prelude::*;

verus! {

/// The status of a request that was carried out.
pub const STATUS_OK: u16 = 200;

/// The status of a read that found nothing under its key.
pub const STATUS_NO_CONTENT: u16 = 204;

/// The status of a request whose token was missing or wrong.
pub const STATUS_UNAUTHORIZED: u16 = 401;

/// The name of the response field that carries the time of the last write.
pub const LAST_MODIFIED: &'static str = "Last-Modified";

/// Why a request was not carried out. Either outcome is final for its
/// request and leaves the store as it was.
#[derive(Clone, Copy, Debug, PartialEq, Eq, Structural)]
pub enum RequestError {
    /// The request came without a token, or with one that differs from the
    /// token configured for its class of operation.
    Unauthorized,
    /// Nothing was ever written under the key: there is nothing to return.
    NoContent,
}

impl RequestError {
    /// The HTTP status that reports this outcome.
    pub open spec fn status(self) -> u16 {
        match self {
            RequestError::Unauthorized => STATUS_UNAUTHORIZED,
            RequestError::NoContent => STATUS_NO_CONTENT,
        }
    }

    /// The HTTP status that reports this outcome.
    pub fn status_code(&self) -> (code: u16)
        ensures
            code == self.status(),
    {
        match self {
            RequestError::Unauthorized => STATUS_UNAUTHORIZED,
            RequestError::NoContent => STATUS_NO_CONTENT,
        }
    }
}

/// What a [`ReadResponse`] holds, as mathematical values.
pub struct ReadResponseView {
    /// The stored value.
    pub body: Seq<char>,
    /// The text of the `Last-Modified` field, where the response has one.
    pub last_modified: Option<Seq<char>>,
}

/// The answer to a read that found its key.
#[derive(Debug, PartialEq, Eq)]
pub struct ReadResponse {
    /// The stored value, exactly as it was written.
    pub body: String,
    /// The HTTP date of the last write to the key, to be sent as the
    /// `Last-Modified` field; `None` where the entry carries no stamp.
    pub last_modified: Option<String>,
}

impl View for ReadResponse {
    type V = ReadResponseView;

    open spec fn view(&self) -> ReadResponseView {
        ReadResponseView {
            body: self.body@,
            last_modified: text_of(self.last_modified),
        }
    }
}

impl ReadResponse {
    /// A response with `body` as the stored value and `last_modified` as the
    /// text of its `Last-Modified` field.
    pub fn new(body: String, last_modified: Option<String>) -> (response: ReadResponse)
        ensures
            response@ == (ReadResponseView {
                body: body@,
                last_modified: text_of(last_modified),
            }),
    {
        ReadResponse { body, last_modified }
    }
}

/// The characters of the token that came with a request, if one came.
pub open spec fn presented(token: Option<&str>) -> Option<Seq<char>> {
    match token {
        Some(text) => Some(text@),
        None => None,
    }
}

/// A request is authorized when it presents exactly the configured token.
/// A request without a token never is.
pub open spec fn authorized(token: Option<Seq<char>>, configured: Seq<char>) -> bool {
    token == Some(configured)
}

/// What an answer to a read holds, as mathematical values.
pub open spec fn answer_view(answer: Result<ReadResponse, RequestError>) -> Result<
    ReadResponseView,
    RequestError,
> {
    match answer {
        Ok(response) => Ok(response@),
        Err(error) => Err(error),
    }
}

/// The answer that a read of `key` with `token` gets from `store`.
pub open spec fn read_outcome(
    store: StoreView,
    key: Seq<char>,
    token: Option<Seq<char>>,
) -> Result<ReadResponseView, RequestError> {
    if !authorized(token, store.read_token) {
        Err(RequestError::Unauthorized)
    } else {
        match store.get(key) {
            None => Err(RequestError::NoContent),
            Some(entry) => Ok(
                ReadResponseView {
                    body: entry.value,
                    last_modified: last_modified_text(entry.modified_at),
                },
            ),
        }
    }
}

/// The answer that a write with `token` gets from `store`.
pub open spec fn write_outcome(store: StoreView, token: Option<Seq<char>>) -> Result<
    (),
    RequestError,
> {
    if authorized(token, store.write_token) {
        Ok(())
    } else {
        Err(RequestError::Unauthorized)
    }
}

/// The store after a write of `body` under `key` with `token`, carried out at
/// clock reading `now`: an authorized write replaces the entry of `key`, any
/// other leaves the store as it was.
pub open spec fn write_effect(
    store: StoreView,
    key: Seq<char>,
    token: Option<Seq<char>>,
    body: Seq<char>,
    now: Option<u64>,
) -> StoreView {
    if authorized(token, store.write_token) {
        store.put(key, body, now)
    } else {
        store
    }
}

/// Whether a request that came with `token` is authorized against the
/// `configured` token: it is when it presents exactly that token.
pub fn is_authorized(token: Option<&str>, configured: &str) -> (granted: bool)
    ensures
        granted == authorized(presented(token), configured@),
{
    match token {
        Some(text) => same_text(text, configured),
        None => false,
    }
}

/// Answers a request to read `key` that came with `token`.
///
/// A token other than the store's read token is refused, whether or not the
/// key exists. A key that was never written yields `NoContent`. Otherwise the
/// response carries the stored value and, where the entry is stamped, the
/// HTTP date of its last write.
pub fn read(store: &Store, key: &str, token: Option<&str>) -> (answer: Result<
    ReadResponse,
    RequestError,
>)
    ensures
        answer_view(answer) == read_outcome(store@, key@, presented(token)),
{
    if !is_authorized(token, store.read_token()) {
        return Err(RequestError::Unauthorized);
    }
    match store.get(key) {
        None => Err(RequestError::NoContent),
        Some(entry) => {
            let last_modified = match entry.modified_at {
                Some(secs) => http_date(secs),
                None => None,
            };
            Ok(ReadResponse::new(entry.value, last_modified))
        },
    }
}

/// Answers a request to store `body` under `key` that came with `token`, as
/// carried out at clock reading `now`.
pub fn write_at(
    store: &mut Store,
    key: String,
    token: Option<&str>,
    body: String,
    now: Option<u64>,
) -> (answer: Result<(), RequestError>)
    ensures
        answer == write_outcome(old(store)@, presented(token)),
        final(store)@ == write_effect(old(store)@, key@, presented(token), body@, now),
{
    if !is_authorized(token, store.write_token()) {
        return Err(RequestError::Unauthorized);
    }
    store.put_at(key, body, now);
    Ok(())
}

/// Answers a request to store `body` under `key` that came with `token`.
///
/// A token other than the store's write token is refused and the store is
/// left as it was. Otherwise the body becomes the value of `key`, verbatim
/// and whatever it holds, and the write succeeds.
pub fn write(store: &mut Store, key: String, token: Option<&str>, body: String) -> (answer: Result<
    (),
    RequestError,
>)
    ensures
        answer == write_outcome(old(store)@, presented(token)),
        exists|now: Option<u64>|
            final(store)@ == write_effect(old(store)@, key@, presented(token), body@, now),
{
    if !is_authorized(token, store.write_token()) {
        assert(store@ == write_effect(old(store)@, key@, presented(token), body@, None));
        return Err(RequestError::Unauthorized);
    }
    let ghost written_key = key@;
    let ghost written_body = body@;
    store.put(key, body);
    proof {
        let now = choose|now: Option<u64>|
            store@ == old(store)@.put(written_key, written_body, now);
        assert(store@ == write_effect(
            old(store)@,
            written_key,
            presented(token),
            written_body,
            now,
        ));
    }
    Ok(())
}

} // verus!
