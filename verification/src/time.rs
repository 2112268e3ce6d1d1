//! Points in time as the store records them: whole seconds since the Unix
//! epoch, read from the wall clock and shown to clients as HTTP dates.

use crate::text::text_of;
use std::time::{Duration, SystemTime, UNIX_EPOCH};
use vstd::prelude::*;

verus! {

/// The first second that has no HTTP date: midnight of 1 January 10000.
pub const HTTP_DATE_LIMIT: u64 = 253_402_300_800;

/// The HTTP date (IMF-fixdate, such as `Sun, 06 Nov 1994 08:49:37 GMT`) of the
/// instant `secs` seconds after the Unix epoch, as `httpdate` writes it.
pub uninterp spec fn http_date_text(secs: u64) -> Seq<char>;

/// The text of the `Last-Modified` field for an entry stamped with `stamp`:
/// the HTTP date of the stamp, and nothing for an entry without a stamp or
/// with one that no HTTP date can express.
pub open spec fn last_modified_text(stamp: Option<u64>) -> Option<Seq<char>> {
    match stamp {
        Some(secs) => if secs < HTTP_DATE_LIMIT {
            Some(http_date_text(secs))
        } else {
            None
        },
        None => None,
    }
}

/// Calls `httpdate::fmt_http_date` on the instant `secs` seconds after the
/// Unix epoch. Trusted: the text returned is the one that `http_date_text`
/// names, and the call does not panic below `HTTP_DATE_LIMIT` (at and above
/// it `httpdate` panics).
#[verifier::external_body]
fn fmt_http_date(secs: u64) -> (text: String)
    requires
        secs < HTTP_DATE_LIMIT,
    ensures
        text@ == http_date_text(secs),
{
    httpdate::fmt_http_date(UNIX_EPOCH + Duration::from_secs(secs))
}

/// Reads the wall clock with `std::time::SystemTime::now` and hands back the
/// whole seconds since the Unix epoch, or nothing while the clock stands
/// before the epoch. Trusted, and nothing is claimed of the reading: two
/// calls may differ in any way.
#[verifier::external_body]
pub(crate) fn unix_time_now() -> (secs: Option<u64>) {
    match SystemTime::now().duration_since(UNIX_EPOCH) {
        Ok(since_epoch) => Some(since_epoch.as_secs()),
        Err(_) => None,
    }
}

/// The HTTP date of the instant `secs` seconds after the Unix epoch, or
/// `None` from `HTTP_DATE_LIMIT` on, where HTTP dates end.
pub fn http_date(secs: u64) -> (text: Option<String>)
    ensures
        text_of(text) == last_modified_text(Some(secs)),
{
    if secs < HTTP_DATE_LIMIT {
        Some(fmt_http_date(secs))
    } else {
        None
    }
}

} // verus!
