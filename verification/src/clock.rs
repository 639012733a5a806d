//! The wall clock, read as a plain value.

use crate::fusefsfile::Timestamp;
use std::time::{SystemTime, UNIX_EPOCH};
use vstd::prelude::*;

verus! {

/// Reads the wall clock through `std::time::SystemTime::now` and hands the
/// instant back as its distance from the Unix epoch, taken with
/// `SystemTime::duration_since` and split with `Duration::as_secs` and
/// `Duration::subsec_nanos`.
///
/// Nothing is promised about which instant comes back: two calls may differ.
/// The only claim is the one `Duration::subsec_nanos` documents, namely that
/// the fractional part is below one second.
#[verifier::external_body]
pub(crate) fn now() -> (t: Timestamp)
    ensures
        t.wf(),
{
    match SystemTime::now().duration_since(UNIX_EPOCH) {
        Ok(d) => Timestamp { before_epoch: false, secs: d.as_secs(), nanos: d.subsec_nanos() },
        Err(e) => Timestamp {
            before_epoch: true,
            secs: e.duration().as_secs(),
            nanos: e.duration().subsec_nanos(),
        },
    }
}

} // verus!
