//! The one outside call the core logic keeps: reading the local clock for
//! collection creation timestamps.

use vstd::prelude::*;

verus! {

/// Relies on `chrono::Local::now` and chrono's `format` (strftime-style):
/// the current local date and time rendered as `%Y-%m-%d %H:%M:%S`. The
/// result depends on the clock, so nothing is promised of it.
#[verifier::external_body]
pub(crate) fn now_local_timestamp() -> String {
    chrono::Local::now().format("%Y-%m-%d %H:%M:%S").to_string()
}

} // verus!
