//! What the agent takes from the machine it runs on: the time and fresh ids.
//! None of it is a function of anything the library holds, so nothing is
//! claimed of what comes back.

use vstd::prelude::*;

verus! {

/// Calls `std::time::SystemTime::now` and returns the seconds since the Unix
/// epoch, nothing where the clock stands before it.
#[verifier::external_body]
pub(crate) fn unix_time_secs() -> Option<i64> {
    std::time::SystemTime::now()
        .duration_since(std::time::UNIX_EPOCH)
        .ok()
        .map(|elapsed| elapsed.as_secs() as i64)
}

/// Calls `uuid::Uuid::new_v4` and returns the id's text.
#[verifier::external_body]
pub(crate) fn fresh_message_id() -> String {
    uuid::Uuid::new_v4().to_string()
}

} // verus!
