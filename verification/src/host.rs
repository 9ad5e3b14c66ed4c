use vstd::prelude::*;
use rand::Rng;
use std::time::SystemTime;
use std::time::UNIX_EPOCH;

verus! {

/// Relies on `rand::thread_rng` and `rand::Rng::gen_range` over `1..=13`:
/// the drawn card lies in that inclusive range (the range is not empty, so
/// the call does not panic). Nothing more is promised: the value is random.
#[verifier::external_body]
pub(crate) fn draw_card() -> (card: u8)
    ensures
        1 <= card <= 13,
{
    rand::thread_rng().gen_range(1..=13)
}

/// Relies on `std::time::SystemTime`: seconds elapsed since the Unix epoch,
/// read from the host clock. A clock reading before the epoch is reported
/// as 0 rather than aborting. Nothing is promised of the value: the clock
/// belongs to the host, and two readings may be arbitrary.
#[verifier::external_body]
pub fn get_current_timestamp() -> (now: u64) {
    match SystemTime::now().duration_since(UNIX_EPOCH) {
        Ok(elapsed) => elapsed.as_secs(),
        Err(_) => 0,
    }
}

} // verus!
