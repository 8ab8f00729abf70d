use anchor_lang::prelude::{Clock, SolanaSysvar};
use vstd::prelude::*;

verus! {

/// The runtime's time in seconds since the epoch, or `None` where the runtime
/// hands out no clock.
///
/// Calls `Clock::get`, the `get` of anchor_lang's `SolanaSysvar` for `Clock`,
/// and picks the field `unix_timestamp` of what it returns. Nothing is claimed
/// of the value: it is whatever the runtime says, and outside a Solana runtime
/// the call fails unless the process has installed syscall stubs of its own.
#[verifier::external_body]
pub(crate) fn unix_timestamp() -> (now: Option<i64>) {
    match Clock::get() {
        Ok(clock) => Some(clock.unix_timestamp),
        Err(_) => None,
    }
}

} // verus!
