//! Disconnect policy for persistently-lagging clients.

use vstd::prelude::*;

verus! {

/// Number of consecutive lags behind the broadcast channel that are tolerated before the
/// WebSocket connection is forcibly closed.
pub const MAX_CONSECUTIVE_LAGS: u32 = 5;

/// Lags in a row after one more; the count stays where it cannot grow.
pub open spec fn one_more_lag(consecutive_lags: int) -> int {
    if consecutive_lags < u32::MAX {
        consecutive_lags + 1
    } else {
        consecutive_lags
    }
}

/// Counts one more lag in a row, and tells whether the client is to be cut for it: it uses up
/// the channel's capacity without ever catching up.
pub fn note_lag(consecutive_lags: &mut u32) -> (hopeless: bool)
    ensures
        *final(consecutive_lags) == one_more_lag(*old(consecutive_lags) as int),
        hopeless == (*final(consecutive_lags) >= MAX_CONSECUTIVE_LAGS),
        *old(consecutive_lags) < u32::MAX ==> *final(consecutive_lags) == *old(consecutive_lags) + 1,
        *old(consecutive_lags) == u32::MAX ==> *final(consecutive_lags) == u32::MAX,
        hopeless <==> *old(consecutive_lags) + 1 >= 5,
{
    *consecutive_lags = (*consecutive_lags).saturating_add(1);
    *consecutive_lags >= MAX_CONSECUTIVE_LAGS
}

/// A lag counts as one more, as far as the count goes.
pub proof fn law_a_lag_counts_as_one(consecutive_lags: int)
    ensures
        consecutive_lags < u32::MAX ==> one_more_lag(consecutive_lags) == consecutive_lags + 1,
        consecutive_lags >= u32::MAX ==> one_more_lag(consecutive_lags) == consecutive_lags,
        MAX_CONSECUTIVE_LAGS == 5,
{
}

} // verus!
