use vstd::prelude::*;

use crate::errors::HotwingsError;
use crate::state::HotwingsState;

verus! {

/// Whether liquidation of the project allocation is permitted: the final
/// milestone is unlocked, or the calendar fallback deadline has passed.
pub open spec fn sell_permitted(state: HotwingsState, current_time: i64) -> bool {
    state.milestones.entries@.last().unlocked || current_time >= state.unlock_deadline
}

/// AutoSellGate: the pure predicate deciding whether the separate
/// liquidation action is currently permitted.  The liquidation itself is an
/// external collaborator, invoked by the host only when this returns true.
pub fn is_permitted(state: &HotwingsState, current_time: i64) -> (r: bool)
    requires
        state.milestones.entries@.len() > 0,
    ensures
        r == sell_permitted(*state, current_time),
{
    let n = state.milestones.entries.len();
    let last = state.milestones.entries[n - 1];
    last.unlocked || current_time >= state.unlock_deadline
}

/// Auto-sell as an enforcement operation: rejects with `AutoSellNotAllowed`
/// exactly when liquidation is not yet permitted.
pub fn auto_sell(state: &HotwingsState, current_time: i64) -> (r: Result<(), HotwingsError>)
    requires
        state.well_formed(),
    ensures
        match r {
            Ok(()) => sell_permitted(*state, current_time),
            Err(e) => {
                &&& e == HotwingsError::AutoSellNotAllowed
                &&& !sell_permitted(*state, current_time)
            },
        },
{
    if is_permitted(state, current_time) {
        Ok(())
    } else {
        Err(HotwingsError::AutoSellNotAllowed)
    }
}

} // verus!
