use vstd::prelude::*;

use crate::cap_enforcer;
use crate::errors::HotwingsError;
use crate::state::HotwingsState;
use crate::tax_engine;
use crate::tax_engine::{net_of, share_of_tax, tax_of, TaxBreakdown};

verus! {

/// TransferOrchestrator: authorizes one logically atomic transfer and
/// resolves the three movements the host ledger must apply — net to the
/// receiver, the burn share and the marketing share out of the sender.  The
/// cap is checked first: a transfer the receiver cannot hold is rejected
/// with `ExceedsWalletCap` before anything is computed, and an amount whose
/// tax leaves the 64-bit range is rejected with `ArithmeticOverflow`.  The
/// host must apply either all three movements or none.
pub fn apply_transaction_tax(
    state: &HotwingsState,
    receiver_balance: u64,
    transaction_amount: u64,
) -> (r: Result<TaxBreakdown, HotwingsError>)
    requires
        state.well_formed(),
    ensures
        match r {
            Ok(b) => {
                &&& receiver_balance + transaction_amount <= state.wallet_cap
                &&& transaction_amount * state.tax_rate_bps <= u64::MAX
                &&& b.net_amount == net_of(transaction_amount, state.tax_rate_bps)
                &&& b.burn_share == share_of_tax(
                    tax_of(transaction_amount, state.tax_rate_bps),
                    state.tax_distribution.burn_pct,
                )
                &&& b.marketing_share == share_of_tax(
                    tax_of(transaction_amount, state.tax_rate_bps),
                    state.tax_distribution.marketing_pct,
                )
                &&& b.net_amount + tax_of(transaction_amount, state.tax_rate_bps)
                    == transaction_amount
                &&& b.burn_share + b.marketing_share <= tax_of(
                    transaction_amount,
                    state.tax_rate_bps,
                )
            },
            Err(e) => {
                ||| (e == HotwingsError::ExceedsWalletCap && receiver_balance + transaction_amount
                    > state.wallet_cap)
                ||| (e == HotwingsError::ArithmeticOverflow && receiver_balance
                    + transaction_amount <= state.wallet_cap && transaction_amount
                    * state.tax_rate_bps > u64::MAX)
            },
        },
{
    match cap_enforcer::check(receiver_balance, transaction_amount, state.wallet_cap) {
        Ok(()) => {},
        Err(e) => {
            return Err(e);
        },
    }
    tax_engine::compute(transaction_amount, state.tax_rate_bps, state.tax_distribution)
}

} // verus!
