use vstd::prelude::*;

use crate::errors::HotwingsError;

verus! {

/// CapEnforcer: accepts or rejects an incoming transfer against the wallet
/// cap.  Rejects with `ExceedsWalletCap` exactly when the receiver's current
/// balance plus the incoming amount would exceed the cap; only the receiving
/// side of a transfer is checked.
pub fn check(receiver_balance: u64, incoming_amount: u64, wallet_cap: u64) -> (r: Result<
    (),
    HotwingsError,
>)
    ensures
        match r {
            Ok(()) => receiver_balance + incoming_amount <= wallet_cap,
            Err(e) => {
                &&& receiver_balance + incoming_amount > wallet_cap
                &&& e == HotwingsError::ExceedsWalletCap
            },
        },
{
    match receiver_balance.checked_add(incoming_amount) {
        Some(total) => {
            if total <= wallet_cap {
                Ok(())
            } else {
                Err(HotwingsError::ExceedsWalletCap)
            }
        },
        None => Err(HotwingsError::ExceedsWalletCap),
    }
}

} // verus!
