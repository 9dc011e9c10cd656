use vstd::arithmetic::div_mod::{
    lemma_div_is_ordered, lemma_div_multiples_vanish, lemma_fundamental_div_mod, lemma_mod_bound,
};
use vstd::arithmetic::mul::{lemma_mul_inequality, lemma_mul_is_distributive_add};
use vstd::prelude::*;

use crate::errors::HotwingsError;

verus! {

/// The percentage split of the transaction tax between the burn sink and the
/// marketing sink.  The two percentages must sum to one hundred.
#[derive(Clone, Copy, Debug, PartialEq, Eq, Structural)]
pub struct TaxDistribution {
    pub burn_pct: u64,
    pub marketing_pct: u64,
}

impl TaxDistribution {
    /// The structural invariant of a distribution: a complete split of the
    /// tax between the two sinks.
    pub open spec fn valid(self) -> bool {
        self.burn_pct + self.marketing_pct == 100
    }
}

/// The amounts a taxed transfer resolves to: what the receiver gets and what
/// each sink is owed.  Due to floor rounding, `burn_share + marketing_share`
/// may fall short of the tax by a residue, which remains undistributed.
#[derive(Clone, Copy, Debug, PartialEq, Eq, Structural)]
pub struct TaxBreakdown {
    pub net_amount: u64,
    pub burn_share: u64,
    pub marketing_share: u64,
}

/// The tax owed on a transfer: floor(amount * rate_bps / 10000).
pub open spec fn tax_of(amount: u64, rate_bps: u16) -> int {
    amount * rate_bps / 10000
}

/// The amount delivered to the receiver after tax.
pub open spec fn net_of(amount: u64, rate_bps: u16) -> int {
    amount - tax_of(amount, rate_bps)
}

/// A sink's cut of the tax: floor(tax * pct / 100).
pub open spec fn share_of_tax(tax: int, pct: u64) -> int {
    tax * pct / 100
}

/// Floor division distributes sub-additively over a sum.
proof fn lemma_div_sum_le(u: int, w: int, d: int)
    requires
        u >= 0,
        w >= 0,
        d > 0,
    ensures
        u / d + w / d <= (u + w) / d,
{
    lemma_fundamental_div_mod(u, d);
    lemma_fundamental_div_mod(w, d);
    lemma_mod_bound(u, d);
    lemma_mod_bound(w, d);
    let q = u / d + w / d;
    lemma_mul_is_distributive_add(d, u / d, w / d);
    assert(d * q <= u + w);
    lemma_div_is_ordered(d * q, u + w, d);
    lemma_div_multiples_vanish(q, d);
}

/// Law: the tax never exceeds the transfer amount, and the net amount plus
/// the tax restores the amount exactly.
pub proof fn lemma_tax_conservation(amount: u64, rate_bps: u16)
    requires
        rate_bps <= 10000,
    ensures
        0 <= tax_of(amount, rate_bps) <= amount,
        net_of(amount, rate_bps) + tax_of(amount, rate_bps) == amount,
{
    lemma_mul_inequality(rate_bps as int, 10000, amount as int);
    lemma_div_is_ordered(amount * rate_bps, amount * 10000, 10000);
    lemma_div_multiples_vanish(amount as int, 10000);
    assert(amount * 10000 == 10000 * amount) by (nonlinear_arith);
    assert(amount * rate_bps >= 0) by (nonlinear_arith);
    lemma_div_is_ordered(0, amount * rate_bps, 10000);
}

/// Law: the two sink shares never exceed the tax they split; with floor
/// rounding an odd remainder stays undistributed.
pub proof fn lemma_split_bounded(tax: int, d: TaxDistribution)
    requires
        tax >= 0,
        d.valid(),
    ensures
        0 <= share_of_tax(tax, d.burn_pct),
        0 <= share_of_tax(tax, d.marketing_pct),
        share_of_tax(tax, d.burn_pct) + share_of_tax(tax, d.marketing_pct) <= tax,
{
    assert(tax * d.burn_pct >= 0) by (nonlinear_arith)
        requires
            tax >= 0,
    ;
    assert(tax * d.marketing_pct >= 0) by (nonlinear_arith)
        requires
            tax >= 0,
    ;
    lemma_div_is_ordered(0, tax * d.burn_pct, 100);
    lemma_div_is_ordered(0, tax * d.marketing_pct, 100);
    lemma_div_sum_le(tax * d.burn_pct, tax * d.marketing_pct, 100);
    assert(tax * d.burn_pct + tax * d.marketing_pct == tax * 100) by (nonlinear_arith)
        requires
            d.burn_pct + d.marketing_pct == 100,
    ;
    assert(tax * 100 == 100 * tax) by (nonlinear_arith);
    lemma_div_multiples_vanish(tax, 100);
}

/// TaxEngine: resolves a transfer amount into the net deliverable amount and
/// the two sink shares.  Pure computation over explicit inputs; rejects with
/// `ArithmeticOverflow` exactly when amount * rate_bps exceeds the 64-bit
/// range.
pub fn compute(transfer_amount: u64, tax_rate_bps: u16, distribution: TaxDistribution) -> (r:
    Result<TaxBreakdown, HotwingsError>)
    requires
        tax_rate_bps <= 10000,
        distribution.valid(),
    ensures
        match r {
            Ok(b) => {
                &&& transfer_amount * tax_rate_bps <= u64::MAX
                &&& b.net_amount == net_of(transfer_amount, tax_rate_bps)
                &&& b.burn_share == share_of_tax(
                    tax_of(transfer_amount, tax_rate_bps),
                    distribution.burn_pct,
                )
                &&& b.marketing_share == share_of_tax(
                    tax_of(transfer_amount, tax_rate_bps),
                    distribution.marketing_pct,
                )
                &&& b.net_amount + tax_of(transfer_amount, tax_rate_bps) == transfer_amount
                &&& b.burn_share + b.marketing_share <= tax_of(transfer_amount, tax_rate_bps)
            },
            Err(e) => {
                &&& e == HotwingsError::ArithmeticOverflow
                &&& transfer_amount * tax_rate_bps > u64::MAX
            },
        },
{
    let scaled = match transfer_amount.checked_mul(tax_rate_bps as u64) {
        Some(p) => p,
        None => {
            return Err(HotwingsError::ArithmeticOverflow);
        },
    };
    let tax = scaled / 10000;
    proof {
        lemma_tax_conservation(transfer_amount, tax_rate_bps);
        lemma_split_bounded(tax as int, distribution);
        lemma_div_is_ordered(scaled as int, u64::MAX as int, 10000);
        assert(tax * distribution.burn_pct <= tax * 100) by (nonlinear_arith)
            requires
                0 <= tax,
                distribution.burn_pct <= 100,
        ;
        assert(tax * distribution.marketing_pct <= tax * 100) by (nonlinear_arith)
            requires
                0 <= tax,
                distribution.marketing_pct <= 100,
        ;
        assert(tax * 100 <= (u64::MAX / 10000) * 100) by (nonlinear_arith)
            requires
                0 <= tax <= u64::MAX / 10000,
        ;
    }
    let net_amount = transfer_amount - tax;
    let burn_share = (tax * distribution.burn_pct) / 100;
    let marketing_share = (tax * distribution.marketing_pct) / 100;
    Ok(TaxBreakdown { net_amount, burn_share, marketing_share })
}

} // verus!
