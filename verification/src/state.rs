use vstd::prelude::*;

use crate::errors::HotwingsError;
use crate::milestones::{standard_milestones, MilestoneTable};
use crate::tax_engine::TaxDistribution;

verus! {

/// The transaction tax applied to every taxed transfer, in basis points:
/// 150 bps = 1.5 percent.
pub const TAX_RATE_BPS: u16 = 150;

/// Each sink's percentage of the tax: an even split.
pub const BURN_PCT: u64 = 50;

pub const MARKETING_PCT: u64 = 50;

/// The calendar fallback for the liquidation gate: ninety days, in seconds.
pub const UNLOCK_OFFSET_SECONDS: i64 = 90 * 24 * 60 * 60;

/// An opaque identifier of an external account (oracle, wallets).  The core
/// never inspects it; it only records which accounts the host must move
/// value between.
#[derive(Clone, Copy, Debug, PartialEq, Eq)]
pub struct AccountId {
    pub bytes: [u8; 32],
}

/// GlobalState: the configuration aggregate every other component reads.
/// Created once at initialization; only the milestone flags ever change
/// afterwards.
#[derive(Debug)]
pub struct HotwingsState {
    /// Fixed at initialization, immutable thereafter.
    pub total_supply: u64,
    /// The account the valuation signal is retrieved from (by the host).
    pub market_cap_oracle: AccountId,
    /// The project allocation wallet, liquidated through the auto-sell gate.
    pub project_wallet: AccountId,
    /// The sink receiving the marketing cut of the tax.
    pub marketing_wallet: AccountId,
    /// The sink receiving the burn cut of the tax.
    pub burn_wallet: AccountId,
    /// Basis points of tax applied to every taxed transfer.
    pub tax_rate_bps: u16,
    /// How the tax splits between the burn and marketing sinks.
    pub tax_distribution: TaxDistribution,
    /// The maximum holding permitted in a single receiving account:
    /// five percent of the total supply.
    pub wallet_cap: u64,
    /// The ordered unlock schedule.
    pub milestones: MilestoneTable,
    /// The calendar fallback after which liquidation is permitted even if
    /// the final milestone was never crossed.
    pub unlock_deadline: i64,
}

impl HotwingsState {
    /// The aggregate invariant: a well-formed schedule, a tax rate of at
    /// most one hundred percent, a complete tax split, and the cap derived
    /// from the supply.
    pub open spec fn well_formed(self) -> bool {
        &&& self.milestones.well_formed()
        &&& self.tax_rate_bps <= 10000
        &&& self.tax_distribution.valid()
        &&& self.wallet_cap == self.total_supply * 5 / 100
    }

    /// Whether everything but the milestone flags agrees between two states:
    /// the configuration is immutable after initialization.
    pub open spec fn config_eq(self, other: HotwingsState) -> bool {
        &&& other.total_supply == self.total_supply
        &&& other.market_cap_oracle == self.market_cap_oracle
        &&& other.project_wallet == self.project_wallet
        &&& other.marketing_wallet == self.marketing_wallet
        &&& other.burn_wallet == self.burn_wallet
        &&& other.tax_rate_bps == self.tax_rate_bps
        &&& other.tax_distribution == self.tax_distribution
        &&& other.wallet_cap == self.wallet_cap
        &&& other.unlock_deadline == self.unlock_deadline
    }
}

/// Creates the global state: records the supply and the external account
/// references, fixes the tax at 150 bps split evenly between the two sinks,
/// derives the wallet cap as five percent of the supply, installs the
/// standard milestone schedule, and sets the fallback unlock deadline ninety
/// days after `now`.  Rejects with `ArithmeticOverflow` exactly when the cap
/// derivation or the deadline would leave the numeric range.
pub fn initialize(
    total_supply: u64,
    market_cap_oracle: AccountId,
    project_wallet: AccountId,
    marketing_wallet: AccountId,
    burn_wallet: AccountId,
    now: i64,
) -> (r: Result<HotwingsState, HotwingsError>)
    ensures
        match r {
            Ok(state) => {
                &&& total_supply * 5 <= u64::MAX
                &&& now + UNLOCK_OFFSET_SECONDS <= i64::MAX
                &&& state.total_supply == total_supply
                &&& state.market_cap_oracle == market_cap_oracle
                &&& state.project_wallet == project_wallet
                &&& state.marketing_wallet == marketing_wallet
                &&& state.burn_wallet == burn_wallet
                &&& state.tax_rate_bps == TAX_RATE_BPS
                &&& state.tax_distribution == (TaxDistribution {
                    burn_pct: BURN_PCT,
                    marketing_pct: MARKETING_PCT,
                })
                &&& state.wallet_cap == total_supply * 5 / 100
                &&& state.milestones.entries@ == standard_milestones()
                &&& state.unlock_deadline == now + UNLOCK_OFFSET_SECONDS
                &&& state.well_formed()
            },
            Err(e) => {
                &&& e == HotwingsError::ArithmeticOverflow
                &&& (total_supply * 5 > u64::MAX || now + UNLOCK_OFFSET_SECONDS > i64::MAX)
            },
        },
{
    let scaled = match total_supply.checked_mul(5) {
        Some(p) => p,
        None => {
            return Err(HotwingsError::ArithmeticOverflow);
        },
    };
    let unlock_deadline = match now.checked_add(UNLOCK_OFFSET_SECONDS) {
        Some(d) => d,
        None => {
            return Err(HotwingsError::ArithmeticOverflow);
        },
    };
    Ok(
        HotwingsState {
            total_supply,
            market_cap_oracle,
            project_wallet,
            marketing_wallet,
            burn_wallet,
            tax_rate_bps: TAX_RATE_BPS,
            tax_distribution: TaxDistribution { burn_pct: BURN_PCT, marketing_pct: MARKETING_PCT },
            wallet_cap: scaled / 100,
            milestones: MilestoneTable::standard(),
            unlock_deadline,
        },
    )
}

} // verus!
