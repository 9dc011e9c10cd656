use hotwings::{
    apply_transaction_tax, auto_sell, compute, initialize, is_permitted, lock_tokens,
    unlock_tokens, AccountId, HotwingsError, Investor, TaxDistribution,
};

fn acct(tag: u8) -> AccountId {
    AccountId { bytes: [tag; 32] }
}

fn fresh_state(total_supply: u64, now: i64) -> hotwings::HotwingsState {
    initialize(total_supply, acct(1), acct(2), acct(3), acct(4), now).unwrap()
}

#[test]
fn initialize_sets_configuration() {
    let state = fresh_state(1_000_000, 1_000);
    assert_eq!(state.total_supply, 1_000_000);
    assert_eq!(state.tax_rate_bps, 150);
    assert_eq!(
        state.tax_distribution,
        TaxDistribution { burn_pct: 50, marketing_pct: 50 }
    );
    assert_eq!(state.wallet_cap, 50_000);
    assert_eq!(state.unlock_deadline, 1_000 + 90 * 24 * 60 * 60);
    assert_eq!(state.market_cap_oracle, acct(1));
    assert_eq!(state.project_wallet, acct(2));
    assert_eq!(state.marketing_wallet, acct(3));
    assert_eq!(state.burn_wallet, acct(4));
    assert_eq!(state.milestones.entries.len(), 8);
    let caps: Vec<u64> = state.milestones.entries.iter().map(|m| m.cap).collect();
    assert_eq!(
        caps,
        vec![45_000, 105_500, 225_000, 395_000, 650_000, 997_000, 1_574_000, 2_500_000]
    );
    for (i, m) in state.milestones.entries.iter().enumerate() {
        assert!(!m.unlocked);
        if i < 7 {
            assert_eq!(m.unlock_pct, 10);
        } else {
            assert_eq!(m.unlock_pct, 100);
        }
    }
}

#[test]
fn initialize_overflow_on_supply() {
    let r = initialize(u64::MAX, acct(1), acct(2), acct(3), acct(4), 0);
    assert_eq!(r.unwrap_err(), HotwingsError::ArithmeticOverflow);
}

#[test]
fn initialize_overflow_on_deadline() {
    let r = initialize(1_000_000, acct(1), acct(2), acct(3), acct(4), i64::MAX);
    assert_eq!(r.unwrap_err(), HotwingsError::ArithmeticOverflow);
}

#[test]
fn scenario_a_transfer_tax_split() {
    let state = fresh_state(1_000_000, 0);
    assert_eq!(state.wallet_cap, 50_000);
    let b = apply_transaction_tax(&state, 0, 10_000).unwrap();
    assert_eq!(b.net_amount, 9_850);
    assert_eq!(b.burn_share, 75);
    assert_eq!(b.marketing_share, 75);
    assert_eq!(b.net_amount + 150, 10_000);
}

#[test]
fn tax_formula_exact_values() {
    let d = TaxDistribution { burn_pct: 50, marketing_pct: 50 };
    let b = compute(10_000, 150, d).unwrap();
    assert_eq!((b.net_amount, b.burn_share, b.marketing_share), (9_850, 75, 75));
    let b = compute(0, 150, d).unwrap();
    assert_eq!((b.net_amount, b.burn_share, b.marketing_share), (0, 0, 0));
    // amount below the taxable quantum: tax floors to zero
    let b = compute(66, 150, d).unwrap();
    assert_eq!((b.net_amount, b.burn_share, b.marketing_share), (66, 0, 0));
}

#[test]
fn tax_with_uneven_distribution() {
    let d = TaxDistribution { burn_pct: 60, marketing_pct: 40 };
    let b = compute(10_000, 150, d).unwrap();
    assert_eq!((b.net_amount, b.burn_share, b.marketing_share), (9_850, 90, 60));
}

#[test]
fn tax_at_full_rate_consumes_everything() {
    let d = TaxDistribution { burn_pct: 50, marketing_pct: 50 };
    let b = compute(10_000, 10_000, d).unwrap();
    assert_eq!((b.net_amount, b.burn_share, b.marketing_share), (0, 5_000, 5_000));
}

#[test]
fn tax_rounding_residue_stays_undistributed() {
    let d = TaxDistribution { burn_pct: 50, marketing_pct: 50 };
    // tax = floor(101 * 150 / 10000) = 1, an odd value: both halves floor to 0
    let b = compute(101, 150, d).unwrap();
    assert_eq!(b.net_amount, 100);
    assert_eq!(b.burn_share, 0);
    assert_eq!(b.marketing_share, 0);
    assert!(b.burn_share + b.marketing_share < 1 + 0);
}

#[test]
fn tax_overflow_rejected() {
    let state = fresh_state(3_000_000_000_000_000_000, 0);
    assert_eq!(state.wallet_cap, 150_000_000_000_000_000);
    let amount = 130_000_000_000_000_000u64;
    let r = apply_transaction_tax(&state, 0, amount);
    assert_eq!(r.unwrap_err(), HotwingsError::ArithmeticOverflow);
}

#[test]
fn scenario_c_cap_rejection() {
    let state = fresh_state(1_000_000, 0);
    let r = apply_transaction_tax(&state, 48_000, 3_000);
    assert_eq!(r.unwrap_err(), HotwingsError::ExceedsWalletCap);
}

#[test]
fn cap_boundary_accepts_exact_fill() {
    let state = fresh_state(1_000_000, 0);
    let b = apply_transaction_tax(&state, 48_000, 2_000).unwrap();
    assert_eq!(b.net_amount, 1_970);
    assert_eq!(b.burn_share, 15);
    assert_eq!(b.marketing_share, 15);
}

#[test]
fn cap_check_rejects_iff_over_cap() {
    assert!(hotwings::check(48_000, 2_000, 50_000).is_ok());
    assert_eq!(
        hotwings::check(48_000, 2_001, 50_000).unwrap_err(),
        HotwingsError::ExceedsWalletCap
    );
    assert!(hotwings::check(0, 50_000, 50_000).is_ok());
    assert_eq!(
        hotwings::check(u64::MAX, 1, u64::MAX).unwrap_err(),
        HotwingsError::ExceedsWalletCap
    );
}

#[test]
fn scenario_b_lock_and_unlock() {
    let mut state = fresh_state(1_000_000, 0);
    let mut inv = Investor { locked_amount: 0, unlocked_amount: 0 };
    lock_tokens(&mut inv, 1_000).unwrap();
    assert_eq!(inv.locked_amount, 1_000);
    let delta = unlock_tokens(&mut state, &mut inv, 45_000).unwrap();
    assert_eq!(delta, 100);
    assert_eq!(inv.unlocked_amount, 100);
    assert_eq!(inv.locked_amount, 1_000);
    assert!(state.milestones.entries[0].unlocked);
    assert!(!state.milestones.entries[1].unlocked);
}

#[test]
fn lock_zero_rejected() {
    let mut inv = Investor { locked_amount: 7, unlocked_amount: 3 };
    let r = lock_tokens(&mut inv, 0);
    assert_eq!(r.unwrap_err(), HotwingsError::InvalidLockAmount);
    assert_eq!(inv, Investor { locked_amount: 7, unlocked_amount: 3 });
}

#[test]
fn lock_accumulates() {
    let mut inv = Investor { locked_amount: 0, unlocked_amount: 0 };
    lock_tokens(&mut inv, 500).unwrap();
    lock_tokens(&mut inv, 700).unwrap();
    assert_eq!(inv.locked_amount, 1_200);
    assert_eq!(inv.unlocked_amount, 0);
}

#[test]
fn lock_overflow_rejected() {
    let mut inv = Investor { locked_amount: u64::MAX, unlocked_amount: 0 };
    let r = lock_tokens(&mut inv, 1);
    assert_eq!(r.unwrap_err(), HotwingsError::ArithmeticOverflow);
    assert_eq!(inv.locked_amount, u64::MAX);
}

#[test]
fn unlock_share_overflow_rejected() {
    let mut state = fresh_state(1_000_000, 0);
    let mut inv = Investor { locked_amount: u64::MAX, unlocked_amount: 0 };
    let r = unlock_tokens(&mut state, &mut inv, 45_000);
    assert_eq!(r.unwrap_err(), HotwingsError::ArithmeticOverflow);
    // all-or-nothing: neither the account nor the schedule changed
    assert_eq!(inv, Investor { locked_amount: u64::MAX, unlocked_amount: 0 });
    assert!(!state.milestones.entries[0].unlocked);
}

#[test]
fn unlock_credit_overflow_rejected() {
    let mut state = fresh_state(1_000_000, 0);
    let mut inv = Investor { locked_amount: 1_000, unlocked_amount: u64::MAX - 50 };
    let r = unlock_tokens(&mut state, &mut inv, 45_000);
    assert_eq!(r.unwrap_err(), HotwingsError::ArithmeticOverflow);
    assert_eq!(inv.unlocked_amount, u64::MAX - 50);
    assert!(!state.milestones.entries[0].unlocked);
}

#[test]
fn scenario_e_auto_sell_gate() {
    let mut state = fresh_state(1_000_000, 1_000);
    let deadline = state.unlock_deadline;
    // neither the final milestone nor the deadline reached
    assert!(!is_permitted(&state, 1_000));
    assert_eq!(
        auto_sell(&state, 1_000).unwrap_err(),
        HotwingsError::AutoSellNotAllowed
    );
    assert!(!is_permitted(&state, deadline - 1));
    // permitted from the deadline on
    assert!(is_permitted(&state, deadline));
    assert!(auto_sell(&state, deadline).is_ok());
    // or immediately once the final milestone unlocks
    let mut inv = Investor { locked_amount: 0, unlocked_amount: 0 };
    unlock_tokens(&mut state, &mut inv, 2_500_000).unwrap();
    assert!(is_permitted(&state, 1_000));
    assert!(auto_sell(&state, 1_000).is_ok());
}
