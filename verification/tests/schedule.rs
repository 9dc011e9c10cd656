use hotwings::{
    apply_unlock, initialize, lock_tokens, unlock_tokens, AccountId, Investor, MilestoneTable,
};

fn state_at(now: i64) -> hotwings::HotwingsState {
    let a = AccountId { bytes: [0; 32] };
    initialize(1_000_000, a, a, a, a, now).unwrap()
}

fn flags(t: &MilestoneTable) -> Vec<bool> {
    t.entries.iter().map(|m| m.unlocked).collect()
}

#[test]
fn standard_schedule_shape() {
    let t = MilestoneTable::standard();
    assert_eq!(t.entries.len(), 8);
    let caps: Vec<u64> = t.entries.iter().map(|m| m.cap).collect();
    assert_eq!(
        caps,
        vec![45_000, 105_500, 225_000, 395_000, 650_000, 997_000, 1_574_000, 2_500_000]
    );
    let pcts: Vec<u8> = t.entries.iter().map(|m| m.unlock_pct).collect();
    assert_eq!(pcts, vec![10, 10, 10, 10, 10, 10, 10, 100]);
    assert!(t.entries.iter().all(|m| !m.unlocked));
}

#[test]
fn evaluate_below_first_cap_crosses_nothing() {
    let mut t = MilestoneTable::standard();
    let crossed = t.evaluate(44_999);
    assert!(crossed.is_empty());
    assert!(t.entries.iter().all(|m| !m.unlocked));
}

#[test]
fn evaluate_at_first_cap() {
    let mut t = MilestoneTable::standard();
    let crossed = t.evaluate(45_000);
    assert_eq!(crossed, vec![0]);
    assert_eq!(
        flags(&t),
        vec![true, false, false, false, false, false, false, false]
    );
}

#[test]
fn scenario_d_final_valuation_crosses_all() {
    let mut t = MilestoneTable::standard();
    let crossed = t.evaluate(2_500_000);
    // all eight cross in one call, each exactly once, in ascending order
    assert_eq!(crossed, vec![0, 1, 2, 3, 4, 5, 6, 7]);
    assert!(t.entries.iter().all(|m| m.unlocked));
    let again = t.evaluate(2_500_000);
    assert!(again.is_empty());
}

#[test]
fn scenario_d_unlock_delta_in_one_call() {
    let mut state = state_at(0);
    let mut inv = Investor { locked_amount: 1_000, unlocked_amount: 0 };
    let delta = unlock_tokens(&mut state, &mut inv, 2_500_000).unwrap();
    // seven ten-percent shares plus the final hundred-percent share
    assert_eq!(delta, 7 * 100 + 1_000);
    assert_eq!(inv.unlocked_amount, 1_700);
    assert_eq!(inv.locked_amount, 1_000);
}

#[test]
fn evaluate_idempotent_same_valuation() {
    let mut t = MilestoneTable::standard();
    let first = t.evaluate(650_000);
    assert_eq!(first, vec![0, 1, 2, 3, 4]);
    let before = flags(&t);
    let second = t.evaluate(650_000);
    assert!(second.is_empty());
    assert_eq!(flags(&t), before);
    let lower = t.evaluate(100_000);
    assert!(lower.is_empty());
    assert_eq!(flags(&t), before);
}

#[test]
fn evaluate_monotonic_crossing() {
    // two staged evaluations cross, together, what one late evaluation crosses
    let mut staged = MilestoneTable::standard();
    let first = staged.evaluate(105_500);
    assert_eq!(first, vec![0, 1]);
    let second = staged.evaluate(395_000);
    assert_eq!(second, vec![2, 3]);
    let mut direct = MilestoneTable::standard();
    let all = direct.evaluate(395_000);
    let mut union = first.clone();
    union.extend(second.iter().copied());
    assert_eq!(union, all);
    assert_eq!(flags(&staged), flags(&direct));
}

#[test]
fn unlocked_flag_never_reverts() {
    let mut t = MilestoneTable::standard();
    t.evaluate(225_000);
    let before = flags(&t);
    assert_eq!(
        before,
        vec![true, true, true, false, false, false, false, false]
    );
    t.evaluate(0);
    assert_eq!(flags(&t), before);
}

#[test]
fn newly_crossed_previews_without_mutation() {
    let t = MilestoneTable::standard();
    let preview = t.newly_crossed(105_500);
    assert_eq!(preview, vec![0, 1]);
    assert!(t.entries.iter().all(|m| !m.unlocked));
}

#[test]
fn apply_unlock_credits_listed_shares() {
    let t = MilestoneTable::standard();
    let mut inv = Investor { locked_amount: 1_000, unlocked_amount: 0 };
    let delta = apply_unlock(&mut inv, &t, &vec![0, 7]).unwrap();
    assert_eq!(delta, 100 + 1_000);
    assert_eq!(inv.unlocked_amount, 1_100);
    assert_eq!(inv.locked_amount, 1_000);
}

#[test]
fn apply_unlock_of_nothing_credits_nothing() {
    let t = MilestoneTable::standard();
    let mut inv = Investor { locked_amount: 1_000, unlocked_amount: 5 };
    let delta = apply_unlock(&mut inv, &t, &Vec::new()).unwrap();
    assert_eq!(delta, 0);
    assert_eq!(inv.unlocked_amount, 5);
}

#[test]
fn unlock_crosses_every_reached_milestone() {
    let mut state = state_at(0);
    let mut inv = Investor { locked_amount: 1_000, unlocked_amount: 0 };
    let delta = unlock_tokens(&mut state, &mut inv, 105_500).unwrap();
    assert_eq!(delta, 200);
    assert_eq!(inv.unlocked_amount, 200);
}

#[test]
fn unlock_never_credits_twice() {
    let mut state = state_at(0);
    let mut inv = Investor { locked_amount: 1_000, unlocked_amount: 0 };
    assert_eq!(unlock_tokens(&mut state, &mut inv, 45_000).unwrap(), 100);
    assert_eq!(unlock_tokens(&mut state, &mut inv, 45_000).unwrap(), 0);
    assert_eq!(inv.unlocked_amount, 100);
    assert_eq!(unlock_tokens(&mut state, &mut inv, 105_500).unwrap(), 100);
    assert_eq!(inv.unlocked_amount, 200);
}

#[test]
fn unlock_shares_follow_current_locked_balance() {
    // each crossing reads the locked balance at that moment: locking more
    // between crossings raises later shares
    let mut state = state_at(0);
    let mut inv = Investor { locked_amount: 0, unlocked_amount: 0 };
    lock_tokens(&mut inv, 1_000).unwrap();
    assert_eq!(unlock_tokens(&mut state, &mut inv, 45_000).unwrap(), 100);
    lock_tokens(&mut inv, 1_000).unwrap();
    assert_eq!(unlock_tokens(&mut state, &mut inv, 105_500).unwrap(), 200);
    assert_eq!(inv.unlocked_amount, 300);
    assert_eq!(inv.locked_amount, 2_000);
}
