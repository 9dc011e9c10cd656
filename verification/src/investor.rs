use vstd::arithmetic::div_mod::lemma_div_is_ordered;
use vstd::prelude::*;

use crate::errors::HotwingsError;
use crate::milestones::{
    after_evaluation, crossed_delta, crossed_index_seq, crossed_shares_fit, crosses,
    lemma_crossed_index_seq_members, lemma_evaluation_preserves_well_formed, share_fits,
    share_of_milestone, Milestone, MilestoneTable,
};
use crate::state::HotwingsState;

verus! {

/// InvestorAccount: per-participant record of locked and unlocked token
/// amounts, tracked as two separate counters.  Unlocking credits the
/// unlocked counter and never decrements the locked one.
#[derive(Clone, Copy, Debug, PartialEq, Eq, Structural)]
pub struct Investor {
    pub locked_amount: u64,
    pub unlocked_amount: u64,
}

/// The sum, over the listed milestone indices, of the share each one owes
/// from a locked balance.
pub open spec fn delta_of_indices(locked: u64, s: Seq<Milestone>, idxs: Seq<usize>) -> int
    decreases idxs.len(),
{
    if idxs.len() == 0 {
        0
    } else {
        delta_of_indices(locked, s, idxs.drop_last()) + share_of_milestone(
            locked,
            s[idxs.last() as int],
        )
    }
}

/// Whether every listed share fits the 64-bit range.
pub open spec fn indexed_shares_fit(locked: u64, s: Seq<Milestone>, idxs: Seq<usize>) -> bool {
    forall|k: int| 0 <= k < idxs.len() ==> share_fits(locked, s[idxs[k] as int])
}

/// Whether an unlock evaluation fits the numeric range for this investor:
/// every owed share and the credited total stay within 64 bits.
pub open spec fn unlock_fits(inv: Investor, s: Seq<Milestone>, v: u64) -> bool {
    &&& crossed_shares_fit(inv.locked_amount, s, v)
    &&& inv.unlocked_amount + crossed_delta(inv.locked_amount, s, v) <= u64::MAX
}

proof fn lemma_share_nonneg(locked: u64, m: Milestone)
    ensures
        share_of_milestone(locked, m) >= 0,
{
    assert(locked * m.unlock_pct >= 0) by (nonlinear_arith);
    lemma_div_is_ordered(0, locked * m.unlock_pct, 100);
}

/// A prefix of the index list owes at most what the whole list owes.
proof fn lemma_delta_prefix_le(locked: u64, s: Seq<Milestone>, idxs: Seq<usize>, k: int)
    requires
        0 <= k <= idxs.len(),
    ensures
        delta_of_indices(locked, s, idxs.take(k)) <= delta_of_indices(locked, s, idxs),
    decreases idxs.len(),
{
    if k == idxs.len() {
        assert(idxs.take(k) =~= idxs);
    } else {
        let part = idxs.drop_last();
        assert(idxs.take(k) =~= part.take(k));
        lemma_delta_prefix_le(locked, s, part, k);
        lemma_share_nonneg(locked, s[idxs.last() as int]);
    }
}

/// The owed sum only reads the listed entries: schedules that agree there
/// owe the same.
proof fn lemma_delta_same_entries(
    locked: u64,
    s1: Seq<Milestone>,
    s2: Seq<Milestone>,
    idxs: Seq<usize>,
)
    requires
        forall|k: int|
            0 <= k < idxs.len() ==> idxs[k] < s1.len() && idxs[k] < s2.len() && s1[idxs[k] as int]
                == s2[idxs[k] as int],
    ensures
        delta_of_indices(locked, s1, idxs) == delta_of_indices(locked, s2, idxs),
    decreases idxs.len(),
{
    if idxs.len() > 0 {
        lemma_delta_same_entries(locked, s1, s2, idxs.drop_last());
    }
}

/// Summing the shares over the newly crossed index list equals the direct
/// sum over the schedule.
proof fn lemma_delta_of_crossed(locked: u64, s: Seq<Milestone>, v: u64, idxs: Seq<usize>)
    requires
        idxs.len() == crossed_index_seq(s, v).len(),
        forall|k: int| 0 <= k < idxs.len() ==> idxs[k] as int == crossed_index_seq(s, v)[k],
    ensures
        delta_of_indices(locked, s, idxs) == crossed_delta(locked, s, v),
    decreases s.len(),
{
    let whole = crossed_index_seq(s, v);
    if s.len() > 0 {
        let sp = s.drop_last();
        let part = crossed_index_seq(sp, v);
        lemma_crossed_index_seq_members(sp, v);
        if crosses(s.last(), v) {
            let idxsp = idxs.drop_last();
            assert forall|k: int| 0 <= k < idxsp.len() implies idxsp[k] as int == part[k] by {
                assert(idxs[k] as int == whole[k]);
                assert(whole[k] == part[k]);
            }
            lemma_delta_of_crossed(locked, sp, v, idxsp);
            assert forall|k: int|
                0 <= k < idxsp.len() implies idxsp[k] < s.len() && idxsp[k] < sp.len() && s[idxsp[k]
                as int] == sp[idxsp[k] as int] by {
                assert(idxsp[k] as int == part[k]);
                assert(0 <= part[k] < sp.len());
            }
            lemma_delta_same_entries(locked, s, sp, idxsp);
            assert(idxs.last() as int == whole.last());
            assert(whole.last() == s.len() - 1);
        } else {
            lemma_delta_of_crossed(locked, sp, v, idxs);
            assert forall|k: int|
                0 <= k < idxs.len() implies idxs[k] < s.len() && idxs[k] < sp.len() && s[idxs[k]
                as int] == sp[idxs[k] as int] by {
                assert(idxs[k] as int == part[k]);
                assert(0 <= part[k] < sp.len());
            }
            lemma_delta_same_entries(locked, s, sp, idxs);
        }
    }
}

/// The listed shares fit exactly when every newly crossed share fits.
proof fn lemma_fit_of_crossed(locked: u64, s: Seq<Milestone>, v: u64, idxs: Seq<usize>)
    requires
        idxs.len() == crossed_index_seq(s, v).len(),
        forall|k: int| 0 <= k < idxs.len() ==> idxs[k] as int == crossed_index_seq(s, v)[k],
    ensures
        indexed_shares_fit(locked, s, idxs) <==> crossed_shares_fit(locked, s, v),
{
    let cis = crossed_index_seq(s, v);
    lemma_crossed_index_seq_members(s, v);
    if indexed_shares_fit(locked, s, idxs) {
        assert forall|i: int| 0 <= i < s.len() && crosses(s[i], v) implies share_fits(
            locked,
            s[i],
        ) by {
            assert(cis.contains(i));
            let k = choose|k: int| 0 <= k < cis.len() && cis[k] == i;
            assert(idxs[k] as int == i);
            assert(share_fits(locked, s[idxs[k] as int]));
        }
    }
    if crossed_shares_fit(locked, s, v) {
        assert forall|k: int| 0 <= k < idxs.len() implies share_fits(locked, s[idxs[k] as int]) by {
            assert(idxs[k] as int == cis[k]);
            assert(0 <= cis[k] < s.len() && crosses(s[cis[k]], v));
        }
    }
}

/// InvestorLedger lock operation: adds to the locked counter.  Rejects a
/// zero amount with `InvalidLockAmount` and an overflowing balance with
/// `ArithmeticOverflow`; no upper bound is enforced here, since the wallet
/// cap restricts transfers, not locking.
pub fn lock_tokens(investor: &mut Investor, amount: u64) -> (r: Result<(), HotwingsError>)
    ensures
        match r {
            Ok(()) => {
                &&& amount > 0
                &&& old(investor).locked_amount + amount <= u64::MAX
                &&& final(investor).locked_amount == old(investor).locked_amount + amount
                &&& final(investor).unlocked_amount == old(investor).unlocked_amount
            },
            Err(e) => {
                &&& *final(investor) == *old(investor)
                &&& ((e == HotwingsError::InvalidLockAmount && amount == 0) || (e
                    == HotwingsError::ArithmeticOverflow && amount > 0 && old(
                    investor,
                ).locked_amount + amount > u64::MAX))
            },
        },
{
    if amount == 0 {
        return Err(HotwingsError::InvalidLockAmount);
    }
    match investor.locked_amount.checked_add(amount) {
        Some(total) => {
            investor.locked_amount = total;
            Ok(())
        },
        None => Err(HotwingsError::ArithmeticOverflow),
    }
}

/// InvestorLedger credit operation: for each listed milestone index,
/// computes floor(locked_amount * unlock_pct / 100) from the current locked
/// balance, accumulates the shares, and adds the total to the unlocked
/// counter.  The locked counter is not decremented: locked and unlocked are
/// separate counters, not one pool with a moving boundary.  Rejects with
/// `ArithmeticOverflow`, changing nothing, exactly when some share or the
/// credited total leaves the 64-bit range.
pub fn apply_unlock(
    investor: &mut Investor,
    table: &MilestoneTable,
    newly_crossed: &Vec<usize>,
) -> (r: Result<u64, HotwingsError>)
    requires
        forall|k: int| 0 <= k < newly_crossed@.len() ==> newly_crossed@[k] < table.entries@.len(),
    ensures
        match r {
            Ok(delta) => {
                &&& indexed_shares_fit(old(investor).locked_amount, table.entries@, newly_crossed@)
                &&& delta == delta_of_indices(
                    old(investor).locked_amount,
                    table.entries@,
                    newly_crossed@,
                )
                &&& old(investor).unlocked_amount + delta <= u64::MAX
                &&& final(investor).locked_amount == old(investor).locked_amount
                &&& final(investor).unlocked_amount == old(investor).unlocked_amount + delta
            },
            Err(e) => {
                &&& e == HotwingsError::ArithmeticOverflow
                &&& *final(investor) == *old(investor)
                &&& !(indexed_shares_fit(old(investor).locked_amount, table.entries@, newly_crossed@)
                    && old(investor).unlocked_amount + delta_of_indices(
                    old(investor).locked_amount,
                    table.entries@,
                    newly_crossed@,
                ) <= u64::MAX)
            },
        },
{
    let locked = investor.locked_amount;
    let mut delta: u64 = 0;
    let mut k: usize = 0;
    let n = newly_crossed.len();
    while k < n
        invariant
            k <= n,
            n == newly_crossed@.len(),
            *investor == *old(investor),
            locked == old(investor).locked_amount,
            forall|j: int|
                0 <= j < newly_crossed@.len() ==> newly_crossed@[j] < table.entries@.len(),
            indexed_shares_fit(locked, table.entries@, newly_crossed@.take(k as int)),
            delta == delta_of_indices(locked, table.entries@, newly_crossed@.take(k as int)),
        decreases n - k,
    {
        let ghost prefix = newly_crossed@.take(k as int);
        let idx = newly_crossed[k];
        let m = table.entries[idx];
        let scaled = match locked.checked_mul(m.unlock_pct as u64) {
            Some(p) => p,
            None => {
                proof {
                    assert(!share_fits(locked, table.entries@[newly_crossed@[k as int] as int]));
                    assert(!indexed_shares_fit(locked, table.entries@, newly_crossed@));
                }
                return Err(HotwingsError::ArithmeticOverflow);
            },
        };
        let share = scaled / 100;
        delta = match delta.checked_add(share) {
            Some(d) => d,
            None => {
                proof {
                    let next = newly_crossed@.take(k as int + 1);
                    assert(next.drop_last() =~= prefix);
                    assert(next.last() == newly_crossed@[k as int]);
                    assert(delta_of_indices(locked, table.entries@, next) > u64::MAX);
                    lemma_delta_prefix_le(locked, table.entries@, newly_crossed@, k as int + 1);
                }
                return Err(HotwingsError::ArithmeticOverflow);
            },
        };
        k = k + 1;
        proof {
            let next = newly_crossed@.take(k as int);
            assert(next.drop_last() =~= prefix);
            assert(next.last() == newly_crossed@[k as int - 1]);
        }
    }
    proof {
        assert(newly_crossed@.take(n as int) =~= newly_crossed@);
    }
    let new_unlocked = match investor.unlocked_amount.checked_add(delta) {
        Some(x) => x,
        None => {
            return Err(HotwingsError::ArithmeticOverflow);
        },
    };
    investor.unlocked_amount = new_unlocked;
    Ok(delta)
}

/// Unlock operation: evaluates the milestone schedule against the current
/// valuation, credits the investor with the sum of the newly crossed
/// shares — each computed from the current locked balance — and marks the
/// crossed milestones.  All-or-nothing: on overflow nothing changes, and a
/// repeated call at the same or a lower valuation credits nothing.
pub fn unlock_tokens(
    state: &mut HotwingsState,
    investor: &mut Investor,
    current_market_cap: u64,
) -> (r: Result<u64, HotwingsError>)
    requires
        old(state).well_formed(),
    ensures
        final(state).well_formed(),
        old(state).config_eq(*final(state)),
        final(investor).locked_amount == old(investor).locked_amount,
        match r {
            Ok(delta) => {
                &&& unlock_fits(*old(investor), old(state).milestones.entries@, current_market_cap)
                &&& delta == crossed_delta(
                    old(investor).locked_amount,
                    old(state).milestones.entries@,
                    current_market_cap,
                )
                &&& final(investor).unlocked_amount == old(investor).unlocked_amount + delta
                &&& final(state).milestones.entries@ == after_evaluation(
                    old(state).milestones.entries@,
                    current_market_cap,
                )
            },
            Err(e) => {
                &&& e == HotwingsError::ArithmeticOverflow
                &&& !unlock_fits(
                    *old(investor),
                    old(state).milestones.entries@,
                    current_market_cap,
                )
                &&& *final(state) == *old(state)
                &&& *final(investor) == *old(investor)
            },
        },
{
    let ghost table0 = state.milestones;
    let crossed = state.milestones.newly_crossed(current_market_cap);
    proof {
        lemma_crossed_index_seq_members(table0.entries@, current_market_cap);
        assert forall|k: int| 0 <= k < crossed@.len() implies crossed@[k]
            < table0.entries@.len() by {
            assert(crossed@[k] as int == crossed_index_seq(table0.entries@, current_market_cap)[k]);
        }
        lemma_delta_of_crossed(
            investor.locked_amount,
            table0.entries@,
            current_market_cap,
            crossed@,
        );
        lemma_fit_of_crossed(investor.locked_amount, table0.entries@, current_market_cap, crossed@);
    }
    let delta = match apply_unlock(investor, &state.milestones, &crossed) {
        Ok(d) => d,
        Err(e) => {
            return Err(e);
        },
    };
    let _marked = state.milestones.evaluate(current_market_cap);
    proof {
        lemma_evaluation_preserves_well_formed(table0, current_market_cap);
    }
    Ok(delta)
}

} // verus!
