use vstd::prelude::*;

verus! {

/// A valuation threshold that, once crossed, unlocks a fixed percentage of an
/// investor's locked tokens.  The `unlocked` flag is one-way: evaluation only
/// ever sets it, never clears it.
#[derive(Clone, Copy, Debug, PartialEq, Eq, Structural)]
pub struct Milestone {
    /// The valuation that must be reached for this milestone to unlock.
    pub cap: u64,
    /// The percentage of an investor's locked balance released by this
    /// milestone, relative to the locked balance at the time of crossing.
    pub unlock_pct: u8,
    /// Whether this milestone has already been crossed.
    pub unlocked: bool,
}

/// Whether an evaluation at valuation `v` newly crosses milestone `m`.
pub open spec fn crosses(m: Milestone, v: u64) -> bool {
    !m.unlocked && m.cap <= v
}

/// The milestone sequence after one evaluation at valuation `v`: every entry
/// whose cap is reached is marked unlocked; caps and percentages are kept.
pub open spec fn after_evaluation(s: Seq<Milestone>, v: u64) -> Seq<Milestone> {
    s.map(
        |i: int, m: Milestone|
            Milestone { cap: m.cap, unlock_pct: m.unlock_pct, unlocked: m.unlocked || m.cap <= v },
    )
}

/// The indices of the milestones an evaluation at `v` newly crosses, in
/// ascending order.
pub open spec fn crossed_index_seq(s: Seq<Milestone>, v: u64) -> Seq<int>
    decreases s.len(),
{
    if s.len() == 0 {
        Seq::<int>::empty()
    } else if crosses(s.last(), v) {
        crossed_index_seq(s.drop_last(), v).push(s.len() - 1)
    } else {
        crossed_index_seq(s.drop_last(), v)
    }
}

/// The set of indices of the milestones an evaluation at `v` newly crosses.
pub open spec fn crossing_indices(s: Seq<Milestone>, v: u64) -> Set<int> {
    Set::new(|i: int| 0 <= i < s.len() && crosses(s[i], v))
}

/// The share owed for milestone `m` from a locked balance:
/// floor(locked * unlock_pct / 100).
pub open spec fn share_of_milestone(locked: u64, m: Milestone) -> int {
    locked * m.unlock_pct / 100
}

/// Whether the product locked * unlock_pct fits the 64-bit range, so the
/// share can be computed with checked arithmetic.
pub open spec fn share_fits(locked: u64, m: Milestone) -> bool {
    locked * m.unlock_pct <= u64::MAX
}

/// Whether every share an evaluation at `v` would owe from `locked` fits the
/// 64-bit range.
pub open spec fn crossed_shares_fit(locked: u64, s: Seq<Milestone>, v: u64) -> bool {
    forall|i: int| 0 <= i < s.len() && crosses(s[i], v) ==> share_fits(locked, s[i])
}

/// The total delta an evaluation at `v` owes from a locked balance: the sum,
/// over the newly crossed milestones, of floor(locked * unlock_pct / 100).
pub open spec fn crossed_delta(locked: u64, s: Seq<Milestone>, v: u64) -> int
    decreases s.len(),
{
    if s.len() == 0 {
        0
    } else {
        crossed_delta(locked, s.drop_last(), v) + if crosses(s.last(), v) {
            share_of_milestone(locked, s.last())
        } else {
            0
        }
    }
}

/// The standard schedule: eight milestones with strictly ascending caps,
/// seven releasing ten percent each and a final one releasing everything.
pub open spec fn standard_milestones() -> Seq<Milestone> {
    seq![
        Milestone { cap: 45000, unlock_pct: 10, unlocked: false },
        Milestone { cap: 105500, unlock_pct: 10, unlocked: false },
        Milestone { cap: 225000, unlock_pct: 10, unlocked: false },
        Milestone { cap: 395000, unlock_pct: 10, unlocked: false },
        Milestone { cap: 650000, unlock_pct: 10, unlocked: false },
        Milestone { cap: 997000, unlock_pct: 10, unlocked: false },
        Milestone { cap: 1574000, unlock_pct: 10, unlocked: false },
        Milestone { cap: 2500000, unlock_pct: 100, unlocked: false },
    ]
}

/// The ordered unlock schedule: milestones strictly increasing by cap, with
/// percentages of at most one hundred.
#[derive(Debug)]
pub struct MilestoneTable {
    pub entries: Vec<Milestone>,
}

impl MilestoneTable {
    /// Builds the standard schedule.
    pub fn standard() -> (t: MilestoneTable)
        ensures
            t.entries@ == standard_milestones(),
            t.well_formed(),
    {
        let mut entries: Vec<Milestone> = Vec::new();
        entries.push(Milestone { cap: 45000, unlock_pct: 10, unlocked: false });
        entries.push(Milestone { cap: 105500, unlock_pct: 10, unlocked: false });
        entries.push(Milestone { cap: 225000, unlock_pct: 10, unlocked: false });
        entries.push(Milestone { cap: 395000, unlock_pct: 10, unlocked: false });
        entries.push(Milestone { cap: 650000, unlock_pct: 10, unlocked: false });
        entries.push(Milestone { cap: 997000, unlock_pct: 10, unlocked: false });
        entries.push(Milestone { cap: 1574000, unlock_pct: 10, unlocked: false });
        entries.push(Milestone { cap: 2500000, unlock_pct: 100, unlocked: false });
        let t = MilestoneTable { entries };
        proof {
            assert(t.entries@ =~= standard_milestones());
        }
        t
    }

    /// The structural invariant of the schedule, established at
    /// initialization and preserved by evaluation.
    pub open spec fn well_formed(self) -> bool {
        &&& self.entries@.len() > 0
        &&& forall|i: int, j: int|
            0 <= i < j < self.entries@.len() ==> self.entries@[i].cap < self.entries@[j].cap
        &&& forall|i: int| 0 <= i < self.entries@.len() ==> self.entries@[i].unlock_pct <= 100
    }

    /// The indices an evaluation at `current_valuation` would newly cross,
    /// without mutating anything.
    pub fn newly_crossed(&self, current_valuation: u64) -> (crossed: Vec<usize>)
        ensures
            crossed@.len() == crossed_index_seq(self.entries@, current_valuation).len(),
            forall|k: int|
                0 <= k < crossed@.len() ==> crossed@[k] as int == crossed_index_seq(
                    self.entries@,
                    current_valuation,
                )[k],
    {
        let mut crossed: Vec<usize> = Vec::new();
        let n = self.entries.len();
        let mut i: usize = 0;
        while i < n
            invariant
                i <= n,
                n == self.entries@.len(),
                crossed@.len() == crossed_index_seq(
                    self.entries@.take(i as int),
                    current_valuation,
                ).len(),
                forall|k: int|
                    0 <= k < crossed@.len() ==> crossed@[k] as int == crossed_index_seq(
                        self.entries@.take(i as int),
                        current_valuation,
                    )[k],
            decreases n - i,
        {
            let ghost prefix = self.entries@.take(i as int);
            let m = self.entries[i];
            if !m.unlocked && m.cap <= current_valuation {
                crossed.push(i);
            }
            i = i + 1;
            proof {
                let next = self.entries@.take(i as int);
                assert(next.drop_last() =~= prefix);
                assert(next.last() == self.entries@[i - 1]);
            }
        }
        proof {
            assert(self.entries@.take(n as int) =~= self.entries@);
        }
        crossed
    }

    /// MilestoneTable evaluation: scans the schedule in ascending order and
    /// marks every not-yet-unlocked milestone whose cap is reached; returns
    /// the newly crossed indices.  It mutates nothing but the `unlocked`
    /// flags and never touches investor balances.
    pub fn evaluate(&mut self, current_valuation: u64) -> (crossed: Vec<usize>)
        ensures
            final(self).entries@ == after_evaluation(old(self).entries@, current_valuation),
            crossed@.len() == crossed_index_seq(old(self).entries@, current_valuation).len(),
            forall|k: int|
                0 <= k < crossed@.len() ==> crossed@[k] as int == crossed_index_seq(
                    old(self).entries@,
                    current_valuation,
                )[k],
    {
        let crossed = self.newly_crossed(current_valuation);
        let n = self.entries.len();
        let mut updated: Vec<Milestone> = Vec::new();
        let mut i: usize = 0;
        while i < n
            invariant
                i <= n,
                n == self.entries@.len(),
                updated@ =~= after_evaluation(self.entries@.take(i as int), current_valuation),
            decreases n - i,
        {
            let m = self.entries[i];
            updated.push(
                Milestone {
                    cap: m.cap,
                    unlock_pct: m.unlock_pct,
                    unlocked: m.unlocked || m.cap <= current_valuation,
                },
            );
            i = i + 1;
            proof {
                assert(updated@ =~= after_evaluation(
                    self.entries@.take(i as int),
                    current_valuation,
                ));
            }
        }
        proof {
            assert(self.entries@.take(n as int) =~= self.entries@);
            assert(updated@ =~= after_evaluation(self.entries@, current_valuation));
        }
        self.entries = updated;
        crossed
    }
}

/// Every newly crossed index is in bounds, names a milestone that the
/// evaluation crosses, and every such milestone is listed.
pub proof fn lemma_crossed_index_seq_members(s: Seq<Milestone>, v: u64)
    ensures
        forall|k: int|
            0 <= k < crossed_index_seq(s, v).len() ==> 0 <= #[trigger] crossed_index_seq(s, v)[k]
                < s.len() && crosses(s[crossed_index_seq(s, v)[k]], v),
        forall|i: int| 0 <= i < s.len() && crosses(s[i], v) ==> crossed_index_seq(s, v).contains(i),
    decreases s.len(),
{
    if s.len() > 0 {
        let prefix = s.drop_last();
        lemma_crossed_index_seq_members(prefix, v);
        let whole = crossed_index_seq(s, v);
        let part = crossed_index_seq(prefix, v);
        assert forall|i: int| 0 <= i < s.len() && crosses(s[i], v) implies whole.contains(i) by {
            if i < s.len() - 1 {
                assert(part.contains(i));
                let k = choose|k: int| 0 <= k < part.len() && part[k] == i;
                assert(whole[k] == i);
            } else {
                assert(whole.last() == i);
            }
        }
    }
}

/// The newly crossed indices are strictly ascending: each qualifying
/// milestone appears exactly once.
pub proof fn lemma_crossed_index_seq_sorted(s: Seq<Milestone>, v: u64)
    ensures
        forall|k1: int, k2: int|
            0 <= k1 < k2 < crossed_index_seq(s, v).len() ==> crossed_index_seq(s, v)[k1]
                < crossed_index_seq(s, v)[k2],
    decreases s.len(),
{
    if s.len() > 0 {
        let prefix = s.drop_last();
        lemma_crossed_index_seq_sorted(prefix, v);
        lemma_crossed_index_seq_members(prefix, v);
        let whole = crossed_index_seq(s, v);
        let part = crossed_index_seq(prefix, v);
        assert forall|k1: int, k2: int| 0 <= k1 < k2 < whole.len() implies whole[k1]
            < whole[k2] by {
            if k2 < part.len() {
                assert(whole[k1] == part[k1] && whole[k2] == part[k2]);
            } else {
                assert(whole[k1] == part[k1] && part[k1] < prefix.len());
            }
        }
    }
}

/// A schedule in which no milestone qualifies yields no crossed index.
proof fn lemma_crossed_index_seq_empty(s: Seq<Milestone>, v: u64)
    requires
        forall|i: int| 0 <= i < s.len() ==> !crosses(s[i], v),
    ensures
        crossed_index_seq(s, v).len() == 0,
    decreases s.len(),
{
    if s.len() > 0 {
        lemma_crossed_index_seq_empty(s.drop_last(), v);
    }
}

/// Law: milestone unlocking is one-way.  Once a milestone is marked
/// unlocked, no evaluation at any valuation clears the flag.
pub proof fn lemma_unlocked_monotonic(s: Seq<Milestone>, v: u64)
    ensures
        forall|i: int|
            0 <= i < s.len() && s[i].unlocked ==> #[trigger] after_evaluation(s, v)[i].unlocked,
{
}

/// Law: crossing is monotonic in the valuation.  For v1 <= v2 an evaluation
/// at v2 crosses every index an evaluation at v1 would cross, and evaluating
/// at v1 and then at v2 crosses, over the two calls together, exactly the
/// indices a single evaluation at v2 crosses.
pub proof fn lemma_crossing_monotonic(s: Seq<Milestone>, v1: u64, v2: u64)
    requires
        v1 <= v2,
    ensures
        crossing_indices(s, v1).subset_of(crossing_indices(s, v2)),
        crossing_indices(s, v1) + crossing_indices(after_evaluation(s, v1), v2) =~= crossing_indices(
            s,
            v2,
        ),
{
    let s1 = after_evaluation(s, v1);
    assert forall|i: int| 0 <= i < s.len() implies (crosses(s1[i], v2) <==> (crosses(s[i], v2)
        && !crosses(s[i], v1))) by {
        assert(s1[i] == Milestone {
            cap: s[i].cap,
            unlock_pct: s[i].unlock_pct,
            unlocked: s[i].unlocked || s[i].cap <= v1,
        });
    }
}

/// Law: evaluation is idempotent.  After an evaluation at v1, a second
/// evaluation at any valuation v2 <= v1 crosses nothing and leaves the
/// schedule unchanged.
pub proof fn lemma_evaluation_idempotent(s: Seq<Milestone>, v1: u64, v2: u64)
    requires
        v2 <= v1,
    ensures
        crossed_index_seq(after_evaluation(s, v1), v2).len() == 0,
        after_evaluation(after_evaluation(s, v1), v2) =~= after_evaluation(s, v1),
{
    let s1 = after_evaluation(s, v1);
    assert forall|i: int| 0 <= i < s1.len() implies !crosses(s1[i], v2) by {
        assert(s1[i] == Milestone {
            cap: s[i].cap,
            unlock_pct: s[i].unlock_pct,
            unlocked: s[i].unlocked || s[i].cap <= v1,
        });
    }
    lemma_crossed_index_seq_empty(s1, v2);
}

/// Evaluation keeps every cap and percentage; it only sets flags.  A
/// well-formed schedule therefore stays well formed.
pub proof fn lemma_evaluation_preserves_well_formed(t: MilestoneTable, v: u64)
    requires
        t.well_formed(),
    ensures
        forall|u: MilestoneTable|
            u.entries@ == after_evaluation(t.entries@, v) ==> #[trigger] u.well_formed(),
{
    assert forall|u: MilestoneTable|
        u.entries@ == after_evaluation(t.entries@, v) implies #[trigger] u.well_formed() by {
        let s = t.entries@;
        assert(forall|i: int|
            0 <= i < s.len() ==> #[trigger] after_evaluation(s, v)[i].cap == s[i].cap
                && after_evaluation(s, v)[i].unlock_pct == s[i].unlock_pct);
    }
}

} // verus!
