//! The expiry sweep: find every pending entry past its deadline, batch the
//! due entries per owner, and mark the reversed ones resolved.
//!
//! The sweep is split around the provider calls.  [`plan_sweep`] reads one
//! table and produces one group per owner that has due entries; the caller
//! establishes a single provider session per group (one authentication per
//! owner per sweep, however many entries the owner has accumulated), asks
//! the provider to reverse each target in the group, and then hands the
//! targets whose call succeeded to the bulk transition of the store.
//! Targets whose call failed are left off that list, stay `Pending`, and
//! are picked up again by the next sweep; entries marked `Resolved` are
//! never picked up again.  One owner's failure never touches another
//! owner's group.

use vstd::prelude::*;

use crate::models::{MuteEntry, STATUS_PENDING, STATUS_RESOLVED};
use crate::store::{is_pending, str_eq, target_listed, with_status, MuteTable};

verus! {

/// An entry that a sweep at time `now` must reverse: still pending and past
/// its deadline.
pub open spec fn is_due(e: MuteEntry, now: int) -> bool {
    is_pending(e) && e.expiration_date < now
}

/// The targets of `owner`'s due entries, in table order.
pub open spec fn due_targets(rows: Seq<MuteEntry>, now: int, owner: Seq<char>) -> Seq<Seq<char>>
    decreases rows.len(),
{
    if rows.len() == 0 {
        Seq::empty()
    } else {
        due_targets(rows.drop_last(), now, owner) + if is_due(rows.last(), now)
            && rows.last().owner@ == owner {
            seq![rows.last().target@]
        } else {
            Seq::empty()
        }
    }
}

/// How many entries a sweep at `now` finds due, over all owners.
pub open spec fn count_due(rows: Seq<MuteEntry>, now: int) -> nat
    decreases rows.len(),
{
    if rows.len() == 0 {
        0
    } else {
        count_due(rows.drop_last(), now) + if is_due(rows.last(), now) {
            1nat
        } else {
            0
        }
    }
}

/// One owner's batch in a sweep: one provider session is established for
/// `owner` and each listed target is reversed within it.
pub struct OwnerGroup {
    pub owner: String,
    pub targets: Vec<String>,
}

/// What a sweep plan promises of a table at time `now`: each group carries
/// exactly its owner's due targets, no owner has two groups, no group is
/// empty, and every owner with a due entry has a group.
pub open spec fn plan_matches(plan: Seq<OwnerGroup>, rows: Seq<MuteEntry>, now: int) -> bool {
    &&& forall|k: int|
        0 <= k < plan.len() ==> (#[trigger] plan[k]).targets.deep_view() == due_targets(
            rows,
            now,
            plan[k].owner@,
        )
    &&& forall|k1: int, k2: int|
        0 <= k1 < k2 < plan.len() ==> (#[trigger] plan[k1]).owner@ != (#[trigger] plan[k2]).owner@
    &&& forall|k: int| 0 <= k < plan.len() ==> (#[trigger] plan[k]).targets@.len() > 0
    &&& forall|j: int|
        0 <= j < rows.len() && is_due(#[trigger] rows[j], now) ==> exists|k: int|
            0 <= k < plan.len() && (#[trigger] plan[k]).owner@ == rows[j].owner@
}

/// The total number of provider reversal calls a plan asks for.
pub open spec fn plan_total(plan: Seq<OwnerGroup>) -> nat
    decreases plan.len(),
{
    if plan.len() == 0 {
        0
    } else {
        plan_total(plan.drop_last()) + plan.last().targets@.len()
    }
}

/// Replacing one group by one with one more target raises the total by one.
proof fn lemma_plan_total_update(plan: Seq<OwnerGroup>, k: int, g: OwnerGroup)
    requires
        0 <= k < plan.len(),
        g.targets@.len() == plan[k].targets@.len() + 1,
    ensures
        plan_total(plan.update(k, g)) == plan_total(plan) + 1,
    decreases plan.len(),
{
    let updated = plan.update(k, g);
    if k == plan.len() - 1 {
        assert(updated.drop_last() =~= plan.drop_last());
        assert(updated.last() == g);
    } else {
        assert(updated.drop_last() =~= plan.drop_last().update(k, g));
        assert(updated.last() == plan.last());
        lemma_plan_total_update(plan.drop_last(), k, g);
    }
}

/// An owner has due targets exactly when some row of the table is due and
/// belongs to that owner.
pub proof fn lemma_due_targets_witness(rows: Seq<MuteEntry>, now: int, owner: Seq<char>)
    ensures
        (due_targets(rows, now, owner).len() > 0) <==> (exists|j: int|
            0 <= j < rows.len() && is_due(#[trigger] rows[j], now) && rows[j].owner@ == owner),
    decreases rows.len(),
{
    if rows.len() > 0 {
        let prefix = rows.drop_last();
        lemma_due_targets_witness(prefix, now, owner);
        if is_due(rows.last(), now) && rows.last().owner@ == owner {
            assert(rows[rows.len() - 1] == rows.last());
        } else {
            if due_targets(rows, now, owner).len() > 0 {
                assert(due_targets(prefix, now, owner).len() > 0);
                let j = choose|j: int|
                    0 <= j < prefix.len() && is_due(#[trigger] prefix[j], now) && prefix[j].owner@
                        == owner;
                assert(rows[j] == prefix[j]);
            }
            if exists|j: int|
                0 <= j < rows.len() && is_due(#[trigger] rows[j], now) && rows[j].owner@ == owner {
                let j = choose|j: int|
                    0 <= j < rows.len() && is_due(#[trigger] rows[j], now) && rows[j].owner@
                        == owner;
                assert(j < prefix.len());
                assert(prefix[j] == rows[j]);
            }
        }
    }
}

/// The group of `owner` in `plan`, if any.
fn find_group(plan: &Vec<OwnerGroup>, owner: &str) -> (r: Option<usize>)
    ensures
        match r {
            Some(k) => k < plan@.len() && plan@[k as int].owner@ == owner@,
            None => forall|k: int| 0 <= k < plan@.len() ==> (#[trigger] plan@[k]).owner@ != owner@,
        },
{
    let mut k: usize = 0;
    while k < plan.len()
        invariant
            k <= plan@.len(),
            forall|j: int| 0 <= j < k ==> (#[trigger] plan@[j]).owner@ != owner@,
        decreases plan@.len() - k,
    {
        if str_eq(plan[k].owner.as_str(), owner) {
            return Some(k);
        }
        k += 1;
    }
    None
}

/// Plan one table's share of a sweep at time `now`: group the due entries by
/// owner.  The plan carries, for each owner with at least one due entry,
/// exactly that owner's due targets in table order — so the caller opens
/// exactly one provider session per such owner, and the reversal calls over
/// all groups number exactly the due entries, however the groups are
/// ordered.  A table with nothing due yields the empty plan.
pub fn plan_sweep(table: &MuteTable, now: i64) -> (plan: Vec<OwnerGroup>)
    ensures
        plan_matches(plan@, table.rows@, now as int),
        plan_total(plan@) == count_due(table.rows@, now as int),
        count_due(table.rows@, now as int) == 0 ==> plan@.len() == 0,
{
    let rows_len = table.rows.len();
    let mut plan: Vec<OwnerGroup> = Vec::new();
    let mut i: usize = 0;
    while i < rows_len
        invariant
            i <= table.rows@.len(),
            rows_len == table.rows@.len(),
            plan_matches(plan@, table.rows@.subrange(0, i as int), now as int),
            plan_total(plan@) == count_due(table.rows@.subrange(0, i as int), now as int),
            count_due(table.rows@.subrange(0, i as int), now as int) == 0 ==> plan@.len() == 0,
        decreases table.rows@.len() - i,
    {
        let ghost prefix = table.rows@.subrange(0, i as int);
        let ghost prefix1 = table.rows@.subrange(0, i as int + 1);
        let ghost rown = table.rows@[i as int];
        proof {
            assert(prefix1.drop_last() =~= prefix);
            assert(prefix1.last() == rown);
        }
        let e = &table.rows[i];
        if e.status == STATUS_PENDING && e.expiration_date < now {
            proof {
                assert(is_due(rown, now as int));
            }
            match find_group(&plan, e.owner.as_str()) {
                Some(k) => {
                    let ghost plan0 = plan@;
                    let ghost gowner = plan0[k as int].owner@;
                    proof {
                        assert(gowner == rown.owner@);
                    }
                    plan[k].targets.push(e.target.clone());
                    proof {
                        let g1 = plan@[k as int];
                        assert(plan@ == plan0.update(k as int, g1));
                        assert(g1.owner == plan0[k as int].owner);
                        assert(g1.targets@ == plan0[k as int].targets@.push(rown.target));
                        assert(g1.targets.deep_view() =~= plan0[k as int].targets.deep_view().push(
                            rown.target@,
                        ));
                        lemma_plan_total_update(plan0, k as int, g1);
                        assert forall|kk: int| 0 <= kk < plan@.len() implies (
                        #[trigger] plan@[kk]).targets.deep_view() == due_targets(
                            prefix1,
                            now as int,
                            plan@[kk].owner@,
                        ) by {
                            if kk == k {
                                assert(due_targets(prefix1, now as int, gowner) =~= due_targets(
                                    prefix,
                                    now as int,
                                    gowner,
                                ).push(rown.target@));
                            } else {
                                assert(plan@[kk] == plan0[kk]);
                                assert(plan0[kk].owner@ != gowner);
                                assert(due_targets(prefix1, now as int, plan0[kk].owner@)
                                    =~= due_targets(prefix, now as int, plan0[kk].owner@));
                            }
                        }
                        assert forall|j: int|
                            0 <= j < prefix1.len() && is_due(
                                #[trigger] prefix1[j],
                                now as int,
                            ) implies exists|kk: int|
                            0 <= kk < plan@.len() && (#[trigger] plan@[kk]).owner@
                                == prefix1[j].owner@ by {
                            if j < prefix.len() {
                                assert(prefix1[j] == prefix[j]);
                                let kk = choose|kk: int|
                                    0 <= kk < plan0.len() && (#[trigger] plan0[kk]).owner@
                                        == prefix[j].owner@;
                                assert(plan@[kk].owner@ == prefix1[j].owner@);
                            } else {
                                assert(plan@[k as int].owner@ == rown.owner@);
                            }
                        }
                        assert(count_due(prefix1, now as int) == count_due(prefix, now as int)
                            + 1);
                    }
                },
                None => {
                    let mut ts: Vec<String> = Vec::new();
                    ts.push(e.target.clone());
                    let g = OwnerGroup { owner: e.owner.clone(), targets: ts };
                    let ghost plan0 = plan@;
                    plan.push(g);
                    proof {
                        assert(plan@ == plan0.push(g));
                        assert(plan@.drop_last() =~= plan0);
                        assert(g.owner@ == rown.owner@);
                        assert(g.targets.deep_view() =~= seq![rown.target@]);
                        lemma_due_targets_witness(prefix, now as int, rown.owner@);
                        assert(due_targets(prefix, now as int, rown.owner@).len() == 0);
                        assert(due_targets(prefix, now as int, rown.owner@) =~= Seq::<
                            Seq<char>,
                        >::empty());
                        assert forall|kk: int| 0 <= kk < plan@.len() implies (
                        #[trigger] plan@[kk]).targets.deep_view() == due_targets(
                            prefix1,
                            now as int,
                            plan@[kk].owner@,
                        ) by {
                            if kk < plan0.len() {
                                assert(plan@[kk] == plan0[kk]);
                                assert(plan0[kk].owner@ != rown.owner@);
                                assert(due_targets(prefix1, now as int, plan0[kk].owner@)
                                    =~= due_targets(prefix, now as int, plan0[kk].owner@));
                            } else {
                                assert(plan@[kk] == g);
                                assert(due_targets(prefix1, now as int, rown.owner@)
                                    =~= due_targets(prefix, now as int, rown.owner@) + seq![
                                    rown.target@,
                                ]);
                                assert(due_targets(prefix1, now as int, rown.owner@)
                                    =~= seq![rown.target@]);
                            }
                        }
                        assert forall|j: int|
                            0 <= j < prefix1.len() && is_due(
                                #[trigger] prefix1[j],
                                now as int,
                            ) implies exists|kk: int|
                            0 <= kk < plan@.len() && (#[trigger] plan@[kk]).owner@
                                == prefix1[j].owner@ by {
                            if j < prefix.len() {
                                assert(prefix1[j] == prefix[j]);
                                let kk = choose|kk: int|
                                    0 <= kk < plan0.len() && (#[trigger] plan0[kk]).owner@
                                        == prefix[j].owner@;
                                assert(plan@[kk].owner@ == prefix1[j].owner@);
                            } else {
                                assert(plan@[plan0.len() as int].owner@ == rown.owner@);
                            }
                        }
                        assert(plan_total(plan@) == plan_total(plan0) + 1);
                        assert(count_due(prefix1, now as int) == count_due(prefix, now as int)
                            + 1);
                    }
                },
            }
        } else {
            proof {
                assert(!is_due(rown, now as int));
                assert forall|kk: int| 0 <= kk < plan@.len() implies (
                #[trigger] plan@[kk]).targets.deep_view() == due_targets(
                    prefix1,
                    now as int,
                    plan@[kk].owner@,
                ) by {
                    assert(due_targets(prefix1, now as int, plan@[kk].owner@) =~= due_targets(
                        prefix,
                        now as int,
                        plan@[kk].owner@,
                    ));
                }
                assert forall|j: int|
                    0 <= j < prefix1.len() && is_due(#[trigger] prefix1[j], now as int) implies
                    exists|kk: int|
                    0 <= kk < plan@.len() && (#[trigger] plan@[kk]).owner@ == prefix1[j].owner@ by {
                    assert(j < prefix.len());
                    assert(prefix1[j] == prefix[j]);
                }
                assert(count_due(prefix1, now as int) == count_due(prefix, now as int));
            }
        }
        i += 1;
    }
    proof {
        assert(table.rows@.subrange(0, table.rows@.len() as int) =~= table.rows@);
    }
    plan
}

/// A table none of whose deadlines has passed has nothing due.
pub proof fn lemma_no_entries_due(rows: Seq<MuteEntry>, now: int)
    requires
        forall|i: int| 0 <= i < rows.len() ==> now <= (#[trigger] rows[i]).expiration_date,
    ensures
        count_due(rows, now) == 0,
    decreases rows.len(),
{
    if rows.len() > 0 {
        let prefix = rows.drop_last();
        assert forall|i: int| 0 <= i < prefix.len() implies now <= (
        #[trigger] prefix[i]).expiration_date by {
            assert(prefix[i] == rows[i]);
        }
        lemma_no_entries_due(prefix, now);
        assert(rows[rows.len() - 1] == rows.last());
    }
}

/// A sweep run before any deadline has passed transitions zero entries: its
/// plan is empty, so no provider session is opened and no row is touched.
pub proof fn lemma_quiet_sweep(plan: Seq<OwnerGroup>, rows: Seq<MuteEntry>, now: int)
    requires
        plan_matches(plan, rows, now),
        plan_total(plan) == count_due(rows, now),
        forall|i: int| 0 <= i < rows.len() ==> now <= (#[trigger] rows[i]).expiration_date,
    ensures
        plan.len() == 0,
{
    lemma_no_entries_due(rows, now);
    if plan.len() > 0 {
        assert(plan.last() == plan[plan.len() - 1]);
        assert(plan.last().targets@.len() > 0);
        assert(plan_total(plan) >= plan.last().targets@.len());
    }
}

/// The due targets of `owner` that remain after those in `done` have been
/// reversed, in table order.
pub open spec fn remaining_due_targets(
    rows: Seq<MuteEntry>,
    now: int,
    owner: Seq<char>,
    done: Seq<Seq<char>>,
) -> Seq<Seq<char>>
    decreases rows.len(),
{
    if rows.len() == 0 {
        Seq::empty()
    } else {
        remaining_due_targets(rows.drop_last(), now, owner, done) + if is_due(rows.last(), now)
            && rows.last().owner@ == owner && !target_listed(done, rows.last().target@) {
            seq![rows.last().target@]
        } else {
            Seq::empty()
        }
    }
}

/// What the bulk transition after one owner's group leaves due: for that
/// owner, exactly the targets whose reversal failed — the succeeded ones are
/// `Resolved` and never picked up by a later sweep; the failed ones stay
/// `Pending` and are retried.  Every other owner's due set is untouched.
pub proof fn lemma_due_after_resolve(
    before: Seq<MuteEntry>,
    after: Seq<MuteEntry>,
    now: int,
    owner: Seq<char>,
    done: Seq<Seq<char>>,
    who: Seq<char>,
)
    requires
        after.len() == before.len(),
        forall|i: int|
            0 <= i < before.len() ==> after[i] == (if is_pending(#[trigger] before[i])
                && before[i].owner@ == owner && target_listed(done, before[i].target@) {
                with_status(before[i], STATUS_RESOLVED)
            } else {
                before[i]
            }),
    ensures
        who == owner ==> due_targets(after, now, who) == remaining_due_targets(
            before,
            now,
            who,
            done,
        ),
        who != owner ==> due_targets(after, now, who) == due_targets(before, now, who),
    decreases before.len(),
{
    if before.len() > 0 {
        let bp = before.drop_last();
        let ap = after.drop_last();
        assert forall|i: int| 0 <= i < bp.len() implies ap[i] == (if is_pending(#[trigger] bp[i])
            && bp[i].owner@ == owner && target_listed(done, bp[i].target@) {
            with_status(bp[i], STATUS_RESOLVED)
        } else {
            bp[i]
        }) by {
            assert(bp[i] == before[i]);
            assert(ap[i] == after[i]);
        }
        lemma_due_after_resolve(bp, ap, now, owner, done, who);
        assert(before[before.len() - 1] == before.last());
        assert(after[after.len() - 1] == after.last());
        if who == owner {
            assert(due_targets(after, now, who) =~= remaining_due_targets(before, now, who, done));
        } else {
            assert(due_targets(after, now, who) =~= due_targets(before, now, who));
        }
    } else {
        assert(due_targets(after, now, who) =~= due_targets(before, now, who));
        assert(remaining_due_targets(before, now, who, done) =~= due_targets(before, now, who));
    }
}

/// Relies on chrono's `Utc::now`: the wall-clock time at the call, in whole
/// seconds since the epoch.  Successive calls may return anything, so
/// nothing is claimed of the value.
#[verifier::external_body]
pub(crate) fn current_timestamp() -> i64 {
    chrono::offset::Utc::now().timestamp()
}

/// One sweep's worth of work for both mute kinds, planned against the same
/// clock reading.
pub struct SweepPlan {
    pub mutes: Vec<OwnerGroup>,
    pub mute_words: Vec<OwnerGroup>,
}

/// Plan a whole sweep: read the clock once, then plan the actor-mute and
/// word-mute tables against that same instant.  The caller carries each
/// group through the provider and hands the succeeded targets to the bulk
/// transition of the matching table.
pub fn resolve_timed_mutes(mutes: &MuteTable, mute_words: &MuteTable) -> (r: (i64, SweepPlan))
    ensures
        plan_matches(r.1.mutes@, mutes.rows@, r.0 as int),
        plan_total(r.1.mutes@) == count_due(mutes.rows@, r.0 as int),
        plan_matches(r.1.mute_words@, mute_words.rows@, r.0 as int),
        plan_total(r.1.mute_words@) == count_due(mute_words.rows@, r.0 as int),
{
    let now = current_timestamp();
    let plan = SweepPlan { mutes: plan_sweep(mutes, now), mute_words: plan_sweep(mute_words, now) };
    (now, plan)
}

/// The single-flight guard around the sweep: at most one sweep may run at a
/// time, so a manual trigger that arrives while one is in progress starts
/// nothing.
pub struct SweepGuard {
    pub in_progress: bool,
}

impl SweepGuard {
    /// A fresh guard; no sweep is running.
    pub fn new() -> (g: Self)
        ensures
            !g.in_progress,
    {
        SweepGuard { in_progress: false }
    }

    /// Claim the sweep.  The claim succeeds exactly when no sweep was
    /// running, and afterwards one is, so two concurrent triggers cannot
    /// both succeed.
    pub fn try_begin(&mut self) -> (started: bool)
        ensures
            started == !old(self).in_progress,
            final(self).in_progress,
    {
        if self.in_progress {
            false
        } else {
            self.in_progress = true;
            true
        }
    }

    /// Release the sweep after a run, successful or not.
    pub fn finish(&mut self)
        ensures
            !final(self).in_progress,
    {
        self.in_progress = false;
    }
}

} // verus!
