//! The table of timed-moderation entries and its update contract.
//!
//! Both mute kinds (actor mutes and word mutes) keep their rows in a
//! [`MuteTable`]; the engine owns one table per kind.  Every write is scoped
//! to rows that are still `Pending`, and a row's identity (owner, target,
//! creation time, deadline) never changes: the only mutation a stored row
//! ever sees is the one status step `Pending -> Resolved` or
//! `Pending -> Cancelled`.

use vstd::prelude::*;

use crate::models::{
    entry_wf, terminal_status, MuteEntry, TimedMute, TimedMuteWord, STATUS_PENDING,
};

verus! {

/// Two entries that denote the same mute: everything but the status agrees.
pub open spec fn same_identity(a: MuteEntry, b: MuteEntry) -> bool {
    &&& a.owner == b.owner
    &&& a.target == b.target
    &&& a.created_date == b.created_date
    &&& a.expiration_date == b.expiration_date
}

/// The entry `e` with its status replaced by `status`.
pub open spec fn with_status(e: MuteEntry, status: i32) -> MuteEntry {
    MuteEntry { status, ..e }
}

/// A status may stay put or take the one step from `Pending` to a terminal
/// state; a terminal status never changes and `Pending` is never re-entered.
pub open spec fn status_step_ok(before: int, after: int) -> bool {
    after == before || (before == STATUS_PENDING && terminal_status(after))
}

/// One legal step of a stored row: it keeps its identity, and its status
/// moves only forward along `Pending -> Resolved` / `Pending -> Cancelled`.
pub open spec fn entry_step_ok(before: MuteEntry, after: MuteEntry) -> bool {
    &&& same_identity(before, after)
    &&& status_step_ok(before.status as int, after.status as int)
}

/// How a table may evolve: existing rows each take legal status steps and
/// rows are only added, never removed; an added row enters `Pending`, so its
/// status is always one reachable from `Pending`.
pub open spec fn table_evolves(before: Seq<MuteEntry>, after: Seq<MuteEntry>) -> bool {
    &&& after.len() >= before.len()
    &&& forall|i: int| 0 <= i < before.len() ==> entry_step_ok(before[i], #[trigger] after[i])
    &&& forall|i: int|
        before.len() <= i < after.len() ==> status_step_ok(
            STATUS_PENDING as int,
            (#[trigger] after[i]).status as int,
        )
}

/// Legal steps compose: a table reached by any chain of store operations has
/// only ever moved rows `Pending -> Resolved` or `Pending -> Cancelled`,
/// never backwards and never skipping `Pending`.
pub proof fn lemma_table_evolves_transitive(
    a: Seq<MuteEntry>,
    b: Seq<MuteEntry>,
    c: Seq<MuteEntry>,
)
    requires
        table_evolves(a, b),
        table_evolves(b, c),
    ensures
        table_evolves(a, c),
{
    assert forall|i: int| 0 <= i < a.len() implies entry_step_ok(a[i], #[trigger] c[i]) by {
        assert(entry_step_ok(a[i], b[i]));
        assert(entry_step_ok(b[i], c[i]));
    }
    assert forall|i: int| a.len() <= i < c.len() implies status_step_ok(
        STATUS_PENDING as int,
        (#[trigger] c[i]).status as int,
    ) by {
        if i < b.len() {
            assert(status_step_ok(STATUS_PENDING as int, b[i].status as int));
            assert(entry_step_ok(b[i], c[i]));
        }
    }
}

/// A row in `Pending` status: the only state from which anything may change.
pub open spec fn is_pending(e: MuteEntry) -> bool {
    e.status == STATUS_PENDING
}

/// The key by which an actor mute is cancelled: owner, muted account, and the
/// deadline as a disambiguator between historical rows of the same pair.
pub open spec fn actor_mute_match(
    e: MuteEntry,
    owner: Seq<char>,
    target: Seq<char>,
    expiration_date: int,
) -> bool {
    &&& e.owner@ == owner
    &&& e.target@ == target
    &&& e.expiration_date == expiration_date
}

/// The key by which a word mute is cancelled: owner and keyword.
pub open spec fn word_mute_match(e: MuteEntry, owner: Seq<char>, word: Seq<char>) -> bool {
    &&& e.owner@ == owner
    &&& e.target@ == word
}

/// The pending rows of `rows` owned by `owner`, in table order.
pub open spec fn pending_for(rows: Seq<MuteEntry>, owner: Seq<char>) -> Seq<MuteEntry>
    decreases rows.len(),
{
    if rows.len() == 0 {
        Seq::empty()
    } else {
        pending_for(rows.drop_last(), owner) + if is_pending(rows.last()) && rows.last().owner@
            == owner {
            seq![rows.last()]
        } else {
            Seq::empty()
        }
    }
}

/// All pending rows of `rows`, in table order.
pub open spec fn pending_rows(rows: Seq<MuteEntry>) -> Seq<MuteEntry>
    decreases rows.len(),
{
    if rows.len() == 0 {
        Seq::empty()
    } else {
        pending_rows(rows.drop_last()) + if is_pending(rows.last()) {
            seq![rows.last()]
        } else {
            Seq::empty()
        }
    }
}

/// The durable table of timed-moderation entries of one mute kind.
pub struct MuteTable {
    pub rows: Vec<MuteEntry>,
}

impl MuteTable {
    /// Every stored row is well formed.
    pub open spec fn wf(&self) -> bool {
        forall|i: int| 0 <= i < self.rows@.len() ==> entry_wf(#[trigger] self.rows@[i])
    }

    /// An empty table.
    pub fn new() -> (t: Self)
        ensures
            t.rows@.len() == 0,
            t.wf(),
    {
        MuteTable { rows: Vec::new() }
    }

    /// Number of stored rows, terminal ones included.
    pub fn len(&self) -> (n: usize)
        ensures
            n == self.rows@.len(),
    {
        self.rows.len()
    }
}

/// Relies on str's `PartialEq`: two string slices are equal exactly when
/// their character sequences are.
#[verifier::external_body]
pub(crate) fn str_eq(a: &str, b: &str) -> (r: bool)
    ensures
        r == (a@ == b@),
{
    a == b
}

/// Membership of a target string in a list of targets, compared by content.
pub open spec fn target_listed(targets: Seq<Seq<char>>, target: Seq<char>) -> bool {
    exists|j: int| 0 <= j < targets.len() && targets[j] == target
}

/// Whether `target` occurs in `targets`, compared by content.
fn contains_target(targets: &Vec<String>, target: &String) -> (r: bool)
    ensures
        r == target_listed(targets.deep_view(), target@),
{
    let mut j: usize = 0;
    while j < targets.len()
        invariant
            j <= targets@.len(),
            targets.deep_view().len() == targets@.len(),
            forall|k: int| 0 <= k < j ==> targets.deep_view()[k] != target@,
        decreases targets@.len() - j,
    {
        assert(targets.deep_view()[j as int] == targets@[j as int]@);
        if str_eq(targets[j].as_str(), target.as_str()) {
            return true;
        }
        j += 1;
    }
    false
}

/// Insert a freshly created entry.  Entries enter the table `Pending`, with a
/// deadline no earlier than their creation time.
pub fn create_timed_mute(
    table: &mut MuteTable,
    actor: &str,
    muted_actor: &str,
    created_date: i64,
    expiration_date: i64,
    status: i32,
)
    requires
        status == STATUS_PENDING,
        created_date <= expiration_date,
    ensures
        final(table).rows@.len() == old(table).rows@.len() + 1,
        forall|i: int|
            0 <= i < old(table).rows@.len() ==> final(table).rows@[i] == old(table).rows@[i],
        final(table).rows@.last().owner@ == actor@,
        final(table).rows@.last().target@ == muted_actor@,
        final(table).rows@.last().created_date == created_date,
        final(table).rows@.last().expiration_date == expiration_date,
        final(table).rows@.last().status == status,
        table_evolves(old(table).rows@, final(table).rows@),
        old(table).wf() ==> final(table).wf(),
{
    let entry = MuteEntry {
        owner: actor.to_owned(),
        target: muted_actor.to_owned(),
        created_date,
        expiration_date,
        status,
    };
    table.rows.push(entry);
}

/// Insert a freshly created word-mute entry.  Same contract as
/// [`create_timed_mute`]; the keyword takes the target's place.
pub fn create_timed_mute_word(
    table: &mut MuteTable,
    actor: &str,
    muted_word: &str,
    created_date: i64,
    expiration_date: i64,
    status: i32,
)
    requires
        status == STATUS_PENDING,
        created_date <= expiration_date,
    ensures
        final(table).rows@.len() == old(table).rows@.len() + 1,
        forall|i: int|
            0 <= i < old(table).rows@.len() ==> final(table).rows@[i] == old(table).rows@[i],
        final(table).rows@.last().owner@ == actor@,
        final(table).rows@.last().target@ == muted_word@,
        final(table).rows@.last().created_date == created_date,
        final(table).rows@.last().expiration_date == expiration_date,
        final(table).rows@.last().status == status,
        table_evolves(old(table).rows@, final(table).rows@),
        old(table).wf() ==> final(table).wf(),
{
    create_timed_mute(table, actor, muted_word, created_date, expiration_date, status);
}

/// Find a pending actor mute by its cancellation key.
pub fn find_pending(
    table: &MuteTable,
    owner: &str,
    target: &str,
    expiration_date: i64,
) -> (r: Option<usize>)
    ensures
        match r {
            Some(i) => i < table.rows@.len() && is_pending(table.rows@[i as int])
                && actor_mute_match(table.rows@[i as int], owner@, target@, expiration_date as int),
            None => forall|i: int|
                0 <= i < table.rows@.len() ==> !(is_pending(#[trigger] table.rows@[i])
                    && actor_mute_match(table.rows@[i], owner@, target@, expiration_date as int)),
        },
{
    let mut i: usize = 0;
    while i < table.rows.len()
        invariant
            i <= table.rows@.len(),
            forall|k: int|
                0 <= k < i ==> !(is_pending(#[trigger] table.rows@[k])
                    && actor_mute_match(table.rows@[k], owner@, target@, expiration_date as int)),
        decreases table.rows@.len() - i,
    {
        let e = &table.rows[i];
        if e.status == STATUS_PENDING && str_eq(e.owner.as_str(), owner) && str_eq(e.target.as_str(), target)
            && e.expiration_date == expiration_date {
            return Some(i);
        }
        i += 1;
    }
    None
}

/// Move every pending actor mute matching `(owner, target, deadline)` to
/// `status`, and say whether any row was affected.  Terminal rows stay put,
/// so the cancel path and the sweep cannot both claim the same entry.
pub fn update_timed_mute(
    table: &mut MuteTable,
    actor: &str,
    muted_actor: &str,
    expiration_date: i64,
    status: i32,
) -> (changed: bool)
    requires
        terminal_status(status as int),
    ensures
        final(table).rows@.len() == old(table).rows@.len(),
        forall|i: int|
            0 <= i < old(table).rows@.len() ==> final(table).rows@[i] == (if is_pending(
                #[trigger] old(table).rows@[i],
            ) && actor_mute_match(old(table).rows@[i], actor@, muted_actor@, expiration_date as int) {
                with_status(old(table).rows@[i], status)
            } else {
                old(table).rows@[i]
            }),
        changed == exists|i: int|
            0 <= i < old(table).rows@.len() && is_pending(#[trigger] old(table).rows@[i])
                && actor_mute_match(old(table).rows@[i], actor@, muted_actor@, expiration_date as int),
        table_evolves(old(table).rows@, final(table).rows@),
        old(table).wf() ==> final(table).wf(),
{
    let ghost rows0 = table.rows@;
    let ghost wf0 = table.wf();
    let mut changed = false;
    let mut i: usize = 0;
    while i < table.rows.len()
        invariant
            i <= rows0.len(),
            table.rows@.len() == rows0.len(),
            terminal_status(status as int),
            forall|k: int|
                0 <= k < rows0.len() ==> table.rows@[k] == (if k < i && is_pending(
                    #[trigger] rows0[k],
                ) && actor_mute_match(rows0[k], actor@, muted_actor@, expiration_date as int) {
                    with_status(rows0[k], status)
                } else {
                    rows0[k]
                }),
            changed == exists|k: int|
                0 <= k < i && is_pending(#[trigger] rows0[k]) && actor_mute_match(
                    rows0[k],
                    actor@,
                    muted_actor@,
                    expiration_date as int,
                ),
        decreases rows0.len() - i,
    {
        let e = &table.rows[i];
        if e.status == STATUS_PENDING && str_eq(e.owner.as_str(), actor) && str_eq(e.target.as_str(), muted_actor)
            && e.expiration_date == expiration_date {
            proof {
                assert(is_pending(rows0[i as int]));
                assert(actor_mute_match(rows0[i as int], actor@, muted_actor@, expiration_date as int));
            }
            table.rows[i].status = status;
            changed = true;
        }
        i += 1;
    }
    proof {
        if wf0 {
            assert forall|k: int| 0 <= k < table.rows@.len() implies entry_wf(
                #[trigger] table.rows@[k],
            ) by {
                assert(entry_wf(rows0[k]));
            }
        }
    }
    changed
}

/// Move every pending word mute matching `(owner, keyword)` to `status`, and
/// say whether any row was affected.
pub fn update_timed_mute_word(
    table: &mut MuteTable,
    actor: &str,
    muted_word: &str,
    status: i32,
) -> (changed: bool)
    requires
        terminal_status(status as int),
    ensures
        final(table).rows@.len() == old(table).rows@.len(),
        forall|i: int|
            0 <= i < old(table).rows@.len() ==> final(table).rows@[i] == (if is_pending(
                #[trigger] old(table).rows@[i],
            ) && word_mute_match(old(table).rows@[i], actor@, muted_word@) {
                with_status(old(table).rows@[i], status)
            } else {
                old(table).rows@[i]
            }),
        changed == exists|i: int|
            0 <= i < old(table).rows@.len() && is_pending(#[trigger] old(table).rows@[i])
                && word_mute_match(old(table).rows@[i], actor@, muted_word@),
        table_evolves(old(table).rows@, final(table).rows@),
        old(table).wf() ==> final(table).wf(),
{
    let ghost rows0 = table.rows@;
    let ghost wf0 = table.wf();
    let mut changed = false;
    let mut i: usize = 0;
    while i < table.rows.len()
        invariant
            i <= rows0.len(),
            table.rows@.len() == rows0.len(),
            terminal_status(status as int),
            forall|k: int|
                0 <= k < rows0.len() ==> table.rows@[k] == (if k < i && is_pending(
                    #[trigger] rows0[k],
                ) && word_mute_match(rows0[k], actor@, muted_word@) {
                    with_status(rows0[k], status)
                } else {
                    rows0[k]
                }),
            changed == exists|k: int|
                0 <= k < i && is_pending(#[trigger] rows0[k]) && word_mute_match(
                    rows0[k],
                    actor@,
                    muted_word@,
                ),
        decreases rows0.len() - i,
    {
        let e = &table.rows[i];
        if e.status == STATUS_PENDING && str_eq(e.owner.as_str(), actor) && str_eq(e.target.as_str(), muted_word) {
            proof {
                assert(is_pending(rows0[i as int]));
                assert(word_mute_match(rows0[i as int], actor@, muted_word@));
            }
            table.rows[i].status = status;
            changed = true;
        }
        i += 1;
    }
    proof {
        if wf0 {
            assert forall|k: int| 0 <= k < table.rows@.len() implies entry_wf(
                #[trigger] table.rows@[k],
            ) by {
                assert(entry_wf(rows0[k]));
            }
        }
    }
    changed
}

/// Move the single pending row at `index` to `status` if it belongs to
/// `actor`, and say whether it was affected.
pub fn update_timed_mute_v1(
    table: &mut MuteTable,
    actor: &str,
    index: usize,
    status: i32,
) -> (changed: bool)
    requires
        terminal_status(status as int),
    ensures
        final(table).rows@.len() == old(table).rows@.len(),
        changed == (index < old(table).rows@.len() && is_pending(old(table).rows@[index as int])
            && old(table).rows@[index as int].owner@ == actor@),
        changed ==> final(table).rows@ == old(table).rows@.update(
            index as int,
            with_status(old(table).rows@[index as int], status),
        ),
        !changed ==> final(table).rows@ == old(table).rows@,
        table_evolves(old(table).rows@, final(table).rows@),
        old(table).wf() ==> final(table).wf(),
{
    if index < table.rows.len() {
        let e = &table.rows[index];
        if e.status == STATUS_PENDING && str_eq(e.owner.as_str(), actor) {
            table.rows[index].status = status;
            return true;
        }
    }
    false
}

/// Bulk status transition: move every pending row of `actor` whose target is
/// listed in `targets` to `status`.  This is how a sweep marks the group of
/// an owner resolved after the provider calls have been attempted; targets
/// whose call failed are simply left off the list and stay `Pending`.
pub fn update_timed_mute_list_v1(
    table: &mut MuteTable,
    actor: &str,
    targets: &Vec<String>,
    status: i32,
) -> (changed: bool)
    requires
        terminal_status(status as int),
    ensures
        final(table).rows@.len() == old(table).rows@.len(),
        forall|i: int|
            0 <= i < old(table).rows@.len() ==> final(table).rows@[i] == (if is_pending(
                #[trigger] old(table).rows@[i],
            ) && old(table).rows@[i].owner@ == actor@ && target_listed(
                targets.deep_view(),
                old(table).rows@[i].target@,
            ) {
                with_status(old(table).rows@[i], status)
            } else {
                old(table).rows@[i]
            }),
        changed == exists|i: int|
            0 <= i < old(table).rows@.len() && is_pending(#[trigger] old(table).rows@[i]) && old(
                table,
            ).rows@[i].owner@ == actor@ && target_listed(
                targets.deep_view(),
                old(table).rows@[i].target@,
            ),
        table_evolves(old(table).rows@, final(table).rows@),
        old(table).wf() ==> final(table).wf(),
{
    let ghost rows0 = table.rows@;
    let ghost wf0 = table.wf();
    let mut changed = false;
    let mut i: usize = 0;
    while i < table.rows.len()
        invariant
            i <= rows0.len(),
            table.rows@.len() == rows0.len(),
            terminal_status(status as int),
            forall|k: int|
                0 <= k < rows0.len() ==> table.rows@[k] == (if k < i && is_pending(
                    #[trigger] rows0[k],
                ) && rows0[k].owner@ == actor@ && target_listed(
                    targets.deep_view(),
                    rows0[k].target@,
                ) {
                    with_status(rows0[k], status)
                } else {
                    rows0[k]
                }),
            changed == exists|k: int|
                0 <= k < i && is_pending(#[trigger] rows0[k]) && rows0[k].owner@ == actor@
                    && target_listed(targets.deep_view(), rows0[k].target@),
        decreases rows0.len() - i,
    {
        let matches_owner = {
            let e = &table.rows[i];
            e.status == STATUS_PENDING && str_eq(e.owner.as_str(), actor)
        };
        if matches_owner {
            let listed = {
                let e = &table.rows[i];
                contains_target(targets, &e.target)
            };
            if listed {
                proof {
                    assert(is_pending(rows0[i as int]));
                    assert(rows0[i as int].owner@ == actor@);
                    assert(target_listed(targets.deep_view(), rows0[i as int].target@));
                }
                table.rows[i].status = status;
                changed = true;
            }
        }
        i += 1;
    }
    proof {
        if wf0 {
            assert forall|k: int| 0 <= k < table.rows@.len() implies entry_wf(
                #[trigger] table.rows@[k],
            ) by {
                assert(entry_wf(rows0[k]));
            }
        }
    }
    changed
}

/// Bulk status transition for word mutes: the same contract as
/// [`update_timed_mute_list_v1`], with the keywords as targets.
pub fn update_timed_mute_word_list_v1(
    table: &mut MuteTable,
    actor: &str,
    words: &Vec<String>,
    status: i32,
) -> (changed: bool)
    requires
        terminal_status(status as int),
    ensures
        final(table).rows@.len() == old(table).rows@.len(),
        forall|i: int|
            0 <= i < old(table).rows@.len() ==> final(table).rows@[i] == (if is_pending(
                #[trigger] old(table).rows@[i],
            ) && old(table).rows@[i].owner@ == actor@ && target_listed(
                words.deep_view(),
                old(table).rows@[i].target@,
            ) {
                with_status(old(table).rows@[i], status)
            } else {
                old(table).rows@[i]
            }),
        changed == exists|i: int|
            0 <= i < old(table).rows@.len() && is_pending(#[trigger] old(table).rows@[i]) && old(
                table,
            ).rows@[i].owner@ == actor@ && target_listed(
                words.deep_view(),
                old(table).rows@[i].target@,
            ),
        table_evolves(old(table).rows@, final(table).rows@),
        old(table).wf() ==> final(table).wf(),
{
    update_timed_mute_list_v1(table, actor, words, status)
}

/// The pending actor mutes of one owner, as the list endpoint reports them.
pub fn fetch_timed_mutes(table: &MuteTable, user_id: &str) -> (r: Vec<TimedMute>)
    ensures
        r@.len() == pending_for(table.rows@, user_id@).len(),
        forall|j: int|
            0 <= j < r@.len() ==> {
                let e = pending_for(table.rows@, user_id@)[j];
                (#[trigger] r@[j]).actor == e.owner && r@[j].muted_actor == e.target
                    && r@[j].created_date == e.created_date && r@[j].expiration_date
                    == e.expiration_date && r@[j].status == e.status
            },
{
    let mut out: Vec<TimedMute> = Vec::new();
    let mut i: usize = 0;
    while i < table.rows.len()
        invariant
            i <= table.rows@.len(),
            out@.len() == pending_for(table.rows@.subrange(0, i as int), user_id@).len(),
            forall|j: int|
                0 <= j < out@.len() ==> {
                    let e = pending_for(table.rows@.subrange(0, i as int), user_id@)[j];
                    (#[trigger] out@[j]).actor == e.owner && out@[j].muted_actor == e.target
                        && out@[j].created_date == e.created_date && out@[j].expiration_date
                        == e.expiration_date && out@[j].status == e.status
                },
        decreases table.rows@.len() - i,
    {
        let ghost prefix = table.rows@.subrange(0, i as int);
        let ghost prefix1 = table.rows@.subrange(0, i as int + 1);
        proof {
            assert(prefix1.drop_last() =~= prefix);
            assert(prefix1.last() == table.rows@[i as int]);
        }
        let e = &table.rows[i];
        if e.status == STATUS_PENDING && str_eq(e.owner.as_str(), user_id) {
            out.push(
                TimedMute {
                    actor: e.owner.clone(),
                    muted_actor: e.target.clone(),
                    created_date: e.created_date,
                    expiration_date: e.expiration_date,
                    status: e.status,
                },
            );
            proof {
                assert(pending_for(prefix1, user_id@) =~= pending_for(prefix, user_id@).push(
                    table.rows@[i as int],
                ));
            }
        } else {
            proof {
                assert(pending_for(prefix1, user_id@) =~= pending_for(prefix, user_id@));
            }
        }
        i += 1;
    }
    proof {
        assert(table.rows@.subrange(0, table.rows@.len() as int) =~= table.rows@);
    }
    out
}

/// The pending actor mutes of one owner; the per-user variant shares the
/// contract of [`fetch_timed_mutes`].
pub fn fetch_timed_mutes_for_user(table: &MuteTable, actor: &str) -> (r: Vec<TimedMute>)
    ensures
        r@.len() == pending_for(table.rows@, actor@).len(),
        forall|j: int|
            0 <= j < r@.len() ==> {
                let e = pending_for(table.rows@, actor@)[j];
                (#[trigger] r@[j]).actor == e.owner && r@[j].muted_actor == e.target
                    && r@[j].created_date == e.created_date && r@[j].expiration_date
                    == e.expiration_date && r@[j].status == e.status
            },
{
    fetch_timed_mutes(table, actor)
}

/// The pending word mutes of one owner.
pub fn fetch_timed_mute_words(table: &MuteTable, user_id: &str) -> (r: Vec<TimedMuteWord>)
    ensures
        r@.len() == pending_for(table.rows@, user_id@).len(),
        forall|j: int|
            0 <= j < r@.len() ==> {
                let e = pending_for(table.rows@, user_id@)[j];
                (#[trigger] r@[j]).actor == e.owner && r@[j].muted_word == e.target
                    && r@[j].created_date == e.created_date && r@[j].expiration_date
                    == e.expiration_date && r@[j].status == e.status
            },
{
    let mut out: Vec<TimedMuteWord> = Vec::new();
    let mut i: usize = 0;
    while i < table.rows.len()
        invariant
            i <= table.rows@.len(),
            out@.len() == pending_for(table.rows@.subrange(0, i as int), user_id@).len(),
            forall|j: int|
                0 <= j < out@.len() ==> {
                    let e = pending_for(table.rows@.subrange(0, i as int), user_id@)[j];
                    (#[trigger] out@[j]).actor == e.owner && out@[j].muted_word == e.target
                        && out@[j].created_date == e.created_date && out@[j].expiration_date
                        == e.expiration_date && out@[j].status == e.status
                },
        decreases table.rows@.len() - i,
    {
        let ghost prefix = table.rows@.subrange(0, i as int);
        let ghost prefix1 = table.rows@.subrange(0, i as int + 1);
        proof {
            assert(prefix1.drop_last() =~= prefix);
            assert(prefix1.last() == table.rows@[i as int]);
        }
        let e = &table.rows[i];
        if e.status == STATUS_PENDING && str_eq(e.owner.as_str(), user_id) {
            out.push(
                TimedMuteWord {
                    actor: e.owner.clone(),
                    muted_word: e.target.clone(),
                    created_date: e.created_date,
                    expiration_date: e.expiration_date,
                    status: e.status,
                },
            );
            proof {
                assert(pending_for(prefix1, user_id@) =~= pending_for(prefix, user_id@).push(
                    table.rows@[i as int],
                ));
            }
        } else {
            proof {
                assert(pending_for(prefix1, user_id@) =~= pending_for(prefix, user_id@));
            }
        }
        i += 1;
    }
    proof {
        assert(table.rows@.subrange(0, table.rows@.len() as int) =~= table.rows@);
    }
    out
}

/// The pending word mutes of one owner; shares the contract of
/// [`fetch_timed_mute_words`].
pub fn fetch_timed_mute_words_for_user(table: &MuteTable, actor: &str) -> (r: Vec<TimedMuteWord>)
    ensures
        r@.len() == pending_for(table.rows@, actor@).len(),
        forall|j: int|
            0 <= j < r@.len() ==> {
                let e = pending_for(table.rows@, actor@)[j];
                (#[trigger] r@[j]).actor == e.owner && r@[j].muted_word == e.target
                    && r@[j].created_date == e.created_date && r@[j].expiration_date
                    == e.expiration_date && r@[j].status == e.status
            },
{
    fetch_timed_mute_words(table, actor)
}

/// Every pending actor mute of every owner, as the sweep reads them.
pub fn fetch_timed_mutes_v1(table: &MuteTable) -> (r: Vec<TimedMute>)
    ensures
        r@.len() == pending_rows(table.rows@).len(),
        forall|j: int|
            0 <= j < r@.len() ==> {
                let e = pending_rows(table.rows@)[j];
                (#[trigger] r@[j]).actor == e.owner && r@[j].muted_actor == e.target
                    && r@[j].created_date == e.created_date && r@[j].expiration_date
                    == e.expiration_date && r@[j].status == e.status
            },
{
    let mut out: Vec<TimedMute> = Vec::new();
    let mut i: usize = 0;
    while i < table.rows.len()
        invariant
            i <= table.rows@.len(),
            out@.len() == pending_rows(table.rows@.subrange(0, i as int)).len(),
            forall|j: int|
                0 <= j < out@.len() ==> {
                    let e = pending_rows(table.rows@.subrange(0, i as int))[j];
                    (#[trigger] out@[j]).actor == e.owner && out@[j].muted_actor == e.target
                        && out@[j].created_date == e.created_date && out@[j].expiration_date
                        == e.expiration_date && out@[j].status == e.status
                },
        decreases table.rows@.len() - i,
    {
        let ghost prefix = table.rows@.subrange(0, i as int);
        let ghost prefix1 = table.rows@.subrange(0, i as int + 1);
        proof {
            assert(prefix1.drop_last() =~= prefix);
            assert(prefix1.last() == table.rows@[i as int]);
        }
        let e = &table.rows[i];
        if e.status == STATUS_PENDING {
            out.push(
                TimedMute {
                    actor: e.owner.clone(),
                    muted_actor: e.target.clone(),
                    created_date: e.created_date,
                    expiration_date: e.expiration_date,
                    status: e.status,
                },
            );
            proof {
                assert(pending_rows(prefix1) =~= pending_rows(prefix).push(table.rows@[i as int]));
            }
        } else {
            proof {
                assert(pending_rows(prefix1) =~= pending_rows(prefix));
            }
        }
        i += 1;
    }
    proof {
        assert(table.rows@.subrange(0, table.rows@.len() as int) =~= table.rows@);
    }
    out
}

/// Every pending word mute of every owner, as the sweep reads them.
pub fn fetch_timed_mute_words_v1(table: &MuteTable) -> (r: Vec<TimedMuteWord>)
    ensures
        r@.len() == pending_rows(table.rows@).len(),
        forall|j: int|
            0 <= j < r@.len() ==> {
                let e = pending_rows(table.rows@)[j];
                (#[trigger] r@[j]).actor == e.owner && r@[j].muted_word == e.target
                    && r@[j].created_date == e.created_date && r@[j].expiration_date
                    == e.expiration_date && r@[j].status == e.status
            },
{
    let mut out: Vec<TimedMuteWord> = Vec::new();
    let mut i: usize = 0;
    while i < table.rows.len()
        invariant
            i <= table.rows@.len(),
            out@.len() == pending_rows(table.rows@.subrange(0, i as int)).len(),
            forall|j: int|
                0 <= j < out@.len() ==> {
                    let e = pending_rows(table.rows@.subrange(0, i as int))[j];
                    (#[trigger] out@[j]).actor == e.owner && out@[j].muted_word == e.target
                        && out@[j].created_date == e.created_date && out@[j].expiration_date
                        == e.expiration_date && out@[j].status == e.status
                },
        decreases table.rows@.len() - i,
    {
        let ghost prefix = table.rows@.subrange(0, i as int);
        let ghost prefix1 = table.rows@.subrange(0, i as int + 1);
        proof {
            assert(prefix1.drop_last() =~= prefix);
            assert(prefix1.last() == table.rows@[i as int]);
        }
        let e = &table.rows[i];
        if e.status == STATUS_PENDING {
            out.push(
                TimedMuteWord {
                    actor: e.owner.clone(),
                    muted_word: e.target.clone(),
                    created_date: e.created_date,
                    expiration_date: e.expiration_date,
                    status: e.status,
                },
            );
            proof {
                assert(pending_rows(prefix1) =~= pending_rows(prefix).push(table.rows@[i as int]));
            }
        } else {
            proof {
                assert(pending_rows(prefix1) =~= pending_rows(prefix));
            }
        }
        i += 1;
    }
    proof {
        assert(table.rows@.subrange(0, table.rows@.len() as int) =~= table.rows@);
    }
    out
}

} // verus!
