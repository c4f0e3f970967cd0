//! The creation and cancellation flows of a timed mute.
//!
//! Both flows split the work around the provider call so that the order the
//! engine owes its callers is kept: a request is validated before the
//! provider is contacted, and a row is persisted or transitioned only after
//! the provider call succeeded.
//!
//! Creation: [`begin_create`] validates the request and fixes the
//! timestamps; the caller then resolves the target and applies the mute at
//! the provider, and hands both outcomes to [`finish_create`], which
//! persists a `Pending` row exactly when the provider applied the mute.
//! A rejected request never reaches the provider, because only
//! [`begin_create`]'s ticket makes the second phase possible; a failed
//! provider call persists nothing.
//!
//! Cancellation: [`cancel_requested`] says whether a matching pending entry
//! exists, without changing anything; only when it does is the provider
//! asked to reverse the mute, and [`finish_cancel`] then moves the entry to
//! `Cancelled` exactly when the provider call succeeded.  A cancel of an
//! entry that is not pending reports "not found" with the provider never
//! contacted, and whether the entry belongs to another owner or does not
//! exist is indistinguishable by design.

use vstd::prelude::*;

use crate::errors::MuteError;
use crate::store::{
    actor_mute_match, create_timed_mute, create_timed_mute_word, find_pending, is_pending,
    str_eq, table_evolves, update_timed_mute, update_timed_mute_word, with_status, word_mute_match,
    MuteTable,
};
use crate::models::{STATUS_CANCELLED, STATUS_PENDING};

verus! {

/// A creation request that passed validation: the owner and the fixed
/// timestamps of the entry to be, waiting for the provider to apply the
/// mute.  Obtainable only from [`begin_create`].
#[derive(Debug)]
pub struct CreateTicket {
    pub owner: String,
    pub created_date: i64,
    pub expiration_date: i64,
}

impl CreateTicket {
    /// The deadline never precedes the creation time.
    pub open spec fn wf(&self) -> bool {
        self.created_date <= self.expiration_date
    }
}

/// Validate a creation request, before any side effect.  A duration that is
/// not positive, or whose deadline would not fit the timestamp range, is
/// rejected here, so the provider is never contacted and nothing is
/// persisted for such a request.
pub fn begin_create(owner: String, duration: i64, now: i64) -> (r: Result<
    CreateTicket,
    MuteError,
>)
    ensures
        r is Ok <==> (duration > 0 && now + duration <= i64::MAX),
        r matches Ok(t) ==> t.owner == owner && t.created_date == now && t.expiration_date == now
            + duration && t.wf(),
        r is Err ==> r == Err::<CreateTicket, MuteError>(MuteError::InvalidDuration),
{
    if duration <= 0 {
        return Err(MuteError::InvalidDuration);
    }
    if now > i64::MAX - duration {
        return Err(MuteError::InvalidDuration);
    }
    Ok(CreateTicket { owner, created_date: now, expiration_date: now + duration })
}

/// Finish a creation once the provider has been asked: `resolved` is the
/// target the provider resolved the request to (`None` when resolution
/// failed), `mute_applied` whether the provider accepted the mute.  A row is
/// persisted exactly when both succeeded; on any failure the table is
/// untouched, so no entry ever records a mute that was not applied.
pub fn finish_create(
    table: &mut MuteTable,
    ticket: &CreateTicket,
    resolved: Option<&str>,
    mute_applied: bool,
) -> (r: Result<(), MuteError>)
    requires
        ticket.wf(),
    ensures
        resolved is None ==> r == Err::<(), MuteError>(MuteError::InvalidTarget) && *final(table) == *old(table),
        resolved is Some && !mute_applied ==> r == Err::<(), MuteError>(
            MuteError::ProviderActionError,
        ) && *final(table) == *old(table),
        resolved matches Some(target) ==> mute_applied ==> {
            &&& r is Ok
            &&& final(table).rows@.len() == old(table).rows@.len() + 1
            &&& (forall|i: int|
                0 <= i < old(table).rows@.len() ==> final(table).rows@[i] == old(table).rows@[i])
            &&& final(table).rows@.last().owner@ == ticket.owner@
            &&& final(table).rows@.last().target@ == target@
            &&& final(table).rows@.last().created_date == ticket.created_date
            &&& final(table).rows@.last().expiration_date == ticket.expiration_date
            &&& final(table).rows@.last().status == STATUS_PENDING
        },
        table_evolves(old(table).rows@, final(table).rows@),
        old(table).wf() ==> final(table).wf(),
{
    match resolved {
        None => Err(MuteError::InvalidTarget),
        Some(target) => {
            if !mute_applied {
                return Err(MuteError::ProviderActionError);
            }
            create_timed_mute(
                table,
                ticket.owner.as_str(),
                target,
                ticket.created_date,
                ticket.expiration_date,
                STATUS_PENDING,
            );
            Ok(())
        },
    }
}

/// Finish a word-mute creation; same contract as [`finish_create`], with
/// the keyword for a target.  Keyword requests need no resolution, so only
/// the provider's acceptance decides.
pub fn finish_create_word(
    table: &mut MuteTable,
    ticket: &CreateTicket,
    word: &str,
    mute_applied: bool,
) -> (r: Result<(), MuteError>)
    requires
        ticket.wf(),
    ensures
        !mute_applied ==> r == Err::<(), MuteError>(MuteError::ProviderActionError) && *final(table) == *old(table),
        mute_applied ==> {
            &&& r is Ok
            &&& final(table).rows@.len() == old(table).rows@.len() + 1
            &&& (forall|i: int|
                0 <= i < old(table).rows@.len() ==> final(table).rows@[i] == old(table).rows@[i])
            &&& final(table).rows@.last().owner@ == ticket.owner@
            &&& final(table).rows@.last().target@ == word@
            &&& final(table).rows@.last().created_date == ticket.created_date
            &&& final(table).rows@.last().expiration_date == ticket.expiration_date
            &&& final(table).rows@.last().status == STATUS_PENDING
        },
        table_evolves(old(table).rows@, final(table).rows@),
        old(table).wf() ==> final(table).wf(),
{
    if !mute_applied {
        return Err(MuteError::ProviderActionError);
    }
    create_timed_mute_word(
        table,
        ticket.owner.as_str(),
        word,
        ticket.created_date,
        ticket.expiration_date,
        STATUS_PENDING,
    );
    Ok(())
}

/// First phase of cancelling an actor mute: succeeds exactly when a pending
/// entry matches `(owner, target, deadline)`.  Nothing is changed and the
/// provider is not involved; an entry that is already terminal, belongs to
/// another owner or does not exist ends the request here, as one
/// indistinguishable "not found", with zero provider calls.
pub fn cancel_requested(
    table: &MuteTable,
    owner: &str,
    target: &str,
    expiration_date: i64,
) -> (r: Result<(), MuteError>)
    ensures
        r is Ok <==> exists|i: int|
            0 <= i < table.rows@.len() && is_pending(#[trigger] table.rows@[i])
                && actor_mute_match(table.rows@[i], owner@, target@, expiration_date as int),
        r is Err ==> r == Err::<(), MuteError>(MuteError::NotFoundOrUnauthorized),
{
    match find_pending(table, owner, target, expiration_date) {
        Some(i) => {
            proof {
                assert(is_pending(table.rows@[i as int]) && actor_mute_match(
                    table.rows@[i as int],
                    owner@,
                    target@,
                    expiration_date as int,
                ));
            }
            Ok(())
        },
        None => Err(MuteError::NotFoundOrUnauthorized),
    }
}

/// First phase of cancelling a word mute: succeeds exactly when a pending
/// entry matches `(owner, keyword)`.  Same reading as [`cancel_requested`].
pub fn cancel_word_requested(table: &MuteTable, owner: &str, word: &str) -> (r: Result<
    (),
    MuteError,
>)
    ensures
        r is Ok <==> exists|i: int|
            0 <= i < table.rows@.len() && is_pending(#[trigger] table.rows@[i]) && word_mute_match(
                table.rows@[i],
                owner@,
                word@,
            ),
        r is Err ==> r == Err::<(), MuteError>(MuteError::NotFoundOrUnauthorized),
{
    let mut i: usize = 0;
    while i < table.rows.len()
        invariant
            i <= table.rows@.len(),
            forall|k: int|
                0 <= k < i ==> !(is_pending(#[trigger] table.rows@[k]) && word_mute_match(
                    table.rows@[k],
                    owner@,
                    word@,
                )),
        decreases table.rows@.len() - i,
    {
        let e = &table.rows[i];
        if e.status == STATUS_PENDING && str_eq(e.owner.as_str(), owner) && str_eq(
            e.target.as_str(),
            word,
        ) {
            proof {
                assert(is_pending(table.rows@[i as int]) && word_mute_match(
                    table.rows@[i as int],
                    owner@,
                    word@,
                ));
            }
            return Ok(());
        }
        i += 1;
    }
    Err(MuteError::NotFoundOrUnauthorized)
}

/// Finish cancelling an actor mute once the provider has been asked to
/// reverse it.  When the provider refused, the entry stays `Pending` and the
/// failure is surfaced; cancellation is complete only once the reversal is
/// confirmed.  When the provider succeeded, every matching entry still
/// pending takes the step to `Cancelled`; `Ok(false)` reports that none was
/// (the entry was resolved or cancelled in the meantime — first writer
/// wins).
pub fn finish_cancel(
    table: &mut MuteTable,
    owner: &str,
    target: &str,
    expiration_date: i64,
    unmute_applied: bool,
) -> (r: Result<bool, MuteError>)
    ensures
        !unmute_applied ==> r == Err::<bool, MuteError>(MuteError::ProviderActionError)
            && *final(table) == *old(table),
        unmute_applied ==> {
            &&& final(table).rows@.len() == old(table).rows@.len()
            &&& (forall|i: int|
                0 <= i < old(table).rows@.len() ==> final(table).rows@[i] == (if is_pending(
                    #[trigger] old(table).rows@[i],
                ) && actor_mute_match(
                    old(table).rows@[i],
                    owner@,
                    target@,
                    expiration_date as int,
                ) {
                    with_status(old(table).rows@[i], STATUS_CANCELLED)
                } else {
                    old(table).rows@[i]
                }))
            &&& r == Ok::<bool, MuteError>(
                exists|i: int|
                    0 <= i < old(table).rows@.len() && is_pending(#[trigger] old(table).rows@[i])
                        && actor_mute_match(
                        old(table).rows@[i],
                        owner@,
                        target@,
                        expiration_date as int,
                    ),
            )
        },
        table_evolves(old(table).rows@, final(table).rows@),
        old(table).wf() ==> final(table).wf(),
{
    if !unmute_applied {
        return Err(MuteError::ProviderActionError);
    }
    let changed = update_timed_mute(table, owner, target, expiration_date, STATUS_CANCELLED);
    Ok(changed)
}

/// Finish cancelling a word mute; same reading as [`finish_cancel`], with
/// the `(owner, keyword)` key.
pub fn finish_cancel_word(
    table: &mut MuteTable,
    owner: &str,
    word: &str,
    unmute_applied: bool,
) -> (r: Result<bool, MuteError>)
    ensures
        !unmute_applied ==> r == Err::<bool, MuteError>(MuteError::ProviderActionError)
            && *final(table) == *old(table),
        unmute_applied ==> {
            &&& final(table).rows@.len() == old(table).rows@.len()
            &&& (forall|i: int|
                0 <= i < old(table).rows@.len() ==> final(table).rows@[i] == (if is_pending(
                    #[trigger] old(table).rows@[i],
                ) && word_mute_match(old(table).rows@[i], owner@, word@) {
                    with_status(old(table).rows@[i], STATUS_CANCELLED)
                } else {
                    old(table).rows@[i]
                }))
            &&& r == Ok::<bool, MuteError>(
                exists|i: int|
                    0 <= i < old(table).rows@.len() && is_pending(#[trigger] old(table).rows@[i])
                        && word_mute_match(old(table).rows@[i], owner@, word@),
            )
        },
        table_evolves(old(table).rows@, final(table).rows@),
        old(table).wf() ==> final(table).wf(),
{
    if !unmute_applied {
        return Err(MuteError::ProviderActionError);
    }
    let changed = update_timed_mute_word(table, owner, word, STATUS_CANCELLED);
    Ok(changed)
}

} // verus!
