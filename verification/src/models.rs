//! Entry, row and request types of the timed-moderation engine.

use vstd::prelude::*;

verus! {

/// Status code of an entry that is waiting for its deadline.
pub const STATUS_PENDING: i32 = 0;

/// Status code of an entry whose mute the sweep has reversed.
pub const STATUS_RESOLVED: i32 = 1;

/// Status code of an entry whose mute its owner cancelled.
pub const STATUS_CANCELLED: i32 = 9;

/// The three status codes an entry may carry.
pub open spec fn valid_status(code: int) -> bool {
    code == STATUS_PENDING || code == STATUS_RESOLVED || code == STATUS_CANCELLED
}

/// A status in which an entry can no longer change.
pub open spec fn terminal_status(code: int) -> bool {
    code == STATUS_RESOLVED || code == STATUS_CANCELLED
}

/// One timed-moderation record: `owner` placed a mute on `target` that is due
/// to be reversed once `expiration_date` has passed.  The same row shape
/// serves both kinds of mute; an actor mute keeps an account identifier in
/// `target`, a word mute keeps the keyword.
pub struct MuteEntry {
    pub owner: String,
    pub target: String,
    pub created_date: i64,
    pub expiration_date: i64,
    pub status: i32,
}

/// Well-formedness of a single entry: a known status code and a deadline no
/// earlier than the creation time.
pub open spec fn entry_wf(e: MuteEntry) -> bool {
    &&& valid_status(e.status as int)
    &&& e.created_date <= e.expiration_date
}

/// A timed mute of an account, as the actor-mute table stores it.
pub struct TimedMute {
    pub actor: String,
    pub muted_actor: String,
    pub created_date: i64,
    pub expiration_date: i64,
    pub status: i32,
}

impl TimedMute {
    pub fn new(
        actor: String,
        muted_actor: String,
        created_date: i64,
        expiration_date: i64,
        status: i32,
    ) -> (r: Self)
        ensures
            r.actor == actor,
            r.muted_actor == muted_actor,
            r.created_date == created_date,
            r.expiration_date == expiration_date,
            r.status == status,
    {
        Self { actor, muted_actor, created_date, expiration_date, status }
    }

    /// The generic entry carried by this row: the muted account is the target.
    pub fn into_entry(self) -> (e: MuteEntry)
        ensures
            e.owner == self.actor,
            e.target == self.muted_actor,
            e.created_date == self.created_date,
            e.expiration_date == self.expiration_date,
            e.status == self.status,
    {
        MuteEntry {
            owner: self.actor,
            target: self.muted_actor,
            created_date: self.created_date,
            expiration_date: self.expiration_date,
            status: self.status,
        }
    }
}

/// A timed mute of a keyword, as the word-mute table stores it.
pub struct TimedMuteWord {
    pub actor: String,
    pub muted_word: String,
    pub created_date: i64,
    pub expiration_date: i64,
    pub status: i32,
}

impl TimedMuteWord {
    pub fn new(
        actor: String,
        muted_word: String,
        created_date: i64,
        expiration_date: i64,
        status: i32,
    ) -> (r: Self)
        ensures
            r.actor == actor,
            r.muted_word == muted_word,
            r.created_date == created_date,
            r.expiration_date == expiration_date,
            r.status == status,
    {
        Self { actor, muted_word, created_date, expiration_date, status }
    }

    /// The generic entry carried by this row: the keyword is the target.
    pub fn into_entry(self) -> (e: MuteEntry)
        ensures
            e.owner == self.actor,
            e.target == self.muted_word,
            e.created_date == self.created_date,
            e.expiration_date == self.expiration_date,
            e.status == self.status,
    {
        MuteEntry {
            owner: self.actor,
            target: self.muted_word,
            created_date: self.created_date,
            expiration_date: self.expiration_date,
            status: self.status,
        }
    }
}

/// A stored account profile: the credentials with which the engine
/// authenticates against the moderation provider on the owner's behalf.
#[derive(Debug)]
pub struct Profile {
    pub did: String,
    pub handle: String,
    pub password: String,
    pub status: i32,
}

impl Profile {
    pub fn new(did: String, handle: String, password: String, status: i32) -> (r: Self)
        ensures
            r.did == did,
            r.handle == handle,
            r.password == password,
            r.status == status,
    {
        Self { did, handle, password, status }
    }
}

/// Request to mute an account for a limited time.
pub struct CreateTimedMuteRequest {
    pub muted_actor_handle: String,
    pub expiration_length: i64,
}

/// Request to mute a keyword for a limited time.
pub struct CreateTimedMuteWordRequest {
    pub muted_word: String,
    pub expiration_length: i64,
}

/// Request to cancel a pending actor mute before its deadline.
pub struct DeleteTimedMuteRequest {
    pub muted_actor_did: String,
    pub expiration_date: i64,
}

/// Request to cancel a pending word mute before its deadline.
pub struct DeleteTimedMuteWordRequest {
    pub muted_word: String,
}

/// Report returned when a handle cannot be resolved to an account.
pub struct BadHandle {
    pub error: String,
}

/// Credentials presented when an owner signs in.
pub struct LoginRequest {
    pub username: String,
    pub password: String,
}

/// The session data returned for a signed-in owner.
pub struct IsActiveSuccessResponse {
    pub access_jwt: String,
    pub refresh_jwt: String,
    pub did: String,
    pub active: bool,
    pub handle: String,
}

} // verus!
