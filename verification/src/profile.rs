//! The table of stored account profiles.
//!
//! A profile keeps the credentials with which the engine authenticates
//! against the moderation provider on an owner's behalf.  The sweep fetches
//! an owner's profile fresh for every group it processes, since credentials
//! may have been rotated between runs.

use vstd::prelude::*;

use crate::errors::MuteError;
use crate::models::Profile;
use crate::store::str_eq;

verus! {

/// Status code of a profile that may be used.
pub const PROFILE_ACTIVE: i32 = 0;

/// Status code of a profile its owner has deactivated.
pub const PROFILE_DEACTIVATED: i32 = 9;

/// The profiles of `rows` stored under `did`, in table order.
pub open spec fn profiles_for(rows: Seq<Profile>, did: Seq<char>) -> Seq<Profile>
    decreases rows.len(),
{
    if rows.len() == 0 {
        Seq::empty()
    } else {
        profiles_for(rows.drop_last(), did) + if rows.last().did@ == did {
            seq![rows.last()]
        } else {
            Seq::empty()
        }
    }
}

/// The durable table of account profiles.
pub struct ProfileTable {
    pub rows: Vec<Profile>,
}

impl ProfileTable {
    /// An empty table.
    pub fn new() -> (t: Self)
        ensures
            t.rows@.len() == 0,
    {
        ProfileTable { rows: Vec::new() }
    }

    /// Number of stored profiles.
    pub fn len(&self) -> (n: usize)
        ensures
            n == self.rows@.len(),
    {
        self.rows.len()
    }
}

/// The profiles stored under `did`, in table order.
pub fn fetch_profile(table: &ProfileTable, did: &str) -> (r: Vec<Profile>)
    ensures
        r@ == profiles_for(table.rows@, did@),
{
    let mut out: Vec<Profile> = Vec::new();
    let mut i: usize = 0;
    while i < table.rows.len()
        invariant
            i <= table.rows@.len(),
            out@ == profiles_for(table.rows@.subrange(0, i as int), did@),
        decreases table.rows@.len() - i,
    {
        let ghost prefix = table.rows@.subrange(0, i as int);
        let ghost prefix1 = table.rows@.subrange(0, i as int + 1);
        proof {
            assert(prefix1.drop_last() =~= prefix);
            assert(prefix1.last() == table.rows@[i as int]);
        }
        let p = &table.rows[i];
        if str_eq(p.did.as_str(), did) {
            out.push(
                Profile {
                    did: p.did.clone(),
                    handle: p.handle.clone(),
                    password: p.password.clone(),
                    status: p.status,
                },
            );
            proof {
                assert(out@ =~= profiles_for(prefix, did@).push(table.rows@[i as int]));
                assert(profiles_for(prefix1, did@) =~= profiles_for(prefix, did@).push(
                    table.rows@[i as int],
                ));
            }
        } else {
            proof {
                assert(profiles_for(prefix1, did@) =~= profiles_for(prefix, did@));
            }
        }
        i += 1;
    }
    proof {
        assert(table.rows@.subrange(0, table.rows@.len() as int) =~= table.rows@);
    }
    out
}

/// The profiles stored under `did`; shares the contract of [`fetch_profile`].
pub fn fetch_profile_v1(table: &ProfileTable, did: &str) -> (r: Vec<Profile>)
    ensures
        r@ == profiles_for(table.rows@, did@),
{
    fetch_profile(table, did)
}

/// Store a new profile.  Profiles enter the table active.
pub fn create_profile(table: &mut ProfileTable, did: &str, handle: &str, password: &str)
    ensures
        final(table).rows@.len() == old(table).rows@.len() + 1,
        forall|i: int|
            0 <= i < old(table).rows@.len() ==> final(table).rows@[i] == old(table).rows@[i],
        final(table).rows@.last().did@ == did@,
        final(table).rows@.last().handle@ == handle@,
        final(table).rows@.last().password@ == password@,
        final(table).rows@.last().status == PROFILE_ACTIVE,
{
    let profile = Profile {
        did: did.to_owned(),
        handle: handle.to_owned(),
        password: password.to_owned(),
        status: PROFILE_ACTIVE,
    };
    table.rows.push(profile);
}

/// Replace the stored password of every profile under `did`.
pub fn update_profile(table: &mut ProfileTable, did: &str, handle: &str, password: &str)
    ensures
        final(table).rows@.len() == old(table).rows@.len(),
        forall|i: int|
            0 <= i < old(table).rows@.len() ==> {
                let p0 = old(table).rows@[i];
                let p1 = #[trigger] final(table).rows@[i];
                if p0.did@ == did@ {
                    p1.did == p0.did && p1.handle == p0.handle && p1.password@ == password@
                        && p1.status == p0.status
                } else {
                    p1 == p0
                }
            },
{
    let ghost rows0 = table.rows@;
    let mut i: usize = 0;
    while i < table.rows.len()
        invariant
            i <= rows0.len(),
            table.rows@.len() == rows0.len(),
            forall|k: int|
                0 <= k < rows0.len() ==> {
                    let p0 = rows0[k];
                    let p1 = #[trigger] table.rows@[k];
                    if k < i && p0.did@ == did@ {
                        p1.did == p0.did && p1.handle == p0.handle && p1.password@ == password@
                            && p1.status == p0.status
                    } else {
                        p1 == p0
                    }
                },
        decreases rows0.len() - i,
    {
        let hit = str_eq(table.rows[i].did.as_str(), did);
        if hit {
            table.rows[i].password = password.to_owned();
        }
        i += 1;
    }
    let _ = handle;
}

/// Deactivate every profile under `did`: the stored credential is cleared so
/// it can no longer be used against the provider.
pub fn deactivate_profile(table: &mut ProfileTable, did: &str)
    ensures
        final(table).rows@.len() == old(table).rows@.len(),
        forall|i: int|
            0 <= i < old(table).rows@.len() ==> {
                let p0 = old(table).rows@[i];
                let p1 = #[trigger] final(table).rows@[i];
                if p0.did@ == did@ {
                    p1.did == p0.did && p1.handle == p0.handle && p1.password@ == Seq::<
                        char,
                    >::empty() && p1.status == PROFILE_DEACTIVATED
                } else {
                    p1 == p0
                }
            },
{
    let ghost rows0 = table.rows@;
    let mut i: usize = 0;
    while i < table.rows.len()
        invariant
            i <= rows0.len(),
            table.rows@.len() == rows0.len(),
            forall|k: int|
                0 <= k < rows0.len() ==> {
                    let p0 = rows0[k];
                    let p1 = #[trigger] table.rows@[k];
                    if k < i && p0.did@ == did@ {
                        p1.did == p0.did && p1.handle == p0.handle && p1.password@ == Seq::<
                            char,
                        >::empty() && p1.status == PROFILE_DEACTIVATED
                    } else {
                        p1 == p0
                    }
                },
        decreases rows0.len() - i,
    {
        let hit = str_eq(table.rows[i].did.as_str(), did);
        if hit {
            table.rows[i].password = String::new();
            table.rows[i].status = PROFILE_DEACTIVATED;
        }
        i += 1;
    }
}

/// The credentials with which the provider is to be asked to act for `did`:
/// the owner's first stored profile, provided it is still active.  A missing
/// or deactivated profile means the owner can no longer authenticate, which
/// fails only this owner's operation or sweep group, never the whole run.
pub fn credentials_for(table: &ProfileTable, did: &str) -> (r: Result<Profile, MuteError>)
    ensures
        r matches Ok(p) ==> profiles_for(table.rows@, did@).len() > 0 && p == profiles_for(
            table.rows@,
            did@,
        )[0] && p.status == PROFILE_ACTIVE,
        r is Err ==> r == Err::<Profile, MuteError>(MuteError::ProviderAuthError),
        r is Err <==> (profiles_for(table.rows@, did@).len() == 0 || profiles_for(
            table.rows@,
            did@,
        )[0].status != PROFILE_ACTIVE),
{
    let mut found = fetch_profile(table, did);
    if found.len() == 0 {
        return Err(MuteError::ProviderAuthError);
    }
    let first = found.remove(0);
    if first.status != PROFILE_ACTIVE {
        return Err(MuteError::ProviderAuthError);
    }
    Ok(first)
}

/// The sign-in bookkeeping: a first sign-in stores the profile; a sign-in
/// whose password matches the stored one refreshes it; a sign-in whose
/// password differs leaves the stored profile untouched.
pub fn record_login(table: &mut ProfileTable, did: &str, handle: &str, password: &str)
    ensures
        profiles_for(old(table).rows@, did@).len() == 0 ==> {
            &&& final(table).rows@.len() == old(table).rows@.len() + 1
            &&& (forall|i: int|
                0 <= i < old(table).rows@.len() ==> final(table).rows@[i] == old(table).rows@[i])
            &&& final(table).rows@.last().did@ == did@
            &&& final(table).rows@.last().handle@ == handle@
            &&& final(table).rows@.last().password@ == password@
            &&& final(table).rows@.last().status == PROFILE_ACTIVE
        },
        profiles_for(old(table).rows@, did@).len() > 0 && profiles_for(
            old(table).rows@,
            did@,
        )[0].password@ == password@ ==> {
            &&& final(table).rows@.len() == old(table).rows@.len()
            &&& (forall|i: int|
                0 <= i < old(table).rows@.len() ==> {
                    let p0 = old(table).rows@[i];
                    let p1 = #[trigger] final(table).rows@[i];
                    if p0.did@ == did@ {
                        p1.did == p0.did && p1.handle == p0.handle && p1.password@ == password@
                            && p1.status == p0.status
                    } else {
                        p1 == p0
                    }
                })
        },
        profiles_for(old(table).rows@, did@).len() > 0 && profiles_for(
            old(table).rows@,
            did@,
        )[0].password@ != password@ ==> *final(table) == *old(table),
{
    let existing = fetch_profile(table, did);
    if existing.len() == 0 {
        create_profile(table, did, handle, password);
    } else {
        let stored = &existing[0];
        if str_eq(stored.password.as_str(), password) {
            update_profile(table, did, handle, password);
        }
    }
}

} // verus!
