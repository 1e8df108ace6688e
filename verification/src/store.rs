//! The session store model: the three persisted tables (users, profiles,
//! sessions) with their invariants — unique ids, emails and tokens, every
//! profile and session bound to an existing user, and no user without its
//! profile — together with the row operations the components build on.
//!
//! A session is valid if and only if its token is still stored and the
//! current time is strictly before its expiry; revocation is row deletion.

use vstd::prelude::*;

use crate::models::{AuthError, ProfileRecord, SessionRecord, User, UserRecord};

verus! {

pub open spec fn has_user_with_id(users: Seq<UserRecord>, id: Seq<char>) -> bool {
    exists|i: int| 0 <= i < users.len() && users[i].id@ == id
}

pub open spec fn has_user_with_email(users: Seq<UserRecord>, email: Seq<char>) -> bool {
    exists|i: int| 0 <= i < users.len() && users[i].email@ == email
}

pub open spec fn has_profile_with_id(profiles: Seq<ProfileRecord>, id: Seq<char>) -> bool {
    exists|i: int| 0 <= i < profiles.len() && profiles[i].id@ == id
}

pub open spec fn has_profile_for_user(profiles: Seq<ProfileRecord>, user_id: Seq<char>) -> bool {
    exists|i: int| 0 <= i < profiles.len() && profiles[i].user_id@ == user_id
}

pub open spec fn has_session_with_token(sessions: Seq<SessionRecord>, token: Seq<char>) -> bool {
    exists|i: int| 0 <= i < sessions.len() && sessions[i].token@ == token
}

/// A token grants an identity at time `now` exactly when a stored session
/// bears it and `now` is strictly before that session's expiry.
pub open spec fn valid_session_for(sessions: Seq<SessionRecord>, token: Seq<char>, now: i64) -> bool {
    exists|i: int|
        0 <= i < sessions.len() && sessions[i].token@ == token && now < sessions[i].expires_at
}

/// The two stores hold the same rows.
pub open spec fn unchanged(pre: Db, post: Db) -> bool {
    &&& post.users@ == pre.users@
    &&& post.profiles@ == pre.profiles@
    &&& post.sessions@ == pre.sessions@
}

/// `u` is the identity the token grants at time `now`: the public fields of
/// the user owning a stored, unexpired session bearing the token.
pub open spec fn identity_of(db: Db, token: Seq<char>, now: i64, u: User) -> bool {
    exists|i: int, j: int|
        0 <= i < db.sessions@.len() && 0 <= j < db.users@.len() && db.sessions@[i].token@ == token
            && now < db.sessions@[i].expires_at && db.users@[j].id@ == db.sessions@[i].user_id@
            && u.id@ == db.users@[j].id@ && u.email@ == db.users@[j].email@ && u.display_name@
            == db.users@[j].display_name@ && u.created_at == db.users@[j].created_at
}

/// The session rows left after revoking `token`: every row except those
/// bearing the token, in their stored order.
pub open spec fn remove_token(sessions: Seq<SessionRecord>, token: Seq<char>) -> Seq<SessionRecord>
    decreases sessions.len(),
{
    if sessions.len() == 0 {
        Seq::empty()
    } else if sessions.last().token@ == token {
        remove_token(sessions.drop_last(), token)
    } else {
        remove_token(sessions.drop_last(), token).push(sessions.last())
    }
}

/// The persisted state: one relational store holding the users, profiles and
/// sessions tables. The well-formedness predicate [`Db::wf`] captures the
/// constraints the schema enforces (primary keys, unique email, foreign
/// keys, and the 1:1 user/profile binding).
pub struct Db {
    pub users: Vec<UserRecord>,
    pub profiles: Vec<ProfileRecord>,
    pub sessions: Vec<SessionRecord>,
}

impl Db {
    pub open spec fn wf(self) -> bool {
        &&& (forall|i: int, j: int|
            0 <= i < j < self.users@.len() ==> self.users@[i].id@ != self.users@[j].id@)
        &&& (forall|i: int, j: int|
            0 <= i < j < self.users@.len() ==> self.users@[i].email@ != self.users@[j].email@)
        &&& (forall|i: int, j: int|
            0 <= i < j < self.profiles@.len() ==> self.profiles@[i].id@ != self.profiles@[j].id@)
        &&& (forall|i: int, j: int|
            0 <= i < j < self.profiles@.len()
                ==> self.profiles@[i].user_id@ != self.profiles@[j].user_id@)
        &&& (forall|i: int, j: int|
            0 <= i < j < self.sessions@.len()
                ==> self.sessions@[i].token@ != self.sessions@[j].token@)
        &&& (forall|i: int|
            0 <= i < self.profiles@.len()
                ==> has_user_with_id(self.users@, self.profiles@[i].user_id@))
        &&& (forall|i: int|
            0 <= i < self.sessions@.len()
                ==> has_user_with_id(self.users@, self.sessions@[i].user_id@))
        &&& (forall|i: int|
            0 <= i < self.users@.len()
                ==> has_profile_for_user(self.profiles@, self.users@[i].id@))
    }

    /// An empty store, as a fresh deployment starts out.
    pub fn new() -> (db: Db)
        ensures
            db.wf(),
            db.users@.len() == 0,
            db.profiles@.len() == 0,
            db.sessions@.len() == 0,
    {
        Db { users: Vec::new(), profiles: Vec::new(), sessions: Vec::new() }
    }
}

fn contains_email(users: &Vec<UserRecord>, email: &String) -> (b: bool)
    ensures
        b == has_user_with_email(users@, email@),
{
    let mut i: usize = 0;
    while i < users.len()
        invariant
            i <= users@.len(),
            forall|k: int| 0 <= k < i ==> users@[k].email@ != email@,
        decreases users@.len() - i,
    {
        if users[i].email == *email {
            assert(users@[i as int].email@ == email@);
            return true;
        }
        i += 1;
    }
    false
}

fn contains_user_id(users: &Vec<UserRecord>, id: &String) -> (b: bool)
    ensures
        b == has_user_with_id(users@, id@),
{
    let mut i: usize = 0;
    while i < users.len()
        invariant
            i <= users@.len(),
            forall|k: int| 0 <= k < i ==> users@[k].id@ != id@,
        decreases users@.len() - i,
    {
        if users[i].id == *id {
            assert(users@[i as int].id@ == id@);
            return true;
        }
        i += 1;
    }
    false
}

fn contains_profile_id(profiles: &Vec<ProfileRecord>, id: &String) -> (b: bool)
    ensures
        b == has_profile_with_id(profiles@, id@),
{
    let mut i: usize = 0;
    while i < profiles.len()
        invariant
            i <= profiles@.len(),
            forall|k: int| 0 <= k < i ==> profiles@[k].id@ != id@,
        decreases profiles@.len() - i,
    {
        if profiles[i].id == *id {
            assert(profiles@[i as int].id@ == id@);
            return true;
        }
        i += 1;
    }
    false
}

fn contains_token(sessions: &Vec<SessionRecord>, token: &String) -> (b: bool)
    ensures
        b == has_session_with_token(sessions@, token@),
{
    let mut i: usize = 0;
    while i < sessions.len()
        invariant
            i <= sessions@.len(),
            forall|k: int| 0 <= k < i ==> sessions@[k].token@ != token@,
        decreases sessions@.len() - i,
    {
        if sessions[i].token == *token {
            assert(sessions@[i as int].token@ == token@);
            return true;
        }
        i += 1;
    }
    false
}

impl Db {
    /// The index of the user row holding `email`, if any. Emails are unique
    /// under [`Db::wf`], so the index is the only match.
    pub fn find_user_by_email(&self, email: &String) -> (r: Option<usize>)
        ensures
            match r {
                Some(i) => i < self.users@.len() && self.users@[i as int].email@ == email@,
                None => !has_user_with_email(self.users@, email@),
            },
    {
        let mut i: usize = 0;
        while i < self.users.len()
            invariant
                i <= self.users@.len(),
                forall|k: int| 0 <= k < i ==> self.users@[k].email@ != email@,
            decreases self.users@.len() - i,
        {
            if self.users[i].email == *email {
                return Some(i);
            }
            i += 1;
        }
        None
    }

    /// Store a session row. Token uniqueness is a store invariant, so a
    /// colliding token fails loudly instead of overwriting, and a session
    /// for an unknown user is refused as the foreign key would refuse it.
    pub fn insert_session(&mut self, s: SessionRecord) -> (r: Result<(), AuthError>)
        requires
            old(self).wf(),
        ensures
            final(self).wf(),
            final(self).users@ == old(self).users@,
            final(self).profiles@ == old(self).profiles@,
            match r {
                Ok(()) => {
                    &&& !has_session_with_token(old(self).sessions@, s.token@)
                    &&& has_user_with_id(old(self).users@, s.user_id@)
                    &&& final(self).sessions@ == old(self).sessions@.push(s)
                },
                Err(e) => {
                    &&& e == AuthError::StorageFailure
                    &&& final(self).sessions@ == old(self).sessions@
                    &&& (has_session_with_token(old(self).sessions@, s.token@)
                        || !has_user_with_id(old(self).users@, s.user_id@))
                },
            },
    {
        if contains_token(&self.sessions, &s.token) {
            return Err(AuthError::StorageFailure);
        }
        if !contains_user_id(&self.users, &s.user_id) {
            return Err(AuthError::StorageFailure);
        }
        self.sessions.push(s);
        assert forall|i: int, j: int|
            0 <= i < j < self.sessions@.len() implies self.sessions@[i].token@
            != self.sessions@[j].token@ by {
            if j == self.sessions@.len() - 1 {
                assert(self.sessions@[i] == old(self).sessions@[i]);
            }
        }
        Ok(())
    }

    /// Revoke every session bearing `token`. Deleting a token that is not
    /// stored is not an error: the store is simply left as it is.
    pub fn delete_by_token(&mut self, token: &String)
        requires
            old(self).wf(),
        ensures
            final(self).wf(),
            final(self).users@ == old(self).users@,
            final(self).profiles@ == old(self).profiles@,
            final(self).sessions@ == remove_token(old(self).sessions@, token@),
            !has_session_with_token(final(self).sessions@, token@),
    {
        let mut kept: Vec<SessionRecord> = Vec::new();
        let mut i: usize = 0;
        while i < self.sessions.len()
            invariant
                i <= self.sessions@.len(),
                kept@ == remove_token(self.sessions@.take(i as int), token@),
            decreases self.sessions@.len() - i,
        {
            assert(self.sessions@.take(i + 1).drop_last() =~= self.sessions@.take(i as int));
            assert(self.sessions@.take(i + 1).last() == self.sessions@[i as int]);
            if !(self.sessions[i].token == *token) {
                kept.push(self.sessions[i].clone());
            }
            i += 1;
        }
        assert(self.sessions@.take(i as int) =~= self.sessions@);
        proof {
            lemma_remove_token_shape(self.sessions@, token@);
        }
        self.sessions = kept;
    }

    /// Resolve a bearer token to the identity it grants at time `now`:
    /// the owning user's public fields if a stored session bears the token
    /// and has not expired, and nothing otherwise. An expired row grants
    /// nothing even though it is still stored, and the password hash is
    /// never part of the answer.
    pub fn resolve_identity(&self, token: &String, now: i64) -> (r: Option<User>)
        requires
            self.wf(),
        ensures
            r is Some <==> valid_session_for(self.sessions@, token@, now),
            match r {
                Some(u) => identity_of(*self, token@, now, u),
                None => true,
            },
    {
        let mut i: usize = 0;
        while i < self.sessions.len()
            invariant
                self.wf(),
                i <= self.sessions@.len(),
                forall|k: int| 0 <= k < i ==> self.sessions@[k].token@ != token@,
            decreases self.sessions@.len() - i,
        {
            if self.sessions[i].token == *token {
                if now < self.sessions[i].expires_at {
                    let user_id = self.sessions[i].user_id.clone();
                    assert(has_user_with_id(self.users@, self.sessions@[i as int].user_id@));
                    let mut j: usize = 0;
                    while j < self.users.len()
                        invariant
                            self.wf(),
                            i < self.sessions@.len(),
                            self.sessions@[i as int].token@ == token@,
                            now < self.sessions@[i as int].expires_at,
                            user_id@ == self.sessions@[i as int].user_id@,
                            has_user_with_id(self.users@, user_id@),
                            j <= self.users@.len(),
                            forall|k: int| 0 <= k < j ==> self.users@[k].id@ != user_id@,
                        decreases self.users@.len() - j,
                    {
                        if self.users[j].id == *(&user_id) {
                            let u = self.users[j].to_user();
                            assert(valid_session_for(self.sessions@, token@, now));
                            return Some(u);
                        }
                        j += 1;
                    }
                    assert(!has_user_with_id(self.users@, user_id@));
                    assert(false);
                    return None;
                } else {
                    // The only row bearing the token has expired: under
                    // `wf` tokens are unique, so no other row can bear it.
                    assert forall|k: int|
                        0 <= k < self.sessions@.len() && self.sessions@[k].token@ == token@
                        implies !(now < self.sessions@[k].expires_at) by {
                        if k != i {
                            assert(self.sessions@[k].token@ != self.sessions@[i as int].token@);
                        }
                    }
                    return None;
                }
            }
            i += 1;
        }
        assert(!has_session_with_token(self.sessions@, token@));
        None
    }

    /// The atomic account-creation write: the user row and its profile row
    /// go in together or not at all. A duplicate email aborts the whole
    /// write as `DuplicateEmail`; a primary-key collision aborts it as
    /// `StorageFailure`; no other transaction ever observes one row without
    /// the other.
    pub fn insert_user_and_profile(&mut self, user: UserRecord, profile: ProfileRecord) -> (r:
        Result<(), AuthError>)
        requires
            old(self).wf(),
            profile.user_id@ == user.id@,
        ensures
            final(self).wf(),
            final(self).sessions@ == old(self).sessions@,
            match r {
                Ok(()) => {
                    &&& !has_user_with_email(old(self).users@, user.email@)
                    &&& !has_user_with_id(old(self).users@, user.id@)
                    &&& !has_profile_with_id(old(self).profiles@, profile.id@)
                    &&& final(self).users@ == old(self).users@.push(user)
                    &&& final(self).profiles@ == old(self).profiles@.push(profile)
                },
                Err(e) => {
                    &&& final(self).users@ == old(self).users@
                    &&& final(self).profiles@ == old(self).profiles@
                    &&& (e == AuthError::DuplicateEmail <==> has_user_with_email(
                        old(self).users@,
                        user.email@,
                    ))
                    &&& (e == AuthError::DuplicateEmail || e == AuthError::StorageFailure)
                    &&& (e == AuthError::StorageFailure ==> has_user_with_id(
                        old(self).users@,
                        user.id@,
                    ) || has_profile_with_id(old(self).profiles@, profile.id@))
                },
            },
            r is Ok <==> (!has_user_with_email(old(self).users@, user.email@)
                && !has_user_with_id(old(self).users@, user.id@) && !has_profile_with_id(
                old(self).profiles@,
                profile.id@,
            )),
    {
        if contains_email(&self.users, &user.email) {
            return Err(AuthError::DuplicateEmail);
        }
        if contains_user_id(&self.users, &user.id) {
            return Err(AuthError::StorageFailure);
        }
        if contains_profile_id(&self.profiles, &profile.id) {
            return Err(AuthError::StorageFailure);
        }
        proof {
            // No profile can point at `user.id` yet: each one points at an
            // existing user, and no stored user bears that id.
            assert forall|k: int|
                0 <= k < self.profiles@.len() implies self.profiles@[k].user_id@
                != user.id@ by {
                assert(has_user_with_id(self.users@, self.profiles@[k].user_id@));
            }
        }
        self.users.push(user);
        self.profiles.push(profile);
        proof {
            let users2 = self.users@;
            let profiles2 = self.profiles@;
            let n = users2.len() - 1;
            let m = profiles2.len() - 1;
            assert forall|i: int, j: int|
                0 <= i < j < users2.len() implies users2[i].id@ != users2[j].id@ && users2[i].email@
                != users2[j].email@ by {
                if j == n {
                    assert(users2[i] == old(self).users@[i]);
                }
            }
            assert forall|i: int, j: int|
                0 <= i < j < profiles2.len() implies profiles2[i].id@ != profiles2[j].id@
                && profiles2[i].user_id@ != profiles2[j].user_id@ by {
                if j == m {
                    assert(profiles2[i] == old(self).profiles@[i]);
                }
            }
            assert forall|i: int|
                0 <= i < profiles2.len() implies has_user_with_id(
                users2,
                profiles2[i].user_id@,
            ) by {
                if i == m {
                    assert(users2[n].id@ == profiles2[m].user_id@);
                } else {
                    assert(has_user_with_id(old(self).users@, old(self).profiles@[i].user_id@));
                    let w = choose|w: int|
                        0 <= w < old(self).users@.len() && old(self).users@[w].id@ == old(
                            self,
                        ).profiles@[i].user_id@;
                    assert(users2[w].id@ == profiles2[i].user_id@);
                }
            }
            assert forall|i: int|
                0 <= i < self.sessions@.len() implies has_user_with_id(
                users2,
                self.sessions@[i].user_id@,
            ) by {
                let w = choose|w: int|
                    0 <= w < old(self).users@.len() && old(self).users@[w].id@ == old(
                        self,
                    ).sessions@[i].user_id@;
                assert(users2[w].id@ == self.sessions@[i].user_id@);
            }
            assert forall|i: int|
                0 <= i < users2.len() implies has_profile_for_user(profiles2, users2[i].id@) by {
                if i == n {
                    assert(profiles2[m].user_id@ == users2[n].id@);
                } else {
                    assert(has_profile_for_user(old(self).profiles@, old(self).users@[i].id@));
                    let w = choose|w: int|
                        0 <= w < old(self).profiles@.len() && old(self).profiles@[w].user_id@ == old(
                            self,
                        ).users@[i].id@;
                    assert(profiles2[w].user_id@ == users2[i].id@);
                }
            }
        }
        Ok(())
    }
}

/// Shape of the rows left by a revocation: each survivor is a stored row, no
/// survivor bears the revoked token, and stored uniqueness carries over.
proof fn lemma_remove_token_shape(sessions: Seq<SessionRecord>, token: Seq<char>)
    ensures
        remove_token(sessions, token).len() <= sessions.len(),
        forall|i: int|
            0 <= i < remove_token(sessions, token).len() ==> #[trigger] remove_token(
                sessions,
                token,
            )[i].token@ != token,
        forall|i: int|
            0 <= i < remove_token(sessions, token).len() ==> sessions.contains(
                #[trigger] remove_token(sessions, token)[i],
            ),
        (forall|i: int, j: int|
            0 <= i < j < sessions.len() ==> sessions[i].token@ != sessions[j].token@) ==> (forall|
            i: int,
            j: int,
        |
            0 <= i < j < remove_token(sessions, token).len() ==> remove_token(sessions, token)[i].token@
                != remove_token(sessions, token)[j].token@),
    decreases sessions.len(),
{
    if sessions.len() == 0 {
    } else {
        let pre = sessions.drop_last();
        lemma_remove_token_shape(pre, token);
        assert forall|i: int| 0 <= i < pre.len() implies sessions.contains(#[trigger] pre[i]) by {
            assert(sessions[i] == pre[i]);
        }
        let rt = remove_token(sessions, token);
        if sessions.last().token@ == token {
        } else {
            assert(rt == remove_token(pre, token).push(sessions.last()));
            assert(sessions.contains(sessions.last())) by {
                assert(sessions[sessions.len() - 1] == sessions.last());
            }
            if forall|i: int, j: int|
                0 <= i < j < sessions.len() ==> sessions[i].token@ != sessions[j].token@ {
                assert forall|i: int, j: int|
                    0 <= i < j < pre.len() implies pre[i].token@ != pre[j].token@ by {
                    assert(sessions[i] == pre[i] && sessions[j] == pre[j]);
                }
                assert forall|i: int, j: int|
                    0 <= i < j < rt.len() implies rt[i].token@ != rt[j].token@ by {
                    if j == rt.len() - 1 {
                        // rt[i] is one of the earlier stored rows; the last
                        // stored row's token differs from each of them.
                        assert(pre.contains(rt[i]));
                        let w = choose|w: int| 0 <= w < pre.len() && pre[w] == rt[i];
                        assert(sessions[w].token@ != sessions.last().token@);
                    }
                }
            }
        }
    }
}

/// Law: revoking a token leaves no session bearing it, so the identity
/// resolver answers nothing for that token at every later instant; and
/// revoking the same token a second time changes nothing — logout is
/// idempotent and never an error.
pub proof fn lemma_revocation(sessions: Seq<SessionRecord>, token: Seq<char>, now: i64)
    ensures
        !has_session_with_token(remove_token(sessions, token), token),
        !valid_session_for(remove_token(sessions, token), token, now),
        remove_token(remove_token(sessions, token), token) == remove_token(sessions, token),
{
    lemma_remove_token_shape(sessions, token);
    lemma_remove_token_noop(remove_token(sessions, token), token);
}

/// Revoking a token that is not stored leaves the rows exactly as they are.
proof fn lemma_remove_token_noop(sessions: Seq<SessionRecord>, token: Seq<char>)
    requires
        forall|i: int| 0 <= i < sessions.len() ==> sessions[i].token@ != token,
    ensures
        remove_token(sessions, token) == sessions,
    decreases sessions.len(),
{
    if sessions.len() == 0 {
        assert(remove_token(sessions, token) =~= sessions);
    } else {
        let pre = sessions.drop_last();
        assert forall|i: int| 0 <= i < pre.len() implies pre[i].token@ != token by {
            assert(sessions[i] == pre[i]);
        }
        lemma_remove_token_noop(pre, token);
        assert(sessions[sessions.len() - 1] == sessions.last());
        assert(remove_token(sessions, token) =~= sessions);
    }
}

/// Law: an expired session grants nothing. If every stored session bearing
/// the token has its expiry at or before `now`, the token is not valid at
/// `now`, even though the rows are still stored.
pub proof fn lemma_expired_session_invalid(sessions: Seq<SessionRecord>, token: Seq<char>, now: i64)
    requires
        forall|i: int|
            0 <= i < sessions.len() && sessions[i].token@ == token ==> sessions[i].expires_at
                <= now,
    ensures
        !valid_session_for(sessions, token, now),
{
}

} // verus!
