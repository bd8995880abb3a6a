//! In-memory model of the storage that backs the authentication core: a user
//! table keyed by id with unique emails, and a refresh-token table that keeps
//! at most one live refresh token per identity.
//!
//! The real deployment treats storage as an opaque asynchronous store; this
//! module is the verified description of what the core expects of it, and is
//! what the orchestration code runs against.
use crate::strutil::str_eq;
use vstd::prelude::*;

verus! {

/// A stored user row. The password field holds only the salted hash in its
/// self-describing encoded form, never the plaintext.
pub struct User {
    pub id: u128,
    pub email: String,
    pub password: String,
    pub first_name: String,
    pub last_name: String,
    pub created_at: u64,
    pub updated_at: Option<u64>,
}

impl Clone for User {
    fn clone(&self) -> (r: Self)
        ensures
            r == *self,
    {
        User {
            id: self.id,
            email: self.email.clone(),
            password: self.password.clone(),
            first_name: self.first_name.clone(),
            last_name: self.last_name.clone(),
            created_at: self.created_at,
            updated_at: self.updated_at,
        }
    }
}

/// The data needed to create a user row; the password field already holds the
/// encoded hash.
pub struct NewUser {
    pub email: String,
    pub first_name: String,
    pub last_name: String,
    pub password: String,
}

/// A stored refresh-token row: an opaque identifier owned by one identity,
/// with its own expiry.
#[derive(Clone, Copy, PartialEq, Eq, Structural)]
pub struct RefreshToken {
    pub id: u128,
    pub user_id: u128,
    pub expires_at: u64,
    pub created_at: u64,
    pub updated_at: Option<u64>,
}

/// The data needed to create a refresh-token row.
pub struct NewRefreshToken {
    pub user_id: u128,
}

impl RefreshToken {
    /// Whether the token's expiry lies strictly before `now`.
    pub open spec fn spec_is_expired(&self, now: u64) -> bool {
        self.expires_at < now
    }

    /// Expiry is checked against the supplied clock reading, not enforced by
    /// the store itself.
    pub fn is_expired(&self, now: u64) -> (r: bool)
        ensures
            r == self.spec_is_expired(now),
    {
        self.expires_at < now
    }
}

/// Pairwise distinct user ids.
pub open spec fn user_ids_unique(s: Seq<User>) -> bool {
    forall|i: int, j: int| 0 <= i < j < s.len() ==> s[i].id != s[j].id
}

/// Pairwise distinct emails.
pub open spec fn emails_unique(s: Seq<User>) -> bool {
    forall|i: int, j: int| 0 <= i < j < s.len() ==> s[i].email@ != s[j].email@
}

/// Pairwise distinct token ids.
pub open spec fn token_ids_unique(s: Seq<RefreshToken>) -> bool {
    forall|i: int, j: int| 0 <= i < j < s.len() ==> s[i].id != s[j].id
}

/// Pairwise distinct owners: at most one live refresh token per identity.
pub open spec fn owners_unique(s: Seq<RefreshToken>) -> bool {
    forall|i: int, j: int| 0 <= i < j < s.len() ==> s[i].user_id != s[j].user_id
}

/// Whether some row of `s` has email `email`.
pub open spec fn spec_has_email(s: Seq<User>, email: Seq<char>) -> bool {
    exists|i: int| 0 <= i < s.len() && s[i].email@ == email
}

/// The row of `s` with email `email`.
pub open spec fn spec_user_with_email(s: Seq<User>, email: Seq<char>) -> User {
    s[choose|i: int| 0 <= i < s.len() && s[i].email@ == email]
}

/// Whether some row of `s` has id `id`.
pub open spec fn spec_has_user_id(s: Seq<User>, id: u128) -> bool {
    exists|i: int| 0 <= i < s.len() && s[i].id == id
}

/// The row of `s` with id `id`.
pub open spec fn spec_user_with_id(s: Seq<User>, id: u128) -> User {
    s[choose|i: int| 0 <= i < s.len() && s[i].id == id]
}

/// Whether some token row of `s` has id `id`.
pub open spec fn spec_has_token(s: Seq<RefreshToken>, id: u128) -> bool {
    exists|i: int| 0 <= i < s.len() && s[i].id == id
}

/// The token row of `s` with id `id`.
pub open spec fn spec_token_with(s: Seq<RefreshToken>, id: u128) -> RefreshToken {
    s[choose|i: int| 0 <= i < s.len() && s[i].id == id]
}

/// Whether some token row of `s` is owned by `user_id`.
pub open spec fn spec_has_user_token(s: Seq<RefreshToken>, user_id: u128) -> bool {
    exists|i: int| 0 <= i < s.len() && s[i].user_id == user_id
}

/// `s` with every token of `user_id` removed, keeping the order of the rest.
pub open spec fn spec_without_user(s: Seq<RefreshToken>, user_id: u128) -> Seq<RefreshToken>
    decreases s.len(),
{
    if s.len() == 0 {
        s
    } else {
        let rest = spec_without_user(s.drop_last(), user_id);
        if s.last().user_id == user_id {
            rest
        } else {
            rest.push(s.last())
        }
    }
}

/// A token row survives the removal exactly when it is in the input and not
/// owned by `user_id`.
pub proof fn lemma_without_user_membership(s: Seq<RefreshToken>, user_id: u128)
    ensures
        forall|x: RefreshToken|
            #[trigger] spec_without_user(s, user_id).contains(x) <==> (s.contains(x)
                && x.user_id != user_id),
    decreases s.len(),
{
    if s.len() > 0 {
        lemma_without_user_membership(s.drop_last(), user_id);
        let rest = spec_without_user(s.drop_last(), user_id);
        let out = spec_without_user(s, user_id);
        assert forall|x: RefreshToken| #[trigger] out.contains(x) implies (s.contains(x)
            && x.user_id != user_id) by {
            if s.last().user_id != user_id && x == s.last() {
                assert(s.contains(x)) by {
                    assert(s[s.len() - 1] == x);
                }
            } else {
                assert(rest.contains(x));
                let i = choose|i: int| 0 <= i < s.drop_last().len() && s.drop_last()[i] == x;
                assert(s[i] == x);
            }
        }
        assert forall|x: RefreshToken| s.contains(x) && x.user_id != user_id implies #[trigger] out
            .contains(x) by {
            let i = choose|i: int| 0 <= i < s.len() && s[i] == x;
            if i < s.len() - 1 {
                assert(s.drop_last()[i] == x);
                assert(rest.contains(x));
                if s.last().user_id == user_id {
                } else {
                    assert(out == rest.push(s.last()));
                    let j = choose|j: int| 0 <= j < rest.len() && rest[j] == x;
                    assert(out[j] == x);
                }
            } else {
                assert(s.last() == x);
                assert(out == rest.push(s.last()));
                assert(out[out.len() - 1] == x);
            }
        }
    }
}

/// Removing a user's tokens keeps distinctness of token ids and of owners.
pub proof fn lemma_without_user_wf(s: Seq<RefreshToken>, user_id: u128)
    requires
        token_ids_unique(s),
        owners_unique(s),
    ensures
        token_ids_unique(spec_without_user(s, user_id)),
        owners_unique(spec_without_user(s, user_id)),
        spec_without_user(s, user_id).len() <= s.len(),
        !spec_has_user_token(spec_without_user(s, user_id), user_id),
    decreases s.len(),
{
    lemma_without_user_membership(s, user_id);
    let out = spec_without_user(s, user_id);
    if s.len() > 0 {
        lemma_without_user_wf(s.drop_last(), user_id);
        let rest = spec_without_user(s.drop_last(), user_id);
        if s.last().user_id != user_id {
            lemma_without_user_membership(s.drop_last(), user_id);
            assert forall|i: int, j: int| 0 <= i < j < out.len() implies out[i].id != out[j].id
                && out[i].user_id != out[j].user_id by {
                if j < out.len() - 1 {
                    assert(rest[i] == out[i] && rest[j] == out[j]);
                } else {
                    assert(out[j] == s.last());
                    assert(rest[i] == out[i]);
                    assert(rest.contains(rest[i])) by {
                        assert(rest[i] == rest[i]);
                    }
                    assert(s.drop_last().contains(out[i]));
                    let k = choose|k: int|
                        0 <= k < s.drop_last().len() && s.drop_last()[k] == out[i];
                    assert(s[k] == out[i]);
                    assert(s[s.len() - 1] == s.last());
                }
            }
        }
    }
    assert(!spec_has_user_token(out, user_id)) by {
        if spec_has_user_token(out, user_id) {
            let i = choose|i: int| 0 <= i < out.len() && out[i].user_id == user_id;
            assert(out.contains(out[i]));
        }
    }
}

/// In a sequence with distinct token ids, two members with the same id are
/// the same row.
pub proof fn lemma_unique_token_id(s: Seq<RefreshToken>, x: RefreshToken, y: RefreshToken)
    requires
        token_ids_unique(s),
        s.contains(x),
        s.contains(y),
        x.id == y.id,
    ensures
        x == y,
{
    let i = choose|i: int| 0 <= i < s.len() && s[i] == x;
    let j = choose|j: int| 0 <= j < s.len() && s[j] == y;
    if i != j {
        assert(s[i].id != s[j].id);
    }
}

/// The store of user rows.
pub struct UserStore {
    pub users: Vec<User>,
}

impl UserStore {
    /// Well-formedness: ids and emails are unique.
    pub open spec fn wf(&self) -> bool {
        user_ids_unique(self.users@) && emails_unique(self.users@)
    }

    /// An empty user store.
    pub fn new() -> (r: Self)
        ensures
            r.wf(),
            r.users@.len() == 0,
    {
        UserStore { users: Vec::new() }
    }

    /// Look up a user row by email.
    pub fn find_by_email(&self, email: &str) -> (r: Option<User>)
        requires
            self.wf(),
        ensures
            match r {
                Some(u) => spec_has_email(self.users@, email@) && u == spec_user_with_email(
                    self.users@,
                    email@,
                ) && self.users@.contains(u),
                None => !spec_has_email(self.users@, email@),
            },
    {
        let n = self.users.len();
        let mut i: usize = 0;
        while i < n
            invariant
                self.wf(),
                0 <= i <= n,
                n == self.users@.len(),
                forall|k: int| 0 <= k < i ==> self.users@[k].email@ != email@,
            decreases n - i,
        {
            if str_eq(self.users[i].email.as_str(), email) {
                let u = self.users[i].clone();
                proof {
                    let w = choose|w: int|
                        0 <= w < self.users@.len() && self.users@[w].email@ == email@;
                    assert(self.users@[w] == self.users@[i as int]);
                }
                return Some(u);
            }
            i += 1;
        }
        None
    }

    /// Look up a user row by id.
    pub fn find_by_id(&self, id: u128) -> (r: Option<User>)
        requires
            self.wf(),
        ensures
            match r {
                Some(u) => spec_has_user_id(self.users@, id) && u == spec_user_with_id(
                    self.users@,
                    id,
                ) && self.users@.contains(u),
                None => !spec_has_user_id(self.users@, id),
            },
    {
        let n = self.users.len();
        let mut i: usize = 0;
        while i < n
            invariant
                self.wf(),
                0 <= i <= n,
                n == self.users@.len(),
                forall|k: int| 0 <= k < i ==> self.users@[k].id != id,
            decreases n - i,
        {
            if self.users[i].id == id {
                let u = self.users[i].clone();
                proof {
                    let w = choose|w: int| 0 <= w < self.users@.len() && self.users@[w].id == id;
                    assert(self.users@[w] == self.users@[i as int]);
                }
                return Some(u);
            }
            i += 1;
        }
        None
    }

    /// Insert a new user row. Fails exactly when the email or the id is
    /// already taken, modelling the storage uniqueness constraints; the store
    /// is unchanged on failure.
    pub fn insert(&mut self, user: NewUser, id: u128, now: u64) -> (r: Result<User, ()>)
        requires
            old(self).wf(),
        ensures
            final(self).wf(),
            match r {
                Ok(u) => !spec_has_email(old(self).users@, user.email@) && !spec_has_user_id(
                    old(self).users@,
                    id,
                ) && u.id == id && u.email@ == user.email@ && u.password@ == user.password@
                    && u.first_name@ == user.first_name@ && u.last_name@ == user.last_name@
                    && u.created_at == now && u.updated_at is None && final(self).users@ == old(
                    self,
                ).users@.push(u),
                Err(_) => (spec_has_email(old(self).users@, user.email@) || spec_has_user_id(
                    old(self).users@,
                    id,
                )) && final(self).users@ == old(self).users@,
            },
    {
        if self.find_by_email(user.email.as_str()).is_some() {
            return Err(());
        }
        if self.find_by_id(id).is_some() {
            return Err(());
        }
        let row = User {
            id,
            email: user.email,
            password: user.password,
            first_name: user.first_name,
            last_name: user.last_name,
            created_at: now,
            updated_at: None,
        };
        let result = row.clone();
        self.users.push(row);
        Ok(result)
    }
}

/// The store of refresh-token rows. Its well-formedness carries the
/// single-live-refresh-token policy: no identity owns two rows.
pub struct RefreshTokenStore {
    pub tokens: Vec<RefreshToken>,
}

/// The outcome of redeeming a refresh token, per the lifecycle contract.
#[derive(Clone, Copy, PartialEq, Eq, Structural, Debug)]
pub enum RedeemError {
    TokenNotFound,
    TokenExpired,
}

/// What redeeming `token_id` at time `now` resolves to in state `s`:
/// the owning identity if the token is present and not past its expiry.
pub open spec fn spec_redeem(s: Seq<RefreshToken>, token_id: u128, now: u64) -> Result<
    u128,
    RedeemError,
> {
    if !spec_has_token(s, token_id) {
        Err(RedeemError::TokenNotFound)
    } else if spec_token_with(s, token_id).spec_is_expired(now) {
        Err(RedeemError::TokenExpired)
    } else {
        Ok(spec_token_with(s, token_id).user_id)
    }
}

impl RefreshTokenStore {
    /// Well-formedness: token ids unique, and at most one live token per
    /// identity.
    pub open spec fn wf(&self) -> bool {
        token_ids_unique(self.tokens@) && owners_unique(self.tokens@)
    }

    /// An empty refresh-token store.
    pub fn new() -> (r: Self)
        ensures
            r.wf(),
            r.tokens@.len() == 0,
    {
        RefreshTokenStore { tokens: Vec::new() }
    }

    /// Look up a token row by id.
    pub fn find(&self, token_id: u128) -> (r: Option<RefreshToken>)
        requires
            self.wf(),
        ensures
            match r {
                Some(t) => spec_has_token(self.tokens@, token_id) && t == spec_token_with(
                    self.tokens@,
                    token_id,
                ) && self.tokens@.contains(t),
                None => !spec_has_token(self.tokens@, token_id),
            },
    {
        let n = self.tokens.len();
        let mut i: usize = 0;
        while i < n
            invariant
                self.wf(),
                0 <= i <= n,
                n == self.tokens@.len(),
                forall|k: int| 0 <= k < i ==> self.tokens@[k].id != token_id,
            decreases n - i,
        {
            if self.tokens[i].id == token_id {
                let t = self.tokens[i];
                proof {
                    let w = choose|w: int|
                        0 <= w < self.tokens@.len() && self.tokens@[w].id == token_id;
                    assert(self.tokens@[w] == self.tokens@[i as int]);
                }
                return Some(t);
            }
            i += 1;
        }
        None
    }

    /// Delete any live refresh token of `user_id`. Idempotent: succeeds even
    /// if none existed.
    pub fn invalidate(&mut self, user_id: u128)
        requires
            old(self).wf(),
        ensures
            final(self).wf(),
            final(self).tokens@ == spec_without_user(old(self).tokens@, user_id),
            !spec_has_user_token(final(self).tokens@, user_id),
    {
        let n = self.tokens.len();
        let mut out: Vec<RefreshToken> = Vec::new();
        let mut i: usize = 0;
        while i < n
            invariant
                0 <= i <= n,
                n == self.tokens@.len(),
                out@ == spec_without_user(self.tokens@.take(i as int), user_id),
            decreases n - i,
        {
            proof {
                assert(self.tokens@.take(i + 1).drop_last() =~= self.tokens@.take(i as int));
                assert(self.tokens@.take(i + 1).last() == self.tokens@[i as int]);
            }
            if self.tokens[i].user_id != user_id {
                out.push(self.tokens[i]);
            }
            i += 1;
        }
        proof {
            assert(self.tokens@.take(n as int) =~= self.tokens@);
            lemma_without_user_wf(self.tokens@, user_id);
        }
        self.tokens = out;
    }

    /// Issue a fresh refresh token for `user_id`: first delete any live token
    /// of that identity, then insert the new row, as one sequenced operation.
    /// Fails exactly when the chosen token id already names a surviving row
    /// (a collision); the deletion still stands in that case, mirroring a
    /// delete-then-insert against storage.
    pub fn issue(&mut self, user_id: u128, token_id: u128, now: u64, ttl: u64) -> (r: Result<
        RefreshToken,
        (),
    >)
        requires
            old(self).wf(),
            now + ttl <= u64::MAX,
        ensures
            final(self).wf(),
            ({
                let cleaned = spec_without_user(old(self).tokens@, user_id);
                match r {
                    Ok(t) => !spec_has_token(cleaned, token_id) && t == (RefreshToken {
                        id: token_id,
                        user_id,
                        expires_at: (now + ttl) as u64,
                        created_at: now,
                        updated_at: None,
                    }) && final(self).tokens@ == cleaned.push(t),
                    Err(_) => spec_has_token(cleaned, token_id) && final(self).tokens@ == cleaned,
                }
            }),
    {
        self.invalidate(user_id);
        if self.find(token_id).is_some() {
            return Err(());
        }
        let row = RefreshToken {
            id: token_id,
            user_id,
            expires_at: now + ttl,
            created_at: now,
            updated_at: None,
        };
        proof {
            let cleaned = self.tokens@;
            assert forall|i: int, j: int| 0 <= i < j < cleaned.push(row).len() implies cleaned.push(
                row,
            )[i].id != cleaned.push(row)[j].id && cleaned.push(row)[i].user_id != cleaned.push(
                row,
            )[j].user_id by {
                if j == cleaned.len() {
                    assert(cleaned.push(row)[i] == cleaned[i]);
                    if cleaned[i].id == row.id {
                        assert(spec_has_token(cleaned, token_id));
                    }
                    if cleaned[i].user_id == row.user_id {
                        assert(spec_has_user_token(cleaned, user_id));
                    }
                }
            }
        }
        self.tokens.push(row);
        Ok(row)
    }

    /// A copy of the rows as they stand, so a caller can restore the store
    /// after a failed multi-step operation.
    pub fn snapshot_rows(&self) -> (r: Vec<RefreshToken>)
        ensures
            r@ == self.tokens@,
    {
        let n = self.tokens.len();
        let mut out: Vec<RefreshToken> = Vec::new();
        let mut i: usize = 0;
        while i < n
            invariant
                0 <= i <= n,
                n == self.tokens@.len(),
                out@ == self.tokens@.take(i as int),
            decreases n - i,
        {
            out.push(self.tokens[i]);
            proof {
                assert(self.tokens@.take(i + 1) =~= self.tokens@.take(i as int).push(
                    self.tokens@[i as int],
                ));
            }
            i += 1;
        }
        proof {
            assert(self.tokens@.take(n as int) =~= self.tokens@);
        }
        out
    }

    /// Redeem a refresh token: resolve the owning identity if the token is
    /// present and not past its expiry. The row is not deleted here; expiry
    /// is checked, not enforced by the store.
    pub fn redeem(&self, token_id: u128, now: u64) -> (r: Result<u128, RedeemError>)
        requires
            self.wf(),
        ensures
            r == spec_redeem(self.tokens@, token_id, now),
    {
        match self.find(token_id) {
            None => Err(RedeemError::TokenNotFound),
            Some(t) => if t.is_expired(now) {
                Err(RedeemError::TokenExpired)
            } else {
                Ok(t.user_id)
            },
        }
    }
}

/// Issuing a new refresh token for an identity supersedes the one it had:
/// in the state left by the issuance, redeeming the earlier token id reports
/// it as not found, at every later clock reading.
pub proof fn lemma_issue_supersedes(
    s0: Seq<RefreshToken>,
    s1: Seq<RefreshToken>,
    user_id: u128,
    first: RefreshToken,
    fresh: RefreshToken,
    now: u64,
)
    requires
        token_ids_unique(s0),
        s0.contains(first),
        first.user_id == user_id,
        fresh.user_id == user_id,
        fresh.id != first.id,
        s1 == spec_without_user(s0, user_id).push(fresh),
    ensures
        spec_redeem(s1, first.id, now) == Err::<u128, RedeemError>(RedeemError::TokenNotFound),
{
    lemma_without_user_membership(s0, user_id);
    let cleaned = spec_without_user(s0, user_id);
    assert(!spec_has_token(s1, first.id)) by {
        if spec_has_token(s1, first.id) {
            let i = choose|i: int| 0 <= i < s1.len() && s1[i].id == first.id;
            if i < cleaned.len() {
                assert(cleaned.contains(cleaned[i])) by {
                    assert(cleaned[i] == cleaned[i]);
                }
                let x = cleaned[i];
                assert(s0.contains(x) && x.user_id != user_id);
                lemma_unique_token_id(s0, x, first);
            } else {
                assert(s1[i] == fresh);
            }
        }
    }
}

/// Round trip: in the state left by issuing a token, redeeming that token id
/// before any superseding issuance and before its expiry resolves back to the
/// identity it was issued for.
pub proof fn lemma_issue_then_redeem(
    s1: Seq<RefreshToken>,
    user_id: u128,
    fresh: RefreshToken,
    cleaned: Seq<RefreshToken>,
    now: u64,
)
    requires
        token_ids_unique(s1),
        s1 == cleaned.push(fresh),
        !spec_has_token(cleaned, fresh.id),
        fresh.user_id == user_id,
        !fresh.spec_is_expired(now),
    ensures
        spec_redeem(s1, fresh.id, now) == Ok::<u128, RedeemError>(user_id),
{
    assert(spec_has_token(s1, fresh.id)) by {
        assert(s1[s1.len() - 1].id == fresh.id);
    }
    let t = spec_token_with(s1, fresh.id);
    assert(s1.contains(t)) by {
        let i = choose|i: int| 0 <= i < s1.len() && s1[i].id == fresh.id;
        assert(s1[i] == t);
    }
    assert(s1.contains(fresh)) by {
        assert(s1[s1.len() - 1] == fresh);
    }
    lemma_unique_token_id(s1, t, fresh);
}

/// Invalidation is idempotent: removing an identity's tokens twice leaves
/// the same state as removing them once.
pub proof fn lemma_invalidate_idempotent(s: Seq<RefreshToken>, user_id: u128)
    ensures
        spec_without_user(spec_without_user(s, user_id), user_id) == spec_without_user(s, user_id),
    decreases s.len(),
{
    if s.len() > 0 {
        lemma_invalidate_idempotent(s.drop_last(), user_id);
        let rest = spec_without_user(s.drop_last(), user_id);
        if s.last().user_id == user_id {
        } else {
            assert(spec_without_user(s, user_id) == rest.push(s.last()));
            assert(rest.push(s.last()).drop_last() =~= rest);
            assert(spec_without_user(rest.push(s.last()), user_id) == spec_without_user(
                rest,
                user_id,
            ).push(s.last()));
        }
    }
}

} // verus!
