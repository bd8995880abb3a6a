//! The storage-facing steps of the authentication operations: creating and
//! finding users, and the refresh-token lifecycle, each against the
//! verified store model, with storage failures mapped to the error
//! taxonomy before they cross the system boundary.
use crate::errors::{spec_extra_map, spec_status_of, spec_title_of, spec_type_of,
    spec_unauthorized_with, APIError, APIErrorBuilder, ErrorType};
use crate::models::AuthResponse;
use crate::store::{
    spec_has_email, spec_has_token, spec_has_user_id, spec_token_with, spec_user_with_email,
    spec_user_with_id,
    spec_without_user, NewUser, RefreshToken, RefreshTokenStore, User, UserStore,
};
use crate::tokens::{
    generate_auth_token, spec_signed_access_token, REFRESH_TOKEN_EXPIRY_SECS, TOKEN_EXPIRY_SECS,
};
use crate::uuid_text::{fresh_uuid, is_uuid_repr, spec_uuid_of, uuid_string};
use vstd::prelude::*;

verus! {

/// Whether `e` is the already-exists error for the attempted email: the
/// shape a registration conflict is surfaced as, never a raw storage error.
pub open spec fn spec_user_already_exists(e: APIError, email: Seq<char>) -> bool {
    &&& e.status == spec_status_of(ErrorType::UserAlreadyExists)
    &&& e.title@ == spec_title_of(ErrorType::UserAlreadyExists)
    &&& e.error_type@ == spec_type_of(ErrorType::UserAlreadyExists)
    &&& (e.detail matches Some(d) && d@ == "If you already have an account, try logging in."@)
    &&& spec_extra_map(e.extra) == Map::<Seq<char>, Seq<char>>::empty().insert("email"@, email)
}

/// Create a new user row with a freshly drawn id, the email as the unique
/// key, and the already-hashed password. A taken email is exactly the
/// already-exists error; a collision of the freshly drawn id — the only
/// other way the insert can fail — is an unknown server error. Either way
/// the store is unchanged and no raw storage error leaks.
pub fn create_new_user(users: &mut UserStore, user: NewUser, now: u64) -> (r: Result<
    User,
    APIError,
>)
    requires
        old(users).wf(),
    ensures
        final(users).wf(),
        match r {
            Ok(u) => !spec_has_email(old(users).users@, user.email@) && u.email@ == user.email@
                && u.password@ == user.password@ && u.first_name@ == user.first_name@
                && u.last_name@ == user.last_name@ && u.created_at == now && final(users).users@
                == old(users).users@.push(u) && spec_has_user_id(final(users).users@, u.id),
            Err(e) => final(users).users@ == old(users).users@ && if spec_has_email(
                old(users).users@,
                user.email@,
            ) {
                spec_user_already_exists(e, user.email@)
            } else {
                e.status == 500
            },
        },
        spec_has_email(old(users).users@, user.email@) ==> r is Err,
{
    if users.find_by_email(user.email.as_str()).is_some() {
        let email_copy = user.email;
        return Err(
            APIErrorBuilder::new(ErrorType::UserAlreadyExists).detail(
                "If you already have an account, try logging in.",
            ).with_field("email", email_copy.as_str()).build(),
        );
    }
    let id = fresh_uuid();
    match users.insert(user, id, now) {
        Ok(u) => {
            proof {
                assert(final(users).users@[final(users).users@.len() - 1] == u);
            }
            Ok(u)
        },
        Err(_) => Err(APIErrorBuilder::from_error("user id collision").build()),
    }
}

/// Look a user up by email; absence is an ordinary outcome, not an error.
pub fn find_user_by_email(users: &UserStore, email: &str) -> (r: Result<Option<User>, APIError>)
    requires
        users.wf(),
    ensures
        r matches Ok(o) && match o {
            Some(u) => spec_has_email(users.users@, email@) && u == spec_user_with_email(
                users.users@,
                email@,
            ),
            None => !spec_has_email(users.users@, email@),
        },
{
    Ok(users.find_by_email(email))
}

/// Look a user up by id; a missing row surfaces as an unknown server
/// error, since only ids the system itself issued reach this point.
pub fn find_user_by_id(users: &UserStore, id: u128) -> (r: Result<User, APIError>)
    requires
        users.wf(),
    ensures
        match r {
            Ok(u) => spec_has_user_id(users.users@, id) && u == spec_user_with_id(
                users.users@,
                id,
            ),
            Err(e) => !spec_has_user_id(users.users@, id) && e.status == 500,
        },
{
    match users.find_by_id(id) {
        Some(u) => Ok(u),
        None => Err(APIErrorBuilder::from_error("user not found").build()),
    }
}

/// Look a refresh token up by its wire form. A string that is not the text
/// form of an id is rejected as unauthorized; a well-formed id that names
/// no row is an ordinary absent outcome.
pub fn find_refresh_token(tokens: &RefreshTokenStore, refresh_token: &str) -> (r: Result<
    Option<RefreshToken>,
    APIError,
>)
    requires
        tokens.wf(),
    ensures
        match r {
            Ok(o) => (exists|m: u128| is_uuid_repr(refresh_token@, m)) && o == ({
                let tid = spec_uuid_of(refresh_token@);
                if spec_has_token(tokens.tokens@, tid) {
                    Some(spec_token_with(tokens.tokens@, tid))
                } else {
                    None
                }
            }),
            Err(e) => (forall|m: u128| !is_uuid_repr(refresh_token@, m)) && e.status == 401
                && spec_unauthorized_with(e, "The token you provided is invalid."@),
        },
{
    match crate::uuid_text::parse_uuid(refresh_token) {
        None => Err(
            APIErrorBuilder::new(ErrorType::Unauthorized).detail(
                "The token you provided is invalid.",
            ).build(),
        ),
        Some(tid) => {
            proof {
                crate::uuid_text::lemma_uuid_round_trip(
                    refresh_token@,
                    tid,
                    spec_uuid_of(refresh_token@),
                );
            }
            Ok(tokens.find(tid))
        },
    }
}

/// Delete any live refresh token of the identity; idempotent.
pub fn delete_refresh_token_if_exists(tokens: &mut RefreshTokenStore, user_id: u128) -> (r: Result<
    (),
    APIError,
>)
    requires
        old(tokens).wf(),
    ensures
        final(tokens).wf(),
        r is Ok,
        final(tokens).tokens@ == spec_without_user(old(tokens).tokens@, user_id),
{
    tokens.invalidate(user_id);
    Ok(())
}

/// Issue a fresh refresh token for the identity, superseding any live one:
/// the deletion and the insertion are sequenced as one operation against
/// the store, which is what keeps a single live token per identity.
pub fn generate_new_refresh_token(tokens: &mut RefreshTokenStore, user_id: u128, now: u64) -> (r:
    Result<RefreshToken, APIError>)
    requires
        old(tokens).wf(),
        now + REFRESH_TOKEN_EXPIRY_SECS <= u64::MAX,
    ensures
        final(tokens).wf(),
        ({
            let cleaned = spec_without_user(old(tokens).tokens@, user_id);
            match r {
                Ok(t) => t.user_id == user_id && t.created_at == now && t.expires_at == now
                    + REFRESH_TOKEN_EXPIRY_SECS && t.updated_at is None && !spec_has_token(
                    cleaned,
                    t.id,
                ) && final(tokens).tokens@ == cleaned.push(t),
                Err(e) => e.status == 500 && final(tokens).tokens@ == cleaned,
            }
        }),
{
    let tid = fresh_uuid();
    match tokens.issue(user_id, tid, now, REFRESH_TOKEN_EXPIRY_SECS) {
        Ok(t) => Ok(t),
        Err(_) => Err(APIErrorBuilder::from_error("failed to insert refresh token").build()),
    }
}

/// What a successful token issuance leaves behind: the store holds exactly
/// the rows it held minus any token of the user, plus one fresh row for the
/// user whose id the response's refresh token encodes; the access token is
/// signed for the user under the configured key.
pub open spec fn spec_tokens_issued(
    pre: Seq<RefreshToken>,
    post: Seq<RefreshToken>,
    resp: AuthResponse,
    user: User,
    private_key: Seq<char>,
    now: u64,
) -> bool {
    &&& spec_signed_access_token(resp.access_token@, user, private_key, TOKEN_EXPIRY_SECS)
    &&& post.len() > 0
    &&& post == spec_without_user(pre, user.id).push(post.last())
    &&& post.last().user_id == user.id
    &&& post.last().created_at == now
    &&& post.last().expires_at == now + REFRESH_TOKEN_EXPIRY_SECS
    &&& !spec_has_token(spec_without_user(pre, user.id), post.last().id)
    &&& is_uuid_repr(resp.refresh_token@, post.last().id)
}

/// Issue the access-token and refresh-token pair for a user: the refresh
/// token is created (superseding any live one) before the access token is
/// signed, and nothing is handed out unless both steps succeed.
pub fn generate_auth_tokens(
    tokens: &mut RefreshTokenStore,
    user: &User,
    private_key: &str,
    now: u64,
) -> (r: Result<AuthResponse, APIError>)
    requires
        old(tokens).wf(),
        now + REFRESH_TOKEN_EXPIRY_SECS <= u64::MAX,
    ensures
        final(tokens).wf(),
        match r {
            Ok(resp) => spec_tokens_issued(
                old(tokens).tokens@,
                final(tokens).tokens@,
                resp,
                *user,
                private_key@,
                now,
            ),
            Err(e) => e.status == 500 && ({
                let cleaned = spec_without_user(old(tokens).tokens@, user.id);
                ||| final(tokens).tokens@ == cleaned
                ||| (final(tokens).tokens@.len() > 0 && final(tokens).tokens@ == cleaned.push(
                    final(tokens).tokens@.last(),
                ) && final(tokens).tokens@.last().user_id == user.id)
            }),
        },
{
    let refresh = generate_new_refresh_token(tokens, user.id, now)?;
    let refresh_token = uuid_string(refresh.id);
    let access_token = generate_auth_token(user, private_key)?;
    proof {
        assert(tokens.tokens@.last() == refresh);
    }
    Ok(AuthResponse { access_token, refresh_token })
}

} // verus!
