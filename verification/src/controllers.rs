//! The user-facing authentication operations: register, login, refresh,
//! logout and profile lookup, composed from the hasher, the token signer
//! and the stores. Each returns a status code with its payload, or one
//! error of the taxonomy.
use crate::auth_utils::{
    create_new_user, delete_refresh_token_if_exists, find_refresh_token, find_user_by_email,
    find_user_by_id, generate_auth_tokens, spec_tokens_issued, spec_user_already_exists,
};
use crate::config::Settings;
use crate::errors::{
    spec_detail_of, spec_extra_map, spec_status_of, spec_title_of, spec_type_of,
    spec_unauthorized_with, APIError, APIErrorBuilder, ErrorType,
};
use crate::friendly_id::{spec_friendly_id, ItemIdType, ToFriendlyId};
use crate::middleware::CurrentUser;
use crate::models::{
    AuthResponse, LoginUserRequest, RefreshTokenRequest, RegisterNewUserRequest, UserResponse,
};
use crate::password::{check_password, hash_password, password_matches};
use crate::store::{
    spec_has_email, spec_has_user_id, spec_redeem, spec_user_with_email, spec_user_with_id,
    spec_without_user, NewUser, RefreshTokenStore, UserStore,
};
use crate::tokens::REFRESH_TOKEN_EXPIRY_SECS;
use crate::uuid_text::{is_uuid_repr, spec_uuid_of};
use vstd::prelude::*;

verus! {

/// The process-wide state: the immutable configuration and the two stores.
pub struct AppStateInternal {
    pub settings: Settings,
    pub users: UserStore,
    pub refresh_tokens: RefreshTokenStore,
}

impl AppStateInternal {
    /// Both stores are well formed.
    pub open spec fn wf(&self) -> bool {
        self.users.wf() && self.refresh_tokens.wf()
    }

    /// A fresh state around the given configuration, with empty stores.
    pub fn new(settings: Settings) -> (r: Self)
        ensures
            r.wf(),
            r.settings == settings,
            r.users.users@.len() == 0,
            r.refresh_tokens.tokens@.len() == 0,
    {
        AppStateInternal { settings, users: UserStore::new(), refresh_tokens: RefreshTokenStore::new() }
    }
}

/// Whether `e` is the one credential-rejection error that login returns
/// for the attempted email: the same kind, detail and fields whether the
/// email was unknown or the password wrong, so that the response reveals
/// neither.
pub open spec fn spec_login_rejected(e: APIError, email: Seq<char>) -> bool {
    &&& e.status == spec_status_of(ErrorType::LoginIncorrect)
    &&& e.title@ == spec_title_of(ErrorType::LoginIncorrect)
    &&& e.error_type@ == spec_type_of(ErrorType::LoginIncorrect)
    &&& (e.detail matches Some(d) && Some(d@) == spec_detail_of(ErrorType::LoginIncorrect))
    &&& spec_extra_map(e.extra) == Map::<Seq<char>, Seq<char>>::empty().insert("email"@, email)
}

/// Register a new user: hash the password, persist the identity — a
/// uniqueness violation surfaces as the already-exists error, never a raw
/// storage error — and on success issue the token pair.
///
/// On success the created row carries exactly the request's profile
/// fields, the given password and no other verifies against its stored
/// hash, and the access token's subject is the new identity's id.
pub fn register(state: &mut AppStateInternal, payload: RegisterNewUserRequest, now: u64) -> (r:
    Result<(u16, AuthResponse), APIError>)
    requires
        old(state).wf(),
        now + REFRESH_TOKEN_EXPIRY_SECS <= u64::MAX,
    ensures
        final(state).wf(),
        final(state).settings == old(state).settings,
        match r {
            Ok((st, resp)) => ({
                let created = final(state).users.users@.last();
                &&& st == 201
                &&& !spec_has_email(old(state).users.users@, payload.email@)
                &&& final(state).users.users@ == old(state).users.users@.push(created)
                &&& created.email@ == payload.email@
                &&& created.first_name@ == payload.first_name@
                &&& created.last_name@ == payload.last_name@
                &&& created.created_at == now
                &&& password_matches(payload.password@, created.password@)
                &&& (forall|p2: Seq<char>|
                    p2 != payload.password@ ==> !#[trigger] password_matches(p2, created.password@))
                &&& spec_tokens_issued(
                    old(state).refresh_tokens.tokens@,
                    final(state).refresh_tokens.tokens@,
                    resp,
                    created,
                    old(state).settings.auth.private_key@,
                    now,
                )
            }),
            Err(e) => (e.status == 409 || e.status == 500) && final(state).users.users@ == old(state).users.users@
                && final(state).refresh_tokens.tokens@ == old(state).refresh_tokens.tokens@,
        },
        spec_has_email(old(state).users.users@, payload.email@) ==> (r matches Err(e) && (
        spec_user_already_exists(e, payload.email@) || e.status == 500)),
        !spec_has_email(old(state).users.users@, payload.email@) ==> (r is Ok || (r matches Err(e)
            && e.status == 500)),
{
    let hashed_password = hash_password(payload.password.as_str())?;
    let user = create_new_user(
        &mut state.users,
        NewUser {
            email: payload.email,
            first_name: payload.first_name,
            last_name: payload.last_name,
            password: hashed_password,
        },
        now,
    )?;
    let rows_before = state.refresh_tokens.snapshot_rows();
    let tokens = generate_auth_tokens(
        &mut state.refresh_tokens,
        &user,
        state.settings.auth.private_key.as_str(),
        now,
    );
    match tokens {
        Ok(t) => Ok((201, t)),
        Err(e) => {
            // Nothing is handed out unless both the identity and the token
            // pair exist; the partially created user row and any partially
            // issued refresh row are rolled back, so a failed registration
            // leaves no trace in either store.
            state.users.users.pop();
            state.refresh_tokens = RefreshTokenStore { tokens: rows_before };
            proof {
                assert(state.users.users@ =~= old(state).users.users@);
            }
            Err(e)
        },
    }
}

/// Log in with an email and password.
///
/// The identity is looked up by email; the password is verified against
/// the stored hash when the identity exists and against a fixed dummy
/// credential of the same cost otherwise, so that the two rejections are
/// the same error in kind, detail and fields — and, by the full digest
/// computation in both branches, alike in latency. On success a fresh
/// token pair is issued, superseding any live refresh token of the
/// identity.
pub fn login(state: &mut AppStateInternal, payload: LoginUserRequest, now: u64) -> (r: Result<
    (u16, AuthResponse),
    APIError,
>)
    requires
        old(state).wf(),
        now + REFRESH_TOKEN_EXPIRY_SECS <= u64::MAX,
    ensures
        final(state).wf(),
        final(state).settings == old(state).settings,
        final(state).users == old(state).users,
        match r {
            Ok((st, resp)) => ({
                let u = spec_user_with_email(old(state).users.users@, payload.email@);
                &&& st == 200
                &&& spec_has_email(old(state).users.users@, payload.email@)
                &&& password_matches(payload.password@, u.password@)
                &&& spec_tokens_issued(
                    old(state).refresh_tokens.tokens@,
                    final(state).refresh_tokens.tokens@,
                    resp,
                    u,
                    old(state).settings.auth.private_key@,
                    now,
                )
            }),
            Err(e) => e.status == 401 || e.status == 500,
        },
        !spec_has_email(old(state).users.users@, payload.email@) ==> (r matches Err(e)
            && spec_login_rejected(e, payload.email@) && final(state).refresh_tokens.tokens@
            == old(state).refresh_tokens.tokens@),
        spec_has_email(old(state).users.users@, payload.email@) && !password_matches(
            payload.password@,
            spec_user_with_email(old(state).users.users@, payload.email@).password@,
        ) ==> (r matches Err(e) && spec_login_rejected(e, payload.email@) && final(state).refresh_tokens.tokens@ == old(state).refresh_tokens.tokens@),
        (spec_has_email(old(state).users.users@, payload.email@) && password_matches(
            payload.password@,
            spec_user_with_email(old(state).users.users@, payload.email@).password@,
        )) ==> (r is Ok || (r matches Err(e) && e.status == 500)),
{
    let user = find_user_by_email(&state.users, payload.email.as_str())?;
    let stored_hash: Option<&str> = match user {
        Some(ref u) => Some(u.password.as_str()),
        None => None,
    };
    // The dummy verification on the absent branch happens inside
    // check_password: an explicit branch, never an early return.
    let password_ok = check_password(payload.password.as_str(), stored_hash);
    if !password_ok {
        return Err(
            APIErrorBuilder::new(ErrorType::LoginIncorrect).with_field(
                "email",
                payload.email.as_str(),
            ).build(),
        );
    }
    let user = match user {
        Some(u) => u,
        None => {
            return Err(APIErrorBuilder::new(ErrorType::Unknown).build());
        },
    };
    let tokens = generate_auth_tokens(
        &mut state.refresh_tokens,
        &user,
        state.settings.auth.private_key.as_str(),
        now,
    )?;
    Ok((200, tokens))
}

/// Redeem a refresh token for a fresh token pair.
///
/// An unparsable, unknown or expired token is one unauthorized outcome and
/// leaves every store unchanged: no token is issued, and the identity's
/// live-token row stays as it was. On success the redeemed token is
/// superseded by the newly issued one.
pub fn refresh_token(state: &mut AppStateInternal, payload: RefreshTokenRequest, now: u64) -> (r:
    Result<(u16, AuthResponse), APIError>)
    requires
        old(state).wf(),
        now + REFRESH_TOKEN_EXPIRY_SECS <= u64::MAX,
    ensures
        final(state).wf(),
        final(state).settings == old(state).settings,
        final(state).users == old(state).users,
        (forall|m: u128| !is_uuid_repr(payload.refresh_token@, m)) ==> (r matches Err(e)
            && spec_unauthorized_with(e, "The token you provided is invalid."@) && final(state).refresh_tokens.tokens@ == old(state).refresh_tokens.tokens@),
        ((exists|m: u128| is_uuid_repr(payload.refresh_token@, m)) && spec_redeem(
            old(state).refresh_tokens.tokens@,
            spec_uuid_of(payload.refresh_token@),
            now,
        ) is Err) ==> (r matches Err(e) && spec_unauthorized_with(
            e,
            "The token you provided is expired."@,
        ) && final(state).refresh_tokens.tokens@ == old(state).refresh_tokens.tokens@),
        ((exists|m: u128| is_uuid_repr(payload.refresh_token@, m)) && (spec_redeem(
            old(state).refresh_tokens.tokens@,
            spec_uuid_of(payload.refresh_token@),
            now,
        ) matches Ok(uid) && spec_has_user_id(old(state).users.users@, uid))) ==> (r is Ok || (
        r matches Err(e) && e.status == 500)),
        match r {
            Ok((st, resp)) => ({
                let tid = spec_uuid_of(payload.refresh_token@);
                &&& st == 200
                &&& (exists|m: u128| is_uuid_repr(payload.refresh_token@, m))
                &&& spec_redeem(old(state).refresh_tokens.tokens@, tid, now) matches Ok(uid)
                    && spec_has_user_id(old(state).users.users@, uid) && spec_tokens_issued(
                    old(state).refresh_tokens.tokens@,
                    final(state).refresh_tokens.tokens@,
                    resp,
                    spec_user_with_id(old(state).users.users@, uid),
                    old(state).settings.auth.private_key@,
                    now,
                )
            }),
            Err(e) => e.status == 401 || e.status == 500,
        },
{
    let token_opt = find_refresh_token(&state.refresh_tokens, payload.refresh_token.as_str())?;
    let token = match token_opt {
        Some(t) => {
            if t.is_expired(now) {
                return Err(
                    APIErrorBuilder::new(ErrorType::Unauthorized).detail(
                        "The token you provided is expired.",
                    ).build(),
                );
            }
            t
        },
        None => {
            return Err(
                APIErrorBuilder::new(ErrorType::Unauthorized).detail(
                    "The token you provided is expired.",
                ).build(),
            );
        },
    };
    let user = find_user_by_id(&state.users, token.user_id)?;
    let tokens = generate_auth_tokens(
        &mut state.refresh_tokens,
        &user,
        state.settings.auth.private_key.as_str(),
        now,
    )?;
    Ok((200, tokens))
}

/// Log the authenticated user out by invalidating their live refresh
/// token; succeeds even when none existed. The access token itself cannot
/// be revoked before its expiry.
pub fn delete_refresh_token(state: &mut AppStateInternal, user: &CurrentUser) -> (r: Result<
    u16,
    APIError,
>)
    requires
        old(state).wf(),
    ensures
        final(state).wf(),
        final(state).settings == old(state).settings,
        final(state).users == old(state).users,
        r matches Ok(st) && st == 204,
        final(state).refresh_tokens.tokens@ == spec_without_user(
            old(state).refresh_tokens.tokens@,
            user.id,
        ),
{
    delete_refresh_token_if_exists(&mut state.refresh_tokens, user.id)?;
    Ok(204)
}

/// The profile of the authenticated identity, with its id in friendly
/// form. No store lookup: everything comes from the verified token.
pub fn get_user(current_user: CurrentUser) -> (r: Result<(u16, UserResponse), APIError>)
    ensures
        r matches Ok((st, resp)) && st == 200 && resp.id@ == spec_friendly_id(
            current_user.id,
            ItemIdType::User,
        ) && resp.email@ == current_user.email@ && resp.first_name@ == current_user.first_name@
            && resp.last_name@ == current_user.last_name@,
{
    let response = UserResponse {
        id: current_user.id.to_friendly_id(ItemIdType::User),
        email: current_user.email,
        first_name: current_user.first_name,
        last_name: current_user.last_name,
    };
    Ok((200, response))
}

} // verus!
