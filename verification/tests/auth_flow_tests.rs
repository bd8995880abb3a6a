use domus_auth::config::{Auth, Database, Server, Settings};
use domus_auth::controllers::{
    delete_refresh_token, get_user, login, refresh_token, register, AppStateInternal,
};
use domus_auth::middleware::authenticate;
use domus_auth::models::{LoginUserRequest, RefreshTokenRequest, RegisterNewUserRequest};
use domus_auth::tokens::{
    claim_string, generate_auth_token_with_expiry, generate_keypair, parse_rfc3339_seconds,
    validate_token, REFRESH_TOKEN_EXPIRY_SECS, TOKEN_EXPIRY_SECS,
};
use domus_auth::uuid_text::parse_uuid;

fn unix_now() -> u64 {
    std::time::SystemTime::now()
        .duration_since(std::time::UNIX_EPOCH)
        .expect("the clock reads after the epoch")
        .as_secs()
}

fn fresh_state() -> AppStateInternal {
    let (private_key, public_key) = generate_keypair().expect("key generation must succeed");
    AppStateInternal::new(Settings {
        server: Server { host: "127.0.0.1:3000".to_string() },
        database: Database { url: "postgres://localhost/app".to_string(), max_pool_size: 4 },
        auth: Auth { private_key, public_key },
    })
}

fn register_request(email: &str, password: &str) -> RegisterNewUserRequest {
    RegisterNewUserRequest {
        email: email.to_string(),
        first_name: "A".to_string(),
        last_name: "B".to_string(),
        password: password.to_string(),
    }
}

#[test]
fn register_issues_verifiable_token_for_new_identity() {
    let mut state = fresh_state();
    let now = unix_now();
    let (status, tokens) = register(&mut state, register_request("a@x.com", "password1"), now)
        .expect("registration must succeed");
    assert_eq!(status, 201);

    // The access token verifies against the public key and its subject is
    // the new identity's id.
    let header = format!("Bearer {}", tokens.access_token);
    let public_key = state.settings.auth.public_key.clone();
    let current = authenticate(Some(&header), &public_key, unix_now())
        .expect("the fresh token must authenticate");
    let stored = state.users.find_by_email("a@x.com").expect("the identity must exist");
    assert_eq!(current.id, stored.id);
    assert_eq!(current.email, "a@x.com");
    assert_eq!(current.first_name, "A");
    assert_eq!(current.last_name, "B");

    // The refresh token is the text form of a live row for that identity.
    let rid = parse_uuid(&tokens.refresh_token).expect("the refresh token must parse");
    assert_eq!(state.refresh_tokens.redeem(rid, unix_now()), Ok(stored.id));
}

#[test]
fn register_same_email_again_conflicts() {
    let mut state = fresh_state();
    let now = unix_now();
    register(&mut state, register_request("a@x.com", "password1"), now)
        .expect("registration must succeed");
    let err = register(&mut state, register_request("a@x.com", "password2"), now)
        .expect_err("the duplicate email must be refused");
    assert_eq!(err.status, 409);
    assert_eq!(err.title, "A user with that email already exists.");
    assert_eq!(err.error_type, "tag:domus@jacksonc.dev,2023:errors/user-already-exists");
    assert_eq!(err.detail.as_deref(), Some("If you already have an account, try logging in."));
    let extra = err.extra.expect("the attempted email must be attached");
    assert!(extra.iter().any(|(k, v)| k == "email" && v == "a@x.com"));
    // No new identity was created.
    assert_eq!(state.users.users.len(), 1);
}

#[test]
fn login_with_correct_credentials_issues_tokens() {
    let mut state = fresh_state();
    let now = unix_now();
    register(&mut state, register_request("a@x.com", "password1"), now)
        .expect("registration must succeed");
    let (status, tokens) = login(
        &mut state,
        LoginUserRequest { email: "a@x.com".to_string(), password: "password1".to_string() },
        now,
    )
        .expect("login must succeed");
    assert_eq!(status, 200);

    // The access token verifies against the public key; issuer and audience
    // are the configured constants.
    let claims = validate_token(&tokens.access_token, &state.settings.auth.public_key)
        .expect("the token must verify");
    assert_eq!(claim_string(&claims, "iss").as_deref(), Some("domus-api.jacksonc.dev"));
    assert_eq!(claim_string(&claims, "aud").as_deref(), Some("domus.jacksonc.dev"));

    // Expiry is the configured lifetime from now, within a few seconds.
    let exp = claim_string(&claims, "exp").expect("the token must carry an expiry");
    let exp_secs = parse_rfc3339_seconds(&exp).expect("the expiry must parse") as i128;
    let offset = exp_secs - unix_now() as i128 - TOKEN_EXPIRY_SECS as i128;
    assert!(-10 <= offset && offset <= 10, "expiry is off by {offset} seconds");
}

#[test]
fn login_failures_are_indistinguishable_in_kind() {
    let mut state = fresh_state();
    let now = unix_now();
    register(&mut state, register_request("a@x.com", "password1"), now)
        .expect("registration must succeed");

    let unknown_email = login(
        &mut state,
        LoginUserRequest { email: "b@x.com".to_string(), password: "password1".to_string() },
        now,
    )
        .expect_err("an unknown email must be refused");
    let wrong_password = login(
        &mut state,
        LoginUserRequest { email: "a@x.com".to_string(), password: "password2".to_string() },
        now,
    )
        .expect_err("a wrong password must be refused");

    assert_eq!(unknown_email.status, 401);
    assert_eq!(unknown_email.status, wrong_password.status);
    assert_eq!(unknown_email.title, wrong_password.title);
    assert_eq!(unknown_email.error_type, wrong_password.error_type);
    assert_eq!(unknown_email.title, "Login Incorrect.");
}

#[test]
fn token_signed_with_other_key_pair_is_untrusted() {
    let mut state = fresh_state();
    let now = unix_now();
    let (_, tokens) = register(&mut state, register_request("a@x.com", "password1"), now)
        .expect("registration must succeed");

    let (_, other_public_key) = generate_keypair().expect("key generation must succeed");
    let err = validate_token(&tokens.access_token, &other_public_key)
        .expect_err("a foreign public key must not verify the token");
    assert_eq!(err.status, 401);

    let header = format!("Bearer {}", tokens.access_token);
    assert!(authenticate(Some(&header), &other_public_key, unix_now()).is_err());
    // The same token still verifies under the right key.
    assert!(authenticate(Some(&header), &state.settings.auth.public_key, unix_now()).is_ok());
}

#[test]
fn token_past_its_expiry_is_rejected_despite_valid_signature() {
    let mut state = fresh_state();
    let now = unix_now();
    register(&mut state, register_request("a@x.com", "password1"), now)
        .expect("registration must succeed");
    let user = state.users.find_by_email("a@x.com").expect("the identity must exist");
    let token = generate_auth_token_with_expiry(&user, &state.settings.auth.private_key, 60)
        .expect("signing must succeed");
    let header = format!("Bearer {}", token);
    let public_key = &state.settings.auth.public_key;
    // Before the expiry the token authenticates; at a clock reading past the
    // recorded expiry it is rejected, though the signature is still correct.
    assert!(authenticate(Some(&header), public_key, unix_now()).is_ok());
    assert!(authenticate(Some(&header), public_key, unix_now() + 61).is_err());
}

#[test]
fn forged_and_expired_tokens_read_alike() {
    let mut state = fresh_state();
    let now = unix_now();
    register(&mut state, register_request("a@x.com", "password1"), now)
        .expect("registration must succeed");
    let user = state.users.find_by_email("a@x.com").expect("the identity must exist");
    let token = generate_auth_token_with_expiry(&user, &state.settings.auth.private_key, 60)
        .expect("signing must succeed");
    let header = format!("Bearer {}", token);

    let (_, other_public_key) = generate_keypair().expect("key generation must succeed");
    let forged = authenticate(Some(&header), &other_public_key, unix_now())
        .expect_err("a foreign key must not verify the token");
    let expired = authenticate(Some(&header), &state.settings.auth.public_key, unix_now() + 61)
        .expect_err("a past-expiry reading must be refused");

    // The client-facing message does not say whether the signature or the
    // validity window was at fault.
    assert_eq!(forged.status, expired.status);
    assert_eq!(forged.title, expired.title);
    assert_eq!(forged.error_type, expired.error_type);
    assert_eq!(forged.detail, expired.detail);
    assert_eq!(forged.detail.as_deref(), Some("The token you provided is not trusted."));
}

#[test]
fn refresh_rotates_the_token() {
    let mut state = fresh_state();
    let now = unix_now();
    let (_, tokens) = register(&mut state, register_request("a@x.com", "password1"), now)
        .expect("registration must succeed");
    let (status, new_tokens) = refresh_token(
        &mut state,
        RefreshTokenRequest { refresh_token: tokens.refresh_token.clone() },
        now,
    )
        .expect("the refresh must succeed");
    assert_eq!(status, 200);
    assert_ne!(tokens.refresh_token, new_tokens.refresh_token);
    // The redeemed token was superseded by the new issuance.
    let old_id = parse_uuid(&tokens.refresh_token).expect("the old token must parse");
    assert!(state.refresh_tokens.redeem(old_id, now).is_err());
    let new_id = parse_uuid(&new_tokens.refresh_token).expect("the new token must parse");
    assert!(state.refresh_tokens.redeem(new_id, now).is_ok());
}

#[test]
fn refresh_with_expired_token_is_unauthorized_and_changes_nothing() {
    let mut state = fresh_state();
    let issued_at: u64 = 1000;
    let (_, tokens) = register(&mut state, register_request("a@x.com", "password1"), issued_at)
        .expect("registration must succeed");
    let rows_before = state.refresh_tokens.tokens.clone();

    let err = refresh_token(
        &mut state,
        RefreshTokenRequest { refresh_token: tokens.refresh_token.clone() },
        issued_at + REFRESH_TOKEN_EXPIRY_SECS + 1,
    )
        .expect_err("an expired refresh token must be refused");
    assert_eq!(err.status, 401);
    assert_eq!(err.error_type, "tag:domus@jacksonc.dev,2023:errors/unauthorized");
    // No new tokens were issued; the identity's live-token row is unchanged.
    assert_eq!(state.refresh_tokens.tokens.len(), rows_before.len());
    assert_eq!(state.refresh_tokens.tokens[0].id, rows_before[0].id);
    assert_eq!(state.refresh_tokens.tokens[0].user_id, rows_before[0].user_id);
    assert_eq!(state.refresh_tokens.tokens[0].expires_at, rows_before[0].expires_at);
}

#[test]
fn refresh_with_garbage_token_is_unauthorized() {
    let mut state = fresh_state();
    let err = refresh_token(
        &mut state,
        RefreshTokenRequest { refresh_token: "not-a-token".to_string() },
        unix_now(),
    )
        .expect_err("an unparsable refresh token must be refused");
    assert_eq!(err.status, 401);
}

#[test]
fn logout_invalidates_the_refresh_token() {
    let mut state = fresh_state();
    let now = unix_now();
    let (_, tokens) = register(&mut state, register_request("a@x.com", "password1"), now)
        .expect("registration must succeed");
    let header = format!("Bearer {}", tokens.access_token);
    let public_key = state.settings.auth.public_key.clone();
    let current =
        authenticate(Some(&header), &public_key, unix_now()).expect("must authenticate");

    let status = delete_refresh_token(&mut state, &current).expect("logout must succeed");
    assert_eq!(status, 204);
    let rid = parse_uuid(&tokens.refresh_token).expect("the refresh token must parse");
    assert!(state.refresh_tokens.redeem(rid, now).is_err());
    // Logging out again still succeeds: invalidation is idempotent.
    let again = delete_refresh_token(&mut state, &current).expect("logout must stay idempotent");
    assert_eq!(again, 204);
}

#[test]
fn login_supersedes_previous_refresh_token() {
    let mut state = fresh_state();
    let now = unix_now();
    let (_, first) = register(&mut state, register_request("a@x.com", "password1"), now)
        .expect("registration must succeed");
    let (_, second) = login(
        &mut state,
        LoginUserRequest { email: "a@x.com".to_string(), password: "password1".to_string() },
        now,
    )
        .expect("login must succeed");
    let first_id = parse_uuid(&first.refresh_token).expect("must parse");
    let second_id = parse_uuid(&second.refresh_token).expect("must parse");
    assert!(state.refresh_tokens.redeem(first_id, now).is_err());
    assert!(state.refresh_tokens.redeem(second_id, now).is_ok());
}

#[test]
fn get_user_returns_friendly_profile() {
    let mut state = fresh_state();
    let now = unix_now();
    let (_, tokens) = register(&mut state, register_request("a@x.com", "password1"), now)
        .expect("registration must succeed");
    let header = format!("Bearer {}", tokens.access_token);
    let public_key = state.settings.auth.public_key.clone();
    let current =
        authenticate(Some(&header), &public_key, unix_now()).expect("must authenticate");
    let (status, profile) = get_user(current).expect("the profile lookup must succeed");
    assert_eq!(status, 200);
    assert!(profile.id.starts_with("user|"));
    assert_eq!(profile.email, "a@x.com");
    assert_eq!(profile.first_name, "A");
    assert_eq!(profile.last_name, "B");
}

#[test]
fn authenticate_requires_bearer_header() {
    let state = fresh_state();
    let public_key = &state.settings.auth.public_key;
    let now = unix_now();
    assert!(authenticate(None, public_key, now).is_err());
    assert!(authenticate(Some("nonsense"), public_key, now).is_err());
    assert!(authenticate(Some("Basic dXNlcjpwdw=="), public_key, now).is_err());
    assert!(authenticate(Some("Bearer not-a-real-token"), public_key, now).is_err());
}
