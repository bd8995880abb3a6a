use domus_auth::middleware::{check_claims, get_claim, get_token, get_user_details, get_user_id};
use domus_auth::strutil::{str_eq, strip_prefix};
use domus_auth::tokens::{generate_keypair, validate_token};
use domus_auth::uuid_text::uuid_string;
use domus_auth::store::User;

fn signed_token_for(user: &User) -> (String, String) {
    let (private_key, public_key) = generate_keypair().expect("key generation must succeed");
    let token = domus_auth::tokens::generate_auth_token(user, &private_key)
        .expect("signing must succeed");
    (token, public_key)
}

fn sample_user() -> User {
    User {
        id: 7,
        email: "a@x.com".to_string(),
        password: "$argon2id$stub".to_string(),
        first_name: "A".to_string(),
        last_name: "B".to_string(),
        created_at: 0,
        updated_at: None,
    }
}

#[test]
fn str_eq_compares_by_characters() {
    assert!(str_eq("", ""));
    assert!(str_eq("abc", "abc"));
    assert!(!str_eq("abc", "abd"));
    assert!(!str_eq("abc", "abcd"));
    assert!(str_eq("héllo", "héllo"));
}

#[test]
fn strip_prefix_splits_exactly() {
    assert_eq!(strip_prefix("Bearer abc", "Bearer "), Some("abc".to_string()));
    assert_eq!(strip_prefix("Bearer ", "Bearer "), Some("".to_string()));
    assert_eq!(strip_prefix("bearer abc", "Bearer "), None);
    assert_eq!(strip_prefix("Bear", "Bearer "), None);
}

#[test]
fn get_token_requires_the_bearer_scheme() {
    assert_eq!(get_token(Some("Bearer abc")).expect("must extract"), "abc");
    assert_eq!(get_token(None).expect_err("must refuse").status, 401);
    assert_eq!(get_token(Some("Token abc")).expect_err("must refuse").status, 401);
}

#[test]
fn claims_resolve_to_the_signed_identity() {
    let user = sample_user();
    let (token, public_key) = signed_token_for(&user);
    let claims = validate_token(&token, &public_key).expect("the token must verify");

    assert_eq!(get_claim(&claims, "sub").expect("sub must be present"), uuid_string(user.id));
    assert_eq!(get_claim(&claims, "email").expect("email must be present"), "a@x.com");
    assert_eq!(get_claim(&claims, "no_such_claim").expect_err("must refuse").status, 401);
    assert_eq!(get_user_id(&claims).expect("the subject must parse"), user.id);

    let details = get_user_details(&claims).expect("the details must resolve");
    assert_eq!(details.id, user.id);
    assert_eq!(details.email, "a@x.com");
    assert_eq!(details.first_name, "A");
    assert_eq!(details.last_name, "B");
}

#[test]
fn claim_window_is_checked_against_the_supplied_clock() {
    let user = sample_user();
    let (token, public_key) = signed_token_for(&user);
    let claims = validate_token(&token, &public_key).expect("the token must verify");
    let now = std::time::SystemTime::now()
        .duration_since(std::time::UNIX_EPOCH)
        .expect("the clock reads after the epoch")
        .as_secs();
    assert!(check_claims(&claims, now).is_ok());
    // At a reading past the recorded expiry the same claims are refused.
    let past_expiry = now + domus_auth::tokens::TOKEN_EXPIRY_SECS + 1;
    assert_eq!(check_claims(&claims, past_expiry).expect_err("must refuse").status, 401);
}
