use domus_auth::store::{NewUser, RedeemError, RefreshTokenStore, UserStore};

fn new_user(email: &str) -> NewUser {
    NewUser {
        email: email.to_string(),
        first_name: "John".to_string(),
        last_name: "Smith".to_string(),
        password: "$argon2id$stub".to_string(),
    }
}

#[test]
fn user_insert_and_find() {
    let mut users = UserStore::new();
    let u = users.insert(new_user("a@x.com"), 7, 100).expect("insert must succeed");
    assert_eq!(u.id, 7);
    assert_eq!(u.email, "a@x.com");
    assert_eq!(u.created_at, 100);
    let found = users.find_by_email("a@x.com").expect("must be found");
    assert_eq!(found.id, 7);
    let by_id = users.find_by_id(7).expect("must be found");
    assert_eq!(by_id.email, "a@x.com");
    assert!(users.find_by_email("b@x.com").is_none());
    assert!(users.find_by_id(8).is_none());
}

#[test]
fn user_insert_duplicate_email_fails() {
    let mut users = UserStore::new();
    users.insert(new_user("a@x.com"), 1, 100).expect("insert must succeed");
    assert!(users.insert(new_user("a@x.com"), 2, 100).is_err());
    assert_eq!(users.users.len(), 1);
}

#[test]
fn user_insert_duplicate_id_fails() {
    let mut users = UserStore::new();
    users.insert(new_user("a@x.com"), 1, 100).expect("insert must succeed");
    assert!(users.insert(new_user("b@x.com"), 1, 100).is_err());
    assert_eq!(users.users.len(), 1);
}

#[test]
fn issue_then_redeem_resolves_identity() {
    let mut tokens = RefreshTokenStore::new();
    let t = tokens.issue(42, 7, 1000, 3600).expect("issue must succeed");
    assert_eq!(t.user_id, 42);
    assert_eq!(t.expires_at, 4600);
    assert_eq!(tokens.redeem(7, 2000), Ok(42));
}

#[test]
fn second_issue_invalidates_first() {
    let mut tokens = RefreshTokenStore::new();
    let first = tokens.issue(42, 7, 1000, 3600).expect("issue must succeed");
    let second = tokens.issue(42, 8, 1001, 3600).expect("issue must succeed");
    assert_ne!(first.id, second.id);
    // Redeeming the superseded token reports it as not found.
    assert_eq!(tokens.redeem(first.id, 1002), Err(RedeemError::TokenNotFound));
    assert_eq!(tokens.redeem(second.id, 1002), Ok(42));
    assert_eq!(tokens.tokens.len(), 1);
}

#[test]
fn redeem_unknown_token_not_found() {
    let tokens = RefreshTokenStore::new();
    assert_eq!(tokens.redeem(7, 0), Err(RedeemError::TokenNotFound));
}

#[test]
fn redeem_expired_token_reports_expiry() {
    let mut tokens = RefreshTokenStore::new();
    tokens.issue(42, 7, 1000, 3600).expect("issue must succeed");
    assert_eq!(tokens.redeem(7, 4600), Ok(42));
    assert_eq!(tokens.redeem(7, 4601), Err(RedeemError::TokenExpired));
    // The expired row is checked, not deleted.
    assert_eq!(tokens.tokens.len(), 1);
}

#[test]
fn invalidate_is_idempotent() {
    let mut tokens = RefreshTokenStore::new();
    tokens.issue(42, 7, 1000, 3600).expect("issue must succeed");
    tokens.issue(43, 8, 1000, 3600).expect("issue must succeed");
    tokens.invalidate(42);
    assert_eq!(tokens.tokens.len(), 1);
    tokens.invalidate(42);
    assert_eq!(tokens.tokens.len(), 1);
    assert_eq!(tokens.redeem(8, 1001), Ok(43));
}

#[test]
fn issue_collision_keeps_single_owner_policy() {
    let mut tokens = RefreshTokenStore::new();
    tokens.issue(42, 7, 1000, 3600).expect("issue must succeed");
    // Another identity cannot reuse a live token id.
    assert!(tokens.issue(43, 7, 1000, 3600).is_err());
    // The same identity can: its own token is superseded first.
    let t = tokens.issue(42, 7, 2000, 3600).expect("issue must succeed");
    assert_eq!(t.expires_at, 5600);
}
