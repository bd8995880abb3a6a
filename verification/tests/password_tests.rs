use domus_auth::password::{check_password, hash_password, verify_password};

#[test]
fn hash_then_verify_succeeds() {
    let hash = hash_password("correct horse battery staple").expect("hashing must succeed");
    assert!(verify_password("correct horse battery staple", &hash));
}

#[test]
fn verify_with_other_password_fails() {
    let hash = hash_password("password1").expect("hashing must succeed");
    assert!(!verify_password("password2", &hash));
    assert!(!verify_password("", &hash));
    assert!(!verify_password("password1 ", &hash));
}

#[test]
fn hash_is_phc_encoded_and_salted() {
    let h1 = hash_password("password1").expect("hashing must succeed");
    let h2 = hash_password("password1").expect("hashing must succeed");
    assert!(h1.starts_with("$argon2"));
    // A fresh random salt each call: two hashes of the same password differ.
    assert_ne!(h1, h2);
    // Both still verify: the hash is self-describing.
    assert!(verify_password("password1", &h1));
    assert!(verify_password("password1", &h2));
}

#[test]
fn verify_against_garbage_hash_fails() {
    assert!(!verify_password("password1", ""));
    assert!(!verify_password("password1", "not a phc string"));
}

#[test]
fn check_password_without_stored_hash_rejects() {
    assert!(!check_password("anything", None));
}

#[test]
fn dummy_credential_is_well_formed_and_verifies_nothing() {
    // The fixed credential used on the absent-identity branch of
    // check_password: it must parse as a PHC string with the default cost
    // parameters, so that branch performs a full digest computation, and
    // no password may verify against it.
    let dummy = "$argon2id$v=19$m=19456,t=2,p=1$AAAAAAAAAAAAAAAAAAAAAA$AAAAAAAAAAAAAAAAAAAAAAAAAAAAAAAAAAAAAAAAAAA";
    assert!(argon2::PasswordHash::new(dummy).is_ok());
    assert!(!verify_password("password1", dummy));
    assert!(!verify_password("", dummy));
}

#[test]
fn check_password_with_stored_hash_decides() {
    let hash = hash_password("password1").expect("hashing must succeed");
    assert!(check_password("password1", Some(&hash)));
    assert!(!check_password("password2", Some(&hash)));
}
