//! Signed access tokens: claim construction, signing, and signature
//! verification, built on PASETO v4 public tokens.
//!
//! The cryptographic operations stay behind trusted wrappers; what the
//! library proves is the shape of the claims it signs and how verification
//! outcomes relate to the signing key. Validation of the claim values
//! themselves (issuer, audience, expiry) is done in verified code over the
//! extracted claims.
use crate::errors::{spec_unauthorized_with, APIError, APIErrorBuilder, ErrorType};
use crate::store::User;
use crate::uuid_text::{fresh_uuid, is_uuid_repr, uuid_string};
use pasetors::claims::{Claims, ClaimsValidationRules};
use pasetors::errors::{ClaimValidationError, Error};
use pasetors::keys::{AsymmetricKeyPair, AsymmetricPublicKey, AsymmetricSecretKey, Generate};
use pasetors::paserk::FormatAsPaserk;
use pasetors::public;
use pasetors::token::{Public, UntrustedToken};
use pasetors::version4::V4;
use vstd::prelude::*;

verus! {

/// How long an access token lives, in seconds.
pub const TOKEN_EXPIRY_SECS: u64 = 1800;

/// How long a refresh token lives, in seconds.
pub const REFRESH_TOKEN_EXPIRY_SECS: u64 = 2592000;

/// The largest token lifetime the claims builder accepts: one hundred
/// years. The claims builder adds the lifetime to the current time, and
/// this bound keeps that sum within the calendar range its RFC 3339 form
/// can carry.
pub const MAX_TOKEN_TTL_SECS: u64 = 3153600000;

#[verifier::external_type_specification]
#[verifier::external_body]
pub struct ExClaims(Claims);

/// How a failed token verification is classified.
#[derive(Clone, Copy, PartialEq, Eq, Structural, Debug)]
pub enum TokenFault {
    /// The wire format of the token, the key, or the payload is invalid.
    Malformed,
    /// The cryptographic signature does not verify under the given key.
    Untrusted,
    /// The token's signature verifies but its expiry has passed.
    Expired,
}

/// The string-valued claims held by a claims collection, by claim name.
/// Names the contents of pasetors' `Claims`.
pub uninterp spec fn claims_map(c: Claims) -> Map<Seq<char>, Seq<char>>;

/// The string-valued claims embedded in the payload of an encoded token:
/// what decoding the token's payload yields. A function of the token text
/// alone.
pub uninterp spec fn token_payload(token: Seq<char>) -> Map<Seq<char>, Seq<char>>;

/// Whether the token text is well formed and its signature verifies under
/// the public key given in paserk text form — the time-independent part of
/// verification. Names the outcome of pasetors' `public::verify`.
pub uninterp spec fn token_trusted_under(token: Seq<char>, public_key: Seq<char>) -> bool;

/// The paserk text of the public key that corresponds to a secret key given
/// in paserk text form. Names the key derivation performed inside pasetors'
/// signing path.
pub uninterp spec fn paserk_public_of(secret_key: Seq<char>) -> Seq<char>;

/// The UNIX seconds encoded by an RFC 3339 timestamp string, when it is one.
/// Names the outcome of chrono's RFC 3339 parser, a function of the string
/// alone.
pub uninterp spec fn rfc3339_seconds(s: Seq<char>) -> Option<int>;

/// The claim names that PASETO reserves for its own top-level use.
pub open spec fn is_registered_claim(name: Seq<char>) -> bool {
    ||| name == "iss"@
    ||| name == "sub"@
    ||| name == "aud"@
    ||| name == "exp"@
    ||| name == "nbf"@
    ||| name == "iat"@
    ||| name == "jti"@
}

/// Relies on chrono's `DateTime::parse_from_rfc3339`.
#[verifier::external_body]
pub fn parse_rfc3339_seconds(s: &str) -> (r: Option<i64>)
    ensures
        match r {
            Some(v) => rfc3339_seconds(s@) == Some(v as int),
            None => rfc3339_seconds(s@) is None,
        },
{
    match chrono::DateTime::parse_from_rfc3339(s) {
        Ok(d) => Some(d.timestamp()),
        Err(_) => None,
    }
}

/// Relies on pasetors' `Claims::new_expires_in`: a fresh claims collection
/// holding exactly `iat` and `nbf` at the current time and `exp` that many
/// seconds later, all as RFC 3339 strings with whole seconds. The lifetime
/// bound is needed because the builder adds the lifetime to the current
/// time with an addition that does not return on an out-of-calendar sum.
#[verifier::external_body]
fn new_claims(ttl_secs: u64) -> (r: Option<Claims>)
    requires
        ttl_secs <= MAX_TOKEN_TTL_SECS,
    ensures
        r matches Some(c) ==> ({
            let m = claims_map(c);
            &&& m.dom() =~= set!["iat"@, "nbf"@, "exp"@]
            &&& m["nbf"@] == m["iat"@]
            &&& rfc3339_seconds(m["iat"@]) matches Some(ia) && rfc3339_seconds(m["exp"@])
                matches Some(e) && e == ia + ttl_secs
        }),
{
    match Claims::new_expires_in(&core::time::Duration::from_secs(ttl_secs)) {
        Ok(c) => Some(c),
        Err(_) => None,
    }
}

/// Relies on pasetors' `Claims::issuer`: sets the `iss` claim; an empty
/// value is refused and the claims are left unchanged.
#[verifier::external_body]
fn set_issuer(c: &mut Claims, iss: &str) -> (r: Result<(), ()>)
    ensures
        iss@.len() > 0 ==> r is Ok && claims_map(*final(c)) == claims_map(*old(c)).insert(
            "iss"@,
            iss@,
        ),
        iss@.len() == 0 ==> r is Err && claims_map(*final(c)) == claims_map(*old(c)),
{
    c.issuer(iss).map_err(|_| ())
}

/// Relies on pasetors' `Claims::subject`: sets the `sub` claim; an empty
/// value is refused and the claims are left unchanged.
#[verifier::external_body]
fn set_subject(c: &mut Claims, sub: &str) -> (r: Result<(), ()>)
    ensures
        sub@.len() > 0 ==> r is Ok && claims_map(*final(c)) == claims_map(*old(c)).insert(
            "sub"@,
            sub@,
        ),
        sub@.len() == 0 ==> r is Err && claims_map(*final(c)) == claims_map(*old(c)),
{
    c.subject(sub).map_err(|_| ())
}

/// Relies on pasetors' `Claims::audience`: sets the `aud` claim; an empty
/// value is refused and the claims are left unchanged.
#[verifier::external_body]
fn set_audience(c: &mut Claims, aud: &str) -> (r: Result<(), ()>)
    ensures
        aud@.len() > 0 ==> r is Ok && claims_map(*final(c)) == claims_map(*old(c)).insert(
            "aud"@,
            aud@,
        ),
        aud@.len() == 0 ==> r is Err && claims_map(*final(c)) == claims_map(*old(c)),
{
    c.audience(aud).map_err(|_| ())
}

/// Relies on pasetors' `Claims::token_identifier`: sets the `jti` claim; an
/// empty value is refused and the claims are left unchanged.
#[verifier::external_body]
fn set_token_identifier(c: &mut Claims, jti: &str) -> (r: Result<(), ()>)
    ensures
        jti@.len() > 0 ==> r is Ok && claims_map(*final(c)) == claims_map(*old(c)).insert(
            "jti"@,
            jti@,
        ),
        jti@.len() == 0 ==> r is Err && claims_map(*final(c)) == claims_map(*old(c)),
{
    c.token_identifier(jti).map_err(|_| ())
}

/// Relies on pasetors' `Claims::add_additional`: sets a non-registered
/// claim; a registered claim name is refused and the claims are left
/// unchanged.
#[verifier::external_body]
fn add_additional_string(c: &mut Claims, name: &str, value: &str) -> (r: Result<(), ()>)
    ensures
        !is_registered_claim(name@) ==> r is Ok && claims_map(*final(c)) == claims_map(
            *old(c),
        ).insert(name@, value@),
        is_registered_claim(name@) ==> r is Err && claims_map(*final(c)) == claims_map(*old(c)),
{
    c.add_additional(name, value).map_err(|_| ())
}

/// Relies on pasetors' `Claims::get_claim` and serde_json's `Value::as_str`:
/// reads a string-valued claim back out of the collection.
#[verifier::external_body]
pub fn claim_string(c: &Claims, name: &str) -> (r: Option<String>)
    ensures
        match r {
            Some(v) => claims_map(*c).dom().contains(name@) && v@ == claims_map(*c)[name@],
            None => !claims_map(*c).dom().contains(name@),
        },
{
    match c.get_claim(name) {
        Some(v) => v.as_str().map(|s| s.to_string()),
        None => None,
    }
}

/// Relies on pasetors' `AsymmetricSecretKey::try_from` and `public::sign`:
/// signs the claims with the secret key given in paserk text form. The
/// result's payload decodes back to exactly these claims, the result
/// verifies under the matching public key, and — the unforgeability of the
/// signature scheme, taken on trust here — under no other.
#[verifier::external_body]
fn paseto_sign(secret_key: &str, claims: &Claims) -> (r: Option<String>)
    ensures
        r matches Some(t) ==> ({
            &&& token_payload(t@) == claims_map(*claims)
            &&& token_trusted_under(t@, paserk_public_of(secret_key@))
            &&& forall|pk: Seq<char>|
                pk != paserk_public_of(secret_key@) ==> !#[trigger] token_trusted_under(t@, pk)
        }),
{
    let key = match AsymmetricSecretKey::<V4>::try_from(secret_key) {
        Ok(k) => k,
        Err(_) => return None,
    };
    public::sign(&key, claims, None, None).ok()
}

/// Relies on pasetors' `AsymmetricPublicKey::try_from`,
/// `UntrustedToken::try_from` and `public::verify`: parses the token,
/// verifies its signature under the public key given in paserk text form,
/// and hands back the embedded claims. The validation rules passed along
/// check only the time claims; issuer and audience are checked by verified
/// code afterwards. An outcome other than success is classified by whether
/// the signature itself was at fault.
#[verifier::external_body]
fn paseto_verify(public_key: &str, token: &str) -> (r: Result<Claims, TokenFault>)
    ensures
        r matches Ok(c) ==> token_trusted_under(token@, public_key@) && claims_map(c)
            == token_payload(token@),
        !token_trusted_under(token@, public_key@) ==> r is Err,
{
    let key = AsymmetricPublicKey::<V4>::try_from(public_key).map_err(|_| TokenFault::Malformed)?;
    let parsed =
        UntrustedToken::<Public, V4>::try_from(token).map_err(|_| TokenFault::Malformed)?;
    match public::verify(&key, &parsed, &ClaimsValidationRules::new(), None, None) {
        Ok(tt) => tt.payload_claims().cloned().ok_or(TokenFault::Malformed),
        Err(Error::TokenValidation) => Err(TokenFault::Untrusted),
        Err(Error::ClaimValidation(ClaimValidationError::Exp)) => Err(TokenFault::Expired),
        Err(_) => Err(TokenFault::Malformed),
    }
}

/// Relies on pasetors' `AsymmetricKeyPair::<V4>::generate` and its paserk
/// rendering: a freshly drawn signing key pair, returned as paserk text; the
/// public half is the one derived from the secret half.
#[verifier::external_body]
pub fn generate_keypair() -> (r: Option<(String, String)>)
    ensures
        r matches Some(kp) ==> kp.1@ == paserk_public_of(kp.0@),
{
    let kp = match AsymmetricKeyPair::<V4>::generate() {
        Ok(k) => k,
        Err(_) => return None,
    };
    let mut secret = String::new();
    let mut public_half = String::new();
    if kp.secret.fmt(&mut secret).is_err() || kp.public.fmt(&mut public_half).is_err() {
        return None;
    }
    Some((secret, public_half))
}

/// What the payload of a well-formed access token for `user` holds, beyond
/// its time and identifier claims.
pub open spec fn spec_access_token_payload(p: Map<Seq<char>, Seq<char>>, user: User) -> bool {
    &&& p.dom().contains("iss"@) && p["iss"@] == "domus-api.jacksonc.dev"@
    &&& p.dom().contains("aud"@) && p["aud"@] == "domus.jacksonc.dev"@
    &&& p.dom().contains("sub"@) && is_uuid_repr(p["sub"@], user.id)
    &&& p.dom().contains("jti"@)
    &&& p.dom().contains("email"@) && p["email"@] == user.email@
    &&& p.dom().contains("first_name"@) && p["first_name"@] == user.first_name@
    &&& p.dom().contains("last_name"@) && p["last_name"@] == user.last_name@
}

/// What a signing operation guarantees of its result: the payload carries
/// the user's claims, the expiry lies `ttl_secs` after issuance, and the
/// token verifies under exactly the public key matching the signing key.
pub open spec fn spec_signed_access_token(
    t: Seq<char>,
    user: User,
    private_key: Seq<char>,
    ttl_secs: u64,
) -> bool {
    &&& spec_access_token_payload(token_payload(t), user)
    &&& token_payload(t).dom().contains("exp"@)
    &&& token_payload(t).dom().contains("iat"@)
    &&& rfc3339_seconds(token_payload(t)["iat"@]) matches Some(ia) && rfc3339_seconds(
        token_payload(t)["exp"@],
    ) matches Some(e) && e == ia + ttl_secs
    &&& token_trusted_under(t, paserk_public_of(private_key))
    &&& forall|pk: Seq<char>|
        pk != paserk_public_of(private_key) ==> !#[trigger] token_trusted_under(t, pk)
}

/// Build and sign an access token for `user` that expires `ttl_secs` after
/// issuance: fixed issuer and audience, subject the user's id in text form,
/// a fresh token identifier, and the user's profile claims.
pub fn generate_auth_token_with_expiry(user: &User, private_key: &str, ttl_secs: u64) -> (r: Result<
    String,
    APIError,
>)
    requires
        ttl_secs <= MAX_TOKEN_TTL_SECS,
    ensures
        r matches Ok(t) ==> spec_signed_access_token(t@, *user, private_key@, ttl_secs),
        r matches Err(e) ==> e.status == 500,
{
    proof {
        reveal_strlit("iss");
        reveal_strlit("sub");
        reveal_strlit("aud");
        reveal_strlit("exp");
        reveal_strlit("nbf");
        reveal_strlit("iat");
        reveal_strlit("jti");
        reveal_strlit("email");
        reveal_strlit("first_name");
        reveal_strlit("last_name");
        reveal_strlit("domus-api.jacksonc.dev");
        reveal_strlit("domus.jacksonc.dev");
    }
    let mut claims = match new_claims(ttl_secs) {
        Some(c) => c,
        None => {
            return Err(APIErrorBuilder::from_error("failed to build claims").build());
        },
    };
    if set_issuer(&mut claims, "domus-api.jacksonc.dev").is_err() {
        return Err(APIErrorBuilder::from_error("failed to build claims").build());
    }
    let sub = uuid_string(user.id);
    if set_subject(&mut claims, sub.as_str()).is_err() {
        return Err(APIErrorBuilder::from_error("failed to build claims").build());
    }
    if set_audience(&mut claims, "domus.jacksonc.dev").is_err() {
        return Err(APIErrorBuilder::from_error("failed to build claims").build());
    }
    let jti = uuid_string(fresh_uuid());
    if set_token_identifier(&mut claims, jti.as_str()).is_err() {
        return Err(APIErrorBuilder::from_error("failed to build claims").build());
    }
    if add_additional_string(&mut claims, "email", user.email.as_str()).is_err() {
        return Err(APIErrorBuilder::from_error("failed to build claims").build());
    }
    if add_additional_string(&mut claims, "first_name", user.first_name.as_str()).is_err() {
        return Err(APIErrorBuilder::from_error("failed to build claims").build());
    }
    if add_additional_string(&mut claims, "last_name", user.last_name.as_str()).is_err() {
        return Err(APIErrorBuilder::from_error("failed to build claims").build());
    }
    proof {
        let m = claims_map(claims);
        // The revealed literal views are pinned apart through their
        // characters, so each insert above left the other claims in place.
        assert("iss"@[0] == 'i' && "sub"@[0] == 's' && "aud"@[0] == 'a' && "jti"@[0] == 'j');
        assert("exp"@[0] == 'e' && "nbf"@[0] == 'n' && "iat"@[1] == 'a' && "iss"@[1] == 's');
        assert("email"@.len() == 5 && "first_name"@.len() == 10 && "last_name"@.len() == 9);
        assert("iss"@ != "sub"@ && "iss"@ != "aud"@ && "iss"@ != "jti"@);
        assert(!is_registered_claim("email"@));
        assert(!is_registered_claim("first_name"@));
        assert(!is_registered_claim("last_name"@));
        assert(m.dom().contains("iss"@) && m["iss"@] == "domus-api.jacksonc.dev"@);
        assert(m.dom().contains("aud"@) && m["aud"@] == "domus.jacksonc.dev"@);
        assert(m.dom().contains("sub"@) && is_uuid_repr(m["sub"@], user.id));
        assert(m.dom().contains("jti"@));
        assert(m.dom().contains("email"@) && m["email"@] == user.email@);
        assert(m.dom().contains("first_name"@) && m["first_name"@] == user.first_name@);
        assert(m.dom().contains("last_name"@) && m["last_name"@] == user.last_name@);
        assert(m.dom().contains("exp"@) && m.dom().contains("iat"@));
        assert(rfc3339_seconds(m["iat"@]) matches Some(ia) && rfc3339_seconds(m["exp"@])
            matches Some(e) && e == ia + ttl_secs);
    }
    match paseto_sign(private_key, &claims) {
        Some(t) => Ok(t),
        None => Err(APIErrorBuilder::from_error("failed to sign token").build()),
    }
}

/// Build and sign an access token for `user` with the fixed lifetime.
pub fn generate_auth_token(user: &User, private_key: &str) -> (r: Result<String, APIError>)
    ensures
        r matches Ok(t) ==> spec_signed_access_token(t@, *user, private_key@, TOKEN_EXPIRY_SECS),
        r matches Err(e) ==> e.status == 500,
{
    generate_auth_token_with_expiry(user, private_key, TOKEN_EXPIRY_SECS)
}

/// A token signed under one key pair is trusted under no other public
/// key: any verification of it against a different key is refused.
pub proof fn lemma_foreign_key_refused(
    t: Seq<char>,
    user: User,
    private_key: Seq<char>,
    ttl_secs: u64,
    other_public_key: Seq<char>,
)
    requires
        spec_signed_access_token(t, user, private_key, ttl_secs),
        other_public_key != paserk_public_of(private_key),
    ensures
        !token_trusted_under(t, other_public_key),
{
}

/// Verify the signature of an incoming token against the public key and
/// hand back its claims; any failure is a single unauthorized outcome that
/// does not say which step failed.
pub fn validate_token(token: &str, public_key: &str) -> (r: Result<Claims, APIError>)
    ensures
        r matches Ok(c) ==> token_trusted_under(token@, public_key@) && claims_map(c)
            == token_payload(token@),
        !token_trusted_under(token@, public_key@) ==> r is Err,
        r matches Err(e) ==> e.status == 401 && spec_unauthorized_with(
            e,
            "The token you provided is not trusted."@,
        ),
{
    match paseto_verify(public_key, token) {
        Ok(c) => Ok(c),
        Err(_) => Err(
            APIErrorBuilder::new(ErrorType::Unauthorized).detail(
                "The token you provided is not trusted.",
            ).build(),
        ),
    }
}

} // verus!
