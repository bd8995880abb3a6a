//! Request authentication: extract the bearer credential from the
//! authorization header, verify it, validate its claims, and resolve the
//! identity it proves.
//!
//! No store lookup happens on this path: an access token's validity is
//! re-derived entirely from its signature and claims. Every failure is the
//! same unauthorized outcome; the client is not told which step failed.
use crate::errors::{spec_unauthorized_with, APIError, APIErrorBuilder, ErrorType};
use crate::strutil::{spec_has_prefix, str_eq, strip_prefix};
use crate::tokens::{
    claim_string, claims_map, parse_rfc3339_seconds, rfc3339_seconds, token_payload,
    token_trusted_under, validate_token,
};
use crate::uuid_text::{is_uuid_repr, parse_uuid};
use pasetors::claims::Claims;
use vstd::prelude::*;

verus! {

/// The identity and profile a verified access token proves.
#[derive(Debug)]
pub struct CurrentUser {
    pub id: u128,
    pub email: String,
    pub first_name: String,
    pub last_name: String,
}

impl Clone for CurrentUser {
    fn clone(&self) -> (r: Self)
        ensures
            r == *self,
    {
        CurrentUser {
            id: self.id,
            email: self.email.clone(),
            first_name: self.first_name.clone(),
            last_name: self.last_name.clone(),
        }
    }
}

/// The unauthorized error used when no usable bearer token is present.
fn missing_token_error() -> (r: APIError)
    ensures
        r.status == 401,
        spec_unauthorized_with(r, "You are not logged in. Please provide a token."@),
{
    APIErrorBuilder::new(ErrorType::Unauthorized).detail(
        "You are not logged in. Please provide a token.",
    ).build()
}

/// The unauthorized error used when the token itself is rejected — by its
/// signature, its issuer or audience, or its validity window. One message
/// for all of them, so the client cannot tell a forged token from an
/// expired one.
fn untrusted_token_error() -> (r: APIError)
    ensures
        r.status == 401,
        spec_unauthorized_with(r, "The token you provided is not trusted."@),
{
    APIErrorBuilder::new(ErrorType::Unauthorized).detail(
        "The token you provided is not trusted.",
    ).build()
}

/// The unauthorized error used when the token's claims are unusable.
fn invalid_token_error() -> (r: APIError)
    ensures
        r.status == 401,
        spec_unauthorized_with(r, "The token you provided is invalid."@),
{
    APIErrorBuilder::new(ErrorType::Unauthorized).detail(
        "The token you provided is invalid.",
    ).build()
}

/// Extract the bearer token from the authorization header value, if the
/// header is present and carries the bearer scheme.
pub fn get_token(authorization: Option<&str>) -> (r: Result<String, APIError>)
    ensures
        match r {
            Ok(t) => authorization matches Some(h) && spec_has_prefix(h@, "Bearer "@) && t@
                == h@.skip("Bearer "@.len() as int),
            Err(e) => e.status == 401 && spec_unauthorized_with(
                e,
                "You are not logged in. Please provide a token."@,
            ) && match authorization {
                Some(h) => !spec_has_prefix(h@, "Bearer "@),
                None => true,
            },
        },
{
    match authorization {
        None => Err(missing_token_error()),
        Some(h) => match strip_prefix(h, "Bearer ") {
            Some(t) => Ok(t),
            None => Err(missing_token_error()),
        },
    }
}

/// Read a required string claim out of the claims collection.
pub fn get_claim(claims: &Claims, claim_name: &str) -> (r: Result<String, APIError>)
    ensures
        match r {
            Ok(v) => claims_map(*claims).dom().contains(claim_name@) && v@ == claims_map(
                *claims,
            )[claim_name@],
            Err(e) => e.status == 401 && spec_unauthorized_with(
                e,
                "The token you provided is invalid."@,
            ) && !claims_map(*claims).dom().contains(claim_name@),
        },
{
    match claim_string(claims, claim_name) {
        Some(v) => Ok(v),
        None => Err(invalid_token_error()),
    }
}

/// Read the subject claim and parse it as an identity id.
pub fn get_user_id(claims: &Claims) -> (r: Result<u128, APIError>)
    ensures
        match r {
            Ok(id) => claims_map(*claims).dom().contains("sub"@) && is_uuid_repr(
                claims_map(*claims)["sub"@],
                id,
            ),
            Err(e) => e.status == 401 && spec_unauthorized_with(
                e,
                "The token you provided is invalid."@,
            ) && (!claims_map(*claims).dom().contains("sub"@) || (forall|id: u128|
                !is_uuid_repr(claims_map(*claims)["sub"@], id))),
        },
{
    let sub_claim = get_claim(claims, "sub")?;
    match parse_uuid(sub_claim.as_str()) {
        Some(id) => Ok(id),
        None => Err(invalid_token_error()),
    }
}

/// What the resolved identity of a verified claims collection looks like:
/// each field is read out of the corresponding claim.
pub open spec fn spec_user_details(m: Map<Seq<char>, Seq<char>>, u: CurrentUser) -> bool {
    &&& m.dom().contains("sub"@) && is_uuid_repr(m["sub"@], u.id)
    &&& m.dom().contains("email"@) && u.email@ == m["email"@]
    &&& m.dom().contains("first_name"@) && u.first_name@ == m["first_name"@]
    &&& m.dom().contains("last_name"@) && u.last_name@ == m["last_name"@]
}

/// Resolve the identity carried by a verified claims collection: the
/// outcome is success exactly when every required claim is present and the
/// subject parses as an id; anything less is one unauthorized outcome.
pub fn get_user_details(claims: &Claims) -> (r: Result<CurrentUser, APIError>)
    ensures
        match r {
            Ok(u) => spec_user_details(claims_map(*claims), u),
            Err(e) => e.status == 401 && spec_unauthorized_with(
                e,
                "The token you provided is invalid."@,
            ) && !({
                let m = claims_map(*claims);
                &&& m.dom().contains("sub"@)
                &&& m.dom().contains("email"@)
                &&& m.dom().contains("first_name"@)
                &&& m.dom().contains("last_name"@)
                &&& (exists|id: u128| is_uuid_repr(m["sub"@], id))
            }),
        },
{
    let id = get_user_id(claims)?;
    let email = get_claim(claims, "email")?;
    let first_name = get_claim(claims, "first_name")?;
    let last_name = get_claim(claims, "last_name")?;
    Ok(CurrentUser { id, email, first_name, last_name })
}

/// Whether the claims name this process's fixed issuer and audience and are
/// within their validity window at time `now`: issued no later than `now`
/// and expiring strictly after it.
pub open spec fn spec_claims_currently_valid(m: Map<Seq<char>, Seq<char>>, now: u64) -> bool {
    &&& m.dom().contains("iss"@) && m["iss"@] == "domus-api.jacksonc.dev"@
    &&& m.dom().contains("aud"@) && m["aud"@] == "domus.jacksonc.dev"@
    &&& m.dom().contains("iat"@)
    &&& (rfc3339_seconds(m["iat"@]) matches Some(ia) && ia <= now)
    &&& m.dom().contains("exp"@)
    &&& (rfc3339_seconds(m["exp"@]) matches Some(e) && now < e)
}

/// Check issuer, audience and the validity window of a claims collection
/// against the clock reading `now`. Fails exactly when some check does not
/// hold, with the same client-facing message as a signature failure: the
/// response does not say whether the signature, the issuer, the audience
/// or the window was at fault.
pub fn check_claims(claims: &Claims, now: u64) -> (r: Result<(), APIError>)
    ensures
        match r {
            Ok(_) => spec_claims_currently_valid(claims_map(*claims), now),
            Err(e) => e.status == 401 && spec_unauthorized_with(
                e,
                "The token you provided is not trusted."@,
            ) && !spec_claims_currently_valid(claims_map(*claims), now),
        },
{
    let iss = match claim_string(claims, "iss") {
        Some(v) => v,
        None => return Err(untrusted_token_error()),
    };
    if !str_eq(iss.as_str(), "domus-api.jacksonc.dev") {
        return Err(untrusted_token_error());
    }
    let aud = match claim_string(claims, "aud") {
        Some(v) => v,
        None => return Err(untrusted_token_error()),
    };
    if !str_eq(aud.as_str(), "domus.jacksonc.dev") {
        return Err(untrusted_token_error());
    }
    let iat = match claim_string(claims, "iat") {
        Some(v) => v,
        None => return Err(untrusted_token_error()),
    };
    let iat_secs = match parse_rfc3339_seconds(iat.as_str()) {
        Some(v) => v,
        None => return Err(untrusted_token_error()),
    };
    let exp = match claim_string(claims, "exp") {
        Some(v) => v,
        None => return Err(untrusted_token_error()),
    };
    let exp_secs = match parse_rfc3339_seconds(exp.as_str()) {
        Some(v) => v,
        None => return Err(untrusted_token_error()),
    };
    if !(iat_secs as i128 <= now as i128 && (now as i128) < exp_secs as i128) {
        return Err(untrusted_token_error());
    }
    Ok(())
}

/// Authenticate a request from its authorization header at clock reading
/// `now`: extract the bearer token, verify its signature against the public
/// key, check issuer, audience and the validity window, and resolve the
/// identity. On success the resolved identity is exactly what the token's
/// payload carries; a token whose recorded expiry is not after `now` is
/// rejected even when its signature is correct.
pub fn authenticate(authorization: Option<&str>, public_key: &str, now: u64) -> (r: Result<
    CurrentUser,
    APIError,
>)
    ensures
        r matches Ok(u) ==> authorization matches Some(h) && spec_has_prefix(h@, "Bearer "@) && ({
            let t = h@.skip("Bearer "@.len() as int);
            &&& token_trusted_under(t, public_key@)
            &&& spec_user_details(token_payload(t), u)
            &&& spec_claims_currently_valid(token_payload(t), now)
        }),
        r matches Err(e) ==> e.status == 401 && e.title@ == crate::errors::spec_title_of(
            ErrorType::Unauthorized,
        ) && e.error_type@ == crate::errors::spec_type_of(ErrorType::Unauthorized) && e.detail
            is Some,
        authorization matches Some(h) && spec_has_prefix(h@, "Bearer "@) && !spec_claims_currently_valid(
            token_payload(h@.skip("Bearer "@.len() as int)),
            now,
        ) ==> r is Err,
{
    let token = get_token(authorization)?;
    let claims = validate_token(token.as_str(), public_key)?;
    check_claims(&claims, now)?;
    get_user_details(&claims)
}

} // verus!
