//! The request and response shapes of the authentication operations, and
//! the older response taxonomy kept for compatibility.
use crate::friendly_id::{spec_friendly_id, ItemIdType, ToFriendlyId};
use crate::store::User;
use vstd::prelude::*;

verus! {

/// A request to register a new user.
pub struct RegisterNewUserRequest {
    pub email: String,
    pub first_name: String,
    pub last_name: String,
    pub password: String,
}

/// A request to log in with existing credentials.
pub struct LoginUserRequest {
    pub email: String,
    pub password: String,
}

/// A request to redeem a refresh token.
pub struct RefreshTokenRequest {
    pub refresh_token: String,
}

/// The profile data returned for the authenticated user.
pub struct UserResponse {
    pub id: String,
    pub email: String,
    pub first_name: String,
    pub last_name: String,
}

impl UserResponse {
    /// The response for a stored user row: the id in its friendly form, the
    /// profile fields as stored.
    pub fn from(user: User) -> (r: Self)
        ensures
            r.id@ == spec_friendly_id(user.id, ItemIdType::User),
            r.email@ == user.email@,
            r.first_name@ == user.first_name@,
            r.last_name@ == user.last_name@,
    {
        UserResponse {
            id: user.id.to_friendly_id(ItemIdType::User),
            email: user.email,
            first_name: user.first_name,
            last_name: user.last_name,
        }
    }
}

/// The token pair handed out by a successful register, login or refresh.
#[derive(Debug)]
pub struct AuthResponse {
    pub access_token: String,
    pub refresh_token: String,
}

/// A request to register a new user (earlier request shape).
pub struct RegisterNewUser {
    pub email: String,
    pub first_name: String,
    pub last_name: String,
    pub password: String,
}

/// A request to log in (earlier request shape).
pub struct LoginUser {
    pub email: String,
    pub password: String,
}

/// The body of an error response (earlier response shape).
pub struct ErrorAPIResponse {
    pub message: String,
}

/// The earlier closed set of error kinds.
#[derive(Clone, Copy, PartialEq, Eq, Structural, Debug)]
pub enum APIErrorType {
    UnknownServerError,
    JsonClientError,
    DbError,
    ValidationFailure,
    Unauthorised,
}

/// The description of each of the earlier error kinds.
pub open spec fn spec_api_error_description(e: APIErrorType) -> Seq<char> {
    match e {
        APIErrorType::DbError => "database error"@,
        APIErrorType::ValidationFailure => "validation failure"@,
        _ => "unknown server error"@,
    }
}

impl APIErrorType {
    /// The human-readable description of this error kind.
    pub fn description(&self) -> (r: String)
        ensures
            r@ == spec_api_error_description(*self),
    {
        match self {
            APIErrorType::DbError => "database error".to_owned(),
            APIErrorType::ValidationFailure => "validation failure".to_owned(),
            _ => "unknown server error".to_owned(),
        }
    }
}

} // verus!
