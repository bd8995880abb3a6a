//! The error taxonomy of the authentication core, and the RFC 9457 style
//! problem-details value that crosses the system boundary.
//!
//! Internal causes are attached as extra fields and never replace the
//! user-safe title/detail of the error kind.
use vstd::prelude::*;

verus! {

/// The closed set of error kinds that the authentication core can surface.
#[derive(Clone, Copy, PartialEq, Eq, Structural, Debug)]
pub enum ErrorType {
    Unknown,
    ValidationError,
    UserAlreadyExists,
    LoginIncorrect,
    Unauthorized,
    Forbidden,
}

/// The problem-type URI of each error kind.
pub open spec fn spec_type_of(e: ErrorType) -> Seq<char> {
    match e {
        ErrorType::Unknown => "about:blank"@,
        ErrorType::ValidationError => "tag:domus@jacksonc.dev,2023:errors/validation-error"@,
        ErrorType::UserAlreadyExists => "tag:domus@jacksonc.dev,2023:errors/user-already-exists"@,
        ErrorType::LoginIncorrect => "tag:domus@jacksonc.dev,2023:errors/login-incorrect"@,
        ErrorType::Unauthorized => "tag:domus@jacksonc.dev,2023:errors/unauthorized"@,
        ErrorType::Forbidden => "tag:domus@jacksonc.dev,2023:errors/forbidden"@,
    }
}

/// The HTTP status class of each error kind.
pub open spec fn spec_status_of(e: ErrorType) -> u16 {
    match e {
        ErrorType::Unknown => 500,
        ErrorType::ValidationError => 400,
        ErrorType::UserAlreadyExists => 409,
        ErrorType::LoginIncorrect => 401,
        ErrorType::Unauthorized => 401,
        ErrorType::Forbidden => 403,
    }
}

/// The human-readable summary of each error kind.
pub open spec fn spec_title_of(e: ErrorType) -> Seq<char> {
    match e {
        ErrorType::Unknown => "An unknown error has occurred."@,
        ErrorType::ValidationError => "Your request is not valid."@,
        ErrorType::UserAlreadyExists => "A user with that email already exists."@,
        ErrorType::LoginIncorrect => "Login Incorrect."@,
        ErrorType::Unauthorized => "You have not been authorized to perform this action."@,
        ErrorType::Forbidden => "You are not allowed to perform this action."@,
    }
}

/// The default user-safe detail of each error kind, if it has one.
pub open spec fn spec_detail_of(e: ErrorType) -> Option<Seq<char>> {
    match e {
        ErrorType::LoginIncorrect => Some(
            "The email or password you entered is incorrect. Please check your credentials and try again."@,
        ),
        _ => None,
    }
}

impl ErrorType {
    pub fn get_type(&self) -> (r: &'static str)
        ensures
            r@ == spec_type_of(*self),
    {
        match self {
            ErrorType::Unknown => "about:blank",
            ErrorType::ValidationError => "tag:domus@jacksonc.dev,2023:errors/validation-error",
            ErrorType::UserAlreadyExists => "tag:domus@jacksonc.dev,2023:errors/user-already-exists",
            ErrorType::LoginIncorrect => "tag:domus@jacksonc.dev,2023:errors/login-incorrect",
            ErrorType::Unauthorized => "tag:domus@jacksonc.dev,2023:errors/unauthorized",
            ErrorType::Forbidden => "tag:domus@jacksonc.dev,2023:errors/forbidden",
        }
    }

    pub fn get_title(&self) -> (r: String)
        ensures
            r@ == spec_title_of(*self),
    {
        match self {
            ErrorType::Unknown => "An unknown error has occurred.".to_owned(),
            ErrorType::ValidationError => "Your request is not valid.".to_owned(),
            ErrorType::UserAlreadyExists => "A user with that email already exists.".to_owned(),
            ErrorType::LoginIncorrect => "Login Incorrect.".to_owned(),
            ErrorType::Unauthorized => "You have not been authorized to perform this action.".to_owned(),
            ErrorType::Forbidden => "You are not allowed to perform this action.".to_owned(),
        }
    }

    pub fn get_status(&self) -> (r: u16)
        ensures
            r == spec_status_of(*self),
    {
        match self {
            ErrorType::Unknown => 500,
            ErrorType::ValidationError => 400,
            ErrorType::UserAlreadyExists => 409,
            ErrorType::LoginIncorrect => 401,
            ErrorType::Unauthorized => 401,
            ErrorType::Forbidden => 403,
        }
    }

    pub fn get_detail(&self) -> (r: Option<&'static str>)
        ensures
            match r {
                Some(d) => spec_detail_of(*self) == Some(d@),
                None => spec_detail_of(*self) is None,
            },
    {
        match self {
            ErrorType::LoginIncorrect => Some(
                "The email or password you entered is incorrect. Please check your credentials and try again.",
            ),
            _ => None,
        }
    }
}

/// Whether `e` is the unauthorized error carrying the given user-safe
/// detail: the one client-facing shape of every authentication failure.
pub open spec fn spec_unauthorized_with(e: APIError, detail: Seq<char>) -> bool {
    &&& e.status == spec_status_of(ErrorType::Unauthorized)
    &&& e.title@ == spec_title_of(ErrorType::Unauthorized)
    &&& e.error_type@ == spec_type_of(ErrorType::Unauthorized)
    &&& (e.detail matches Some(d) && d@ == detail)
}

/// The map read out of a list of extra fields; a later entry with the same
/// key supersedes an earlier one.
pub open spec fn kv_map(s: Seq<(String, String)>) -> Map<Seq<char>, Seq<char>>
    decreases s.len(),
{
    if s.len() == 0 {
        Map::empty()
    } else {
        kv_map(s.drop_last()).insert(s.last().0@, s.last().1@)
    }
}

/// An RFC 9457 style problem-details error response.
#[derive(Debug)]
pub struct APIError {
    /// A URI reference that identifies the problem type.
    pub error_type: String,
    /// The HTTP status code of this occurrence of the problem.
    pub status: u16,
    /// A short, human-readable summary of the problem type.
    pub title: String,
    /// A human-readable explanation specific to this occurrence.
    pub detail: Option<String>,
    /// A URI reference that identifies the specific occurrence.
    pub instance: Option<String>,
    /// Additional problem-type specific members.
    pub extra: Option<Vec<(String, String)>>,
}

/// Builds an RFC 9457 style problem-details error response.
pub struct APIErrorBuilder {
    pub error_type: ErrorType,
    pub detail: Option<String>,
    pub instance: Option<String>,
    pub extra: Option<Vec<(String, String)>>,
}

/// The extra fields of a builder, as a map.
pub open spec fn spec_extra_map(extra: Option<Vec<(String, String)>>) -> Map<Seq<char>, Seq<char>> {
    match extra {
        None => Map::empty(),
        Some(v) => kv_map(v@),
    }
}

impl APIErrorBuilder {
    /// Create a new builder with the given error kind and nothing else set.
    pub fn new(error: ErrorType) -> (r: Self)
        ensures
            r.error_type == error,
            r.detail is None,
            r.instance is None,
            r.extra is None,
    {
        APIErrorBuilder { error_type: error, detail: None, instance: None, extra: None }
    }

    /// Create a builder for an unknown error caused by `error`.
    pub fn from_error(error: &str) -> (r: Self)
        ensures
            r.error_type == ErrorType::Unknown,
            r.detail is None,
            r.instance is None,
            spec_extra_map(r.extra) == Map::<Seq<char>, Seq<char>>::empty().insert("cause"@, error@),
    {
        Self::new(ErrorType::Unknown).cause(error)
    }

    /// Attach the internal cause of the error as an extra field.
    pub fn cause(self, error: &str) -> (r: Self)
        ensures
            r.error_type == self.error_type,
            r.detail == self.detail,
            r.instance == self.instance,
            spec_extra_map(r.extra) == spec_extra_map(self.extra).insert("cause"@, error@),
    {
        self.with_field("cause", error)
    }

    /// Set the user-safe detail of the error.
    pub fn detail(self, detail: &str) -> (r: Self)
        ensures
            r.error_type == self.error_type,
            r.detail matches Some(d) && d@ == detail@,
            r.instance == self.instance,
            r.extra == self.extra,
    {
        APIErrorBuilder { detail: Some(detail.to_owned()), ..self }
    }

    /// Set the instance URI of the error.
    pub fn instance(self, instance: String) -> (r: Self)
        ensures
            r.error_type == self.error_type,
            r.detail == self.detail,
            r.instance == Some(instance),
            r.extra == self.extra,
    {
        APIErrorBuilder { instance: Some(instance), ..self }
    }

    /// Add an additional field to the error; it supersedes an earlier field
    /// with the same name.
    pub fn with_field(self, field: &str, value: &str) -> (r: Self)
        ensures
            r.error_type == self.error_type,
            r.detail == self.detail,
            r.instance == self.instance,
            spec_extra_map(r.extra) == spec_extra_map(self.extra).insert(field@, value@),
    {
        let mut extra = match self.extra {
            Some(v) => v,
            None => Vec::new(),
        };
        let ghost before = extra@;
        extra.push((field.to_owned(), value.to_owned()));
        proof {
            assert(extra@.drop_last() =~= before);
            assert(kv_map(extra@) == kv_map(before).insert(field@, value@));
            assert(kv_map(before) =~= spec_extra_map(self.extra)) by {
                if self.extra is None {
                    reveal_with_fuel(kv_map, 1);
                }
            }
        }
        APIErrorBuilder { extra: Some(extra), ..self }
    }

    /// Finish the builder: the status, title and type come from the error
    /// kind; a detail set on the builder wins over the kind's default.
    pub fn build(self) -> (r: APIError)
        ensures
            r.status == spec_status_of(self.error_type),
            r.title@ == spec_title_of(self.error_type),
            r.error_type@ == spec_type_of(self.error_type),
            match self.detail {
                Some(d) => r.detail matches Some(rd) && rd@ == d@,
                None => match spec_detail_of(self.error_type) {
                    Some(d) => r.detail matches Some(rd) && rd@ == d,
                    None => r.detail is None,
                },
            },
            r.instance == self.instance,
            spec_extra_map(r.extra) == spec_extra_map(self.extra),
    {
        let detail: Option<String> = match self.detail {
            Some(d) => Some(d),
            None => match self.error_type.get_detail() {
                Some(d) => Some(d.to_owned()),
                None => None,
            },
        };
        APIError {
            status: self.error_type.get_status(),
            title: self.error_type.get_title(),
            detail,
            instance: self.instance,
            extra: self.extra,
            error_type: self.error_type.get_type().to_owned(),
        }
    }
}

impl Default for APIErrorBuilder {
    /// The default builder carries the unknown error kind.
    fn default() -> (r: Self)
        ensures
            r.error_type == ErrorType::Unknown,
            r.detail is None,
            r.instance is None,
            r.extra is None,
    {
        Self::new(ErrorType::Unknown)
    }
}

} // verus!
