use vstd::prelude::*;

verus! {

/// A failure that the caller of the service caused.
#[derive(Debug, Clone, Copy, PartialEq, Eq, Structural)]
pub enum UserError {
    /// The alias is not in the table.
    NotFound,
    /// The submitted text is not a well-formed URL.
    InvalidUrl,
}

/// A failure of the storage backend.
#[derive(Debug, Clone, Copy, PartialEq, Eq, Structural)]
pub enum StoreError {
    /// No connection to the backend could be had.
    Unavailable,
    /// The backend refused the statement (a duplicate alias, a missing table, ...).
    Rejected,
}

/// Every failure of the service, one variant per kind of cause.
#[derive(Debug, Clone, Copy, PartialEq, Eq, Structural)]
pub enum ServiceError {
    Database(StoreError),
    /// A failure of the HTTP layer itself.
    Server,
    User(UserError),
}

pub open spec fn user_error_text(e: UserError) -> Seq<char> {
    match e {
        UserError::NotFound => "This shortened link doesn't exist!"@,
        UserError::InvalidUrl => "This is not a valid Url!"@,
    }
}

pub open spec fn service_error_text(e: ServiceError) -> Seq<char> {
    match e {
        ServiceError::Database(_) => "Database error"@,
        ServiceError::Server => "Server error"@,
        ServiceError::User(u) => user_error_text(u),
    }
}

impl UserError {
    /// The human-readable text of the error.
    pub fn message(&self) -> (r: String)
        ensures
            r@ == user_error_text(*self),
    {
        match self {
            UserError::NotFound => "This shortened link doesn't exist!".to_owned(),
            UserError::InvalidUrl => "This is not a valid Url!".to_owned(),
        }
    }
}

impl ServiceError {
    /// The human-readable text of the error.
    pub fn message(&self) -> (r: String)
        ensures
            r@ == service_error_text(*self),
    {
        match self {
            ServiceError::Database(_) => "Database error".to_owned(),
            ServiceError::Server => "Server error".to_owned(),
            ServiceError::User(u) => u.message(),
        }
    }
}

} // verus!
