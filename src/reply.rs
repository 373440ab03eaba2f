use crate::errors::{ServiceError, StoreError, UserError};
use vstd::prelude::*;

verus! {

/// What the HTTP boundary sends back: a status code, a plain-text body, and
/// the target of a redirect.
pub struct Reply {
    pub status: u16,
    pub body: String,
    pub location: Option<String>,
}

/// The status of a permanent redirect.
pub const MOVED_PERMANENTLY: u16 = 301;

pub open spec fn error_status(e: ServiceError) -> u16 {
    match e {
        ServiceError::User(UserError::NotFound) => 404,
        ServiceError::User(UserError::InvalidUrl) => 400,
        ServiceError::Database(StoreError::Unavailable) => 503,
        ServiceError::Database(StoreError::Rejected) => 500,
        ServiceError::Server => 500,
    }
}

pub open spec fn error_body(e: ServiceError) -> Seq<char> {
    match e {
        ServiceError::User(UserError::NotFound) => "This link isn't registered"@,
        ServiceError::User(UserError::InvalidUrl) => "This is not a valid Url!"@,
        ServiceError::Database(StoreError::Unavailable) => "The database is currently offline"@,
        _ => "An unknown error ocurred on the server"@,
    }
}

/// The reply to a failed request.
pub fn error_reply(e: ServiceError) -> (r: Reply)
    ensures
        r.status == error_status(e),
        r.body@ == error_body(e),
        r.location is None,
{
    let (status, body): (u16, &str) = match e {
        ServiceError::User(UserError::NotFound) => (404, "This link isn't registered"),
        ServiceError::User(UserError::InvalidUrl) => (400, "This is not a valid Url!"),
        ServiceError::Database(StoreError::Unavailable) => (503, "The database is currently offline"),
        ServiceError::Database(StoreError::Rejected) => (500, "An unknown error ocurred on the server"),
        ServiceError::Server => (500, "An unknown error ocurred on the server"),
    };
    Reply { status, body: body.to_owned(), location: None }
}

/// The reply to `GET /{alias}`: a permanent redirect to the target URL, or the
/// failure's status and text.
pub fn get_url_reply(found: Result<String, ServiceError>) -> (r: Reply)
    ensures
        found matches Ok(link) ==> {
            &&& r.status == MOVED_PERMANENTLY
            &&& r.location matches Some(l) && l@ == link@
            &&& r.body@.len() == 0
        },
        found matches Err(e) ==> r.status == error_status(e) && r.body@ == error_body(e)
            && r.location is None,
{
    match found {
        Ok(link) => Reply { status: MOVED_PERMANENTLY, body: String::new(), location: Some(link) },
        Err(e) => error_reply(e),
    }
}

/// The reply to `POST /shorten-url`: the alias as plain text, or the failure's
/// status and text.
pub fn shorten_reply(outcome: Result<String, ServiceError>) -> (r: Reply)
    ensures
        outcome matches Ok(alias) ==> r.status == 200 && r.body@ == alias@ && r.location is None,
        outcome matches Err(e) ==> r.status == error_status(e) && r.body@ == error_body(e)
            && r.location is None,
{
    match outcome {
        Ok(alias) => Reply { status: 200, body: alias, location: None },
        Err(e) => error_reply(e),
    }
}

} // verus!
