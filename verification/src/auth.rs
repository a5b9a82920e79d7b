//! The user on whose behalf a fulfillment request is made, as the OpenID
//! provider's userinfo endpoint tells it.
use vstd::prelude::*;
use crate::error::{ApiError, ApiErrorJson};

verus! {

/// The user as the OpenID provider describes them.
pub struct User {
    pub preferred_username: String,
}

/// What the userinfo endpoint answered, decoded: on success a user (or why
/// the body was not one), otherwise an error answer (or why the body was not
/// one). A request that could not be made at all is given as
/// `Failed`.
pub enum UserinfoReply {
    Failed(String),
    User(Result<User, String>),
    Error(Result<ApiErrorJson, String>),
}

/// `Display` of `http::status::InvalidStatusCode`. Claimed, as its source
/// shows: the text is always "invalid status code".
#[verifier::external_body]
fn invalid_status_code_text(e: &axum::http::status::InvalidStatusCode) -> (res: String)
    ensures
        res@ == "invalid status code"@,
{
    e.to_string()
}

/// The status code of an internal server error.
pub const INTERNAL_SERVER_ERROR: u16 = 500;

impl User {
    /// The user, or the error to answer with: the provider's own error when
    /// it sent a valid one, else an internal server error whose reason is
    /// what went wrong.
    pub fn from_reply(reply: UserinfoReply) -> (res: Result<User, ApiError>)
        ensures
            match reply {
                UserinfoReply::Failed(why) => res matches Err(e) && e.wf() && e.status_code()
                    == INTERNAL_SERVER_ERROR && e.reason() == why@,
                UserinfoReply::User(Ok(u)) => res == Ok::<User, ApiError>(u),
                UserinfoReply::User(Err(why)) => res matches Err(e) && e.wf() && e.status_code()
                    == INTERNAL_SERVER_ERROR && e.reason() == why@,
                UserinfoReply::Error(Ok(j)) => res matches Err(e) && e.wf() && if 100
                    <= j.error.code <= 999 {
                    e.status_code() == j.error.code && e.reason() == j.error.reason@
                } else {
                    e.status_code() == INTERNAL_SERVER_ERROR && e.reason() == "invalid status code"@
                },
                UserinfoReply::Error(Err(why)) => res matches Err(e) && e.wf() && e.status_code()
                    == INTERNAL_SERVER_ERROR && e.reason() == why@,
            },
    {
        match reply {
            UserinfoReply::Failed(why) => Err(ApiError::new(INTERNAL_SERVER_ERROR, why)),
            UserinfoReply::User(Ok(user)) => Ok(user),
            UserinfoReply::User(Err(why)) => Err(ApiError::new(INTERNAL_SERVER_ERROR, why)),
            UserinfoReply::Error(Ok(json)) => match ApiError::try_from(json) {
                Ok(e) => Err(e),
                Err(invalid) => Err(
                    ApiError::new(INTERNAL_SERVER_ERROR, invalid_status_code_text(&invalid)),
                ),
            },
            UserinfoReply::Error(Err(why)) => Err(ApiError::new(INTERNAL_SERVER_ERROR, why)),
        }
    }
}

} // verus!
