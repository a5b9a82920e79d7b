//! Fulfillment responses.
use vstd::prelude::*;
use crate::text::owned;

pub mod execute;
pub mod query;
pub mod sync;

verus! {

/// The payload of a response.
pub enum ResponsePayload {
    Sync(sync::Payload),
    Query(query::Payload),
    Execute(execute::Payload),
}

/// A response to a fulfillment request.
pub struct Response {
    pub request_id: String,
    pub payload: ResponsePayload,
}

impl Response {
    pub fn new(request_id: &str, payload: ResponsePayload) -> (res: Self)
        ensures
            res.request_id@ == request_id@,
            res.payload == payload,
    {
        Response { request_id: owned(request_id), payload }
    }
}

} // verus!
