//! Middleware stages.
//!
//! A stage transforms the request on the way in and the response on the
//! way out; the asynchronous edge composes stages and performs the
//! upstream call between the two legs. The caching stage lives in the
//! cache module; here stands the stage that does nothing.

use vstd::prelude::*;

use crate::req::{Request, Response};

verus! {

/// The stage that does nothing: both legs pass their value through
/// unchanged.
pub struct Identity;

impl Identity {
    /// The request leg: the request passes unchanged.
    pub fn process_request(&self, request: Request) -> (r: Request)
        ensures
            r == request,
    {
        request
    }

    /// The response leg: the response passes unchanged.
    pub fn process_response(&self, response: Response) -> (r: Response)
        ensures
            r == response,
    {
        response
    }
}

} // verus!
