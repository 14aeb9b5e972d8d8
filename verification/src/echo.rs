//! The plain echo diagnostic service: its response body is the request body,
//! unchanged.
use vstd::prelude::*;

verus! {

/// The echo diagnostic application.
pub struct HttpEchoApp;

impl HttpEchoApp {
    /// The echoed response body: exactly the bytes that were received.
    pub fn response_body(&self, body: Vec<u8>) -> (r: Vec<u8>)
        ensures
            r@ == body@,
    {
        body
    }
}

} // verus!
