//! The answer a caller receives: a status code and a text body.

use vstd::prelude::*;

verus! {

/// Status of an ordinary answer.
pub const STATUS_OK: u16 = 200;

/// Status of an answer that hands the connection over to the relay.
pub const STATUS_SWITCHING_PROTOCOLS: u16 = 101;

/// What is sent back to a caller.
#[derive(Debug, Clone, PartialEq, Eq)]
pub struct Response {
    pub status: u16,
    pub body: String,
}

/// The mathematical counterpart of [`Response`].
pub struct Answer {
    pub status: int,
    pub body: Seq<char>,
}

impl View for Response {
    type V = Answer;

    open spec fn view(&self) -> Answer {
        Answer { status: self.status as int, body: self.body@ }
    }
}

/// The status of a response made by `http::Response::new`: the crate gives a
/// new response the default status, which is 200.
#[verifier::external_body]
fn fresh_status() -> (code: u16)
    ensures
        code == STATUS_OK,
{
    http::Response::new(()).status().as_u16()
}

/// The number of `http::StatusCode::SWITCHING_PROTOCOLS`, which the crate
/// registers as 101.
#[verifier::external_body]
fn upgrade_status() -> (code: u16)
    ensures
        code == STATUS_SWITCHING_PROTOCOLS,
{
    http::StatusCode::SWITCHING_PROTOCOLS.as_u16()
}

impl Response {
    /// An ordinary answer carrying `body`.
    pub fn ok(body: String) -> (response: Response)
        ensures
            response@ == (Answer { status: STATUS_OK as int, body: body@ }),
    {
        Response { status: fresh_status(), body }
    }

    /// The answer to a connection upgrade: status 101 and an empty body.
    pub fn switching_protocols() -> (response: Response)
        ensures
            response@ == (Answer {
                status: STATUS_SWITCHING_PROTOCOLS as int,
                body: Seq::<char>::empty(),
            }),
    {
        Response { status: upgrade_status(), body: String::new() }
    }
}

} // verus!
