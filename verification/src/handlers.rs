//! The two endpoints: what each answers.

use vstd::prelude::*;
use vstd::string::StringExecFns;
use crate::outcome::InsertOutcome;

verus! {

/// The whole reply of the greeting endpoint.
pub const GREETING: &'static str = "Hello from Axum backend!";

/// The status of every reply. A failed write is reported in the reply's
/// text, not in its status.
pub const STATUS_OK: u16 = 200;

/// A reply: the HTTP status and the plain-text body.
#[derive(Debug, PartialEq, Eq)]
pub struct Reply {
    pub status: u16,
    pub body: String,
}

impl Clone for Reply {
    fn clone(&self) -> (copy: Reply)
        ensures
            copy == *self,
    {
        Reply { status: self.status, body: self.body.clone() }
    }
}

/// Answers `GET /`: always the greeting.
pub fn root() -> (reply: Reply)
    ensures
        reply.status == STATUS_OK,
        reply.body@ == GREETING@,
{
    Reply { status: STATUS_OK, body: String::from_str(GREETING) }
}

/// Answers `GET /test-db` once the write has ended: the text that belongs to
/// the outcome, and the same status whether the record was stored or not.
pub fn test_db(outcome: &InsertOutcome) -> (reply: Reply)
    ensures
        reply.status == STATUS_OK,
        reply.body@ == outcome.body(),
{
    Reply { status: STATUS_OK, body: outcome.render() }
}

} // verus!
