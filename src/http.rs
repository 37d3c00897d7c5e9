use vstd::prelude::*;

verus! {

#[derive(Clone, Copy, Debug, PartialEq, Eq, Structural)]
pub enum Method {
    Get,
    Post,
    Put,
}

/// What came back for a request: a status code and the body text, or nothing
/// where the request did not complete (no connection, a timeout).
#[derive(Debug)]
pub enum Reply {
    Received { status: u16, body: String },
    Unreachable,
}

pub open spec fn is_success(status: u16) -> bool {
    200 <= status && status < 300
}

pub fn success(status: u16) -> (r: bool)
    ensures
        r == is_success(status),
{
    200 <= status && status < 300
}

} // verus!
