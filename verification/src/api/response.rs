use crate::repository::error::RepoError;
use vstd::prelude::*;
use vstd::string::StringExecFns;

verus! {

/// The status of a response.
#[derive(Clone, Copy, Debug, PartialEq, Eq, Structural)]
pub enum Status {
    Success,
    Created,
    NotFound,
    MethodNotAllowed,
    UnsupportedMediaType,
    UnprocessableEntity,
}

impl Status {
    /// The number of the status on the wire.
    pub open spec fn spec_code(self) -> int {
        match self {
            Status::Success => 200,
            Status::Created => 201,
            Status::NotFound => 404,
            Status::MethodNotAllowed => 405,
            Status::UnsupportedMediaType => 415,
            Status::UnprocessableEntity => 422,
        }
    }

    /// The number of the status on the wire.
    pub fn code(self) -> (code: u16)
        ensures
            code == self.spec_code(),
    {
        match self {
            Status::Success => 200,
            Status::Created => 201,
            Status::NotFound => 404,
            Status::MethodNotAllowed => 405,
            Status::UnsupportedMediaType => 415,
            Status::UnprocessableEntity => 422,
        }
    }
}

/// A response: its status and what its body holds.
#[derive(Debug)]
pub struct Reply<T> {
    pub status: Status,
    pub body: T,
}

/// The body of a request that could not be decoded.
pub const UNDECODABLE: i32 = -1;

/// The body of the refusal of a content type.
pub const NO_CODE: i32 = 0;

/// Whether a content type is the one in which requests are read. The
/// comparison is exact: a parameter after the type makes it another.
pub open spec fn is_json(content_type: Seq<char>) -> bool {
    content_type == "application/json"@
}

/// Tests the content type of a request that carries a body: `None` where
/// the body can be read, else the refusal to send.
pub fn check_content_type(content_type: &str) -> (refusal: Option<Reply<i32>>)
    ensures
        refusal == if is_json(content_type@) {
            None::<Reply<i32>>
        } else {
            Some(Reply { status: Status::UnsupportedMediaType, body: NO_CODE })
        },
{
    if String::from_str(content_type) == String::from_str("application/json") {
        None
    } else {
        Some(Reply { status: Status::UnsupportedMediaType, body: NO_CODE })
    }
}

/// The response to a request whose body could not be decoded.
pub fn undecodable() -> (reply: Reply<i32>)
    ensures
        reply == (Reply { status: Status::UnprocessableEntity, body: UNDECODABLE }),
{
    Reply { status: Status::UnprocessableEntity, body: UNDECODABLE }
}

/// The response to a request on a whole collection that is not offered.
pub fn not_implemented() -> (reply: Reply<String>)
    ensures
        reply.status == Status::MethodNotAllowed,
        reply.body@ == "Not implemented"@,
{
    Reply { status: Status::MethodNotAllowed, body: String::from_str("Not implemented") }
}

/// What answers an operation that yields an identifier: on success the
/// status `success` with the identifier, on failure the status `failure`
/// with the code of the error.
pub open spec fn answer_of(result: Result<i32, RepoError>, success: Status, failure: Status) -> Reply<
    i32,
> {
    match result {
        Ok(id) => Reply { status: success, body: id },
        Err(error) => Reply { status: failure, body: error.spec_code() as i32 },
    }
}

/// The response to an operation that yields an identifier.
pub fn answer(result: Result<i32, RepoError>, success: Status, failure: Status) -> (reply: Reply<
    i32,
>)
    ensures
        reply == answer_of(result, success, failure),
{
    match result {
        Ok(id) => Reply { status: success, body: id },
        Err(error) => Reply { status: failure, body: error.code() },
    }
}

} // verus!
