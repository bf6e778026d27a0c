//! Outcomes of dispatched store operations and the replies they map to.
use vstd::prelude::*;
use crate::model::{Post, User, UserNoPassword, GenericResponse};

verus! {

/// Why a dispatched store operation produced no record.
#[derive(Clone, Copy, Debug, PartialEq, Eq, Structural)]
pub enum DbError {
    /// No connection could be checked out within the pool's timeout.
    PoolExhausted,
    /// Opening a new connection failed.
    ConnectFailed,
    /// The statement ran and failed.
    QueryFailed,
    /// No record matched: an expected outcome, not a fault.
    NotFound,
    /// The message never reached a worker, or its answer was lost.
    DispatchFailed,
}

/// Status of a reply.
#[derive(Clone, Copy, Debug, PartialEq, Eq, Structural)]
pub enum Status {
    Success,
    Unauthorized,
    NotFound,
    InternalError,
}

impl Status {
    /// The HTTP status code.
    pub fn code(&self) -> (r: u16)
        ensures
            r == status_code(*self),
    {
        match self {
            Status::Success => 200,
            Status::Unauthorized => 401,
            Status::NotFound => 404,
            Status::InternalError => 500,
        }
    }
}

/// The HTTP status code of a status.
pub open spec fn status_code(s: Status) -> u16 {
    match s {
        Status::Success => 200,
        Status::Unauthorized => 401,
        Status::NotFound => 404,
        Status::InternalError => 500,
    }
}

/// The fixed messages that a reply can carry.
#[derive(Clone, Copy, Debug, PartialEq, Eq, Structural)]
pub enum Notice {
    MissingCredentials,
    IncorrectCredentials,
    FetchUserFailed,
    CreateUserFailed,
    HashingFailed,
    TokenFailed,
    NoPostsFound,
    PostsUnavailable,
    NoPostWithId(i32),
    NoSuchPost,
    PostUnavailable,
    CreatePostFailed,
}

/// What a reply carries.
#[derive(Clone, Debug)]
pub enum ReplyBody {
    Posts(Vec<Post>),
    Post(Post),
    User(UserNoPassword),
    Token(String),
    Status(GenericResponse),
    Notice(Notice),
}

/// A reply to one request.
#[derive(Clone, Debug)]
pub struct Reply {
    pub status: Status,
    pub body: ReplyBody,
}

/// A reply with a fixed message.
pub open spec fn notice_reply(status: Status, n: Notice) -> Reply {
    Reply { status, body: ReplyBody::Notice(n) }
}

fn notice(status: Status, n: Notice) -> (r: Reply)
    ensures
        r == notice_reply(status, n),
{
    Reply { status, body: ReplyBody::Notice(n) }
}

/// The reply to the health check: success, with its fixed message.
pub fn health_reply() -> (r: Reply)
    ensures
        r.status == Status::Success,
        r.body is Status,
        r.body->Status_0.status@ == "success"@,
        r.body->Status_0.message@ == "Tutto funziona"@,
{
    Reply { status: Status::Success, body: ReplyBody::Status(GenericResponse::healthy()) }
}

/// The reply to a fetch of every post.
pub fn fetch_posts_reply(outcome: Result<Vec<Post>, DbError>) -> (r: Reply)
    ensures
        match outcome {
            Ok(v) => r == Reply { status: Status::Success, body: ReplyBody::Posts(v) },
            Err(DbError::NotFound) => r == notice_reply(Status::NotFound, Notice::NoPostsFound),
            Err(_) => r == notice_reply(Status::InternalError, Notice::PostsUnavailable),
        },
{
    match outcome {
        Ok(v) => Reply { status: Status::Success, body: ReplyBody::Posts(v) },
        Err(DbError::NotFound) => notice(Status::NotFound, Notice::NoPostsFound),
        Err(_) => notice(Status::InternalError, Notice::PostsUnavailable),
    }
}

/// The reply to a fetch of post `id`: the record, "not found" naming the
/// identifier, or a server failure for any fault.
pub fn fetch_single_post_reply(id: i32, outcome: Result<Post, DbError>) -> (r: Reply)
    ensures
        match outcome {
            Ok(p) => r == Reply { status: Status::Success, body: ReplyBody::Post(p) },
            Err(DbError::NotFound) => r == notice_reply(Status::NotFound, Notice::NoPostWithId(id)),
            Err(_) => r == notice_reply(Status::InternalError, Notice::PostUnavailable),
        },
{
    match outcome {
        Ok(p) => Reply { status: Status::Success, body: ReplyBody::Post(p) },
        Err(DbError::NotFound) => notice(Status::NotFound, Notice::NoPostWithId(id)),
        Err(_) => notice(Status::InternalError, Notice::PostUnavailable),
    }
}

/// The reply to a create: the stored record, or a server failure.
pub fn create_post_reply(outcome: Result<Post, DbError>) -> (r: Reply)
    ensures
        match outcome {
            Ok(p) => r == Reply { status: Status::Success, body: ReplyBody::Post(p) },
            Err(_) => r == notice_reply(Status::InternalError, Notice::CreatePostFailed),
        },
{
    match outcome {
        Ok(p) => Reply { status: Status::Success, body: ReplyBody::Post(p) },
        Err(_) => notice(Status::InternalError, Notice::CreatePostFailed),
    }
}

/// The reply to an update: the record after the update, "not found", or a
/// server failure for any fault.
pub fn update_post_reply(outcome: Result<Post, DbError>) -> (r: Reply)
    ensures
        match outcome {
            Ok(p) => r == Reply { status: Status::Success, body: ReplyBody::Post(p) },
            Err(DbError::NotFound) => r == notice_reply(Status::NotFound, Notice::NoSuchPost),
            Err(_) => r == notice_reply(Status::InternalError, Notice::PostUnavailable),
        },
{
    match outcome {
        Ok(p) => Reply { status: Status::Success, body: ReplyBody::Post(p) },
        Err(DbError::NotFound) => notice(Status::NotFound, Notice::NoSuchPost),
        Err(_) => notice(Status::InternalError, Notice::PostUnavailable),
    }
}

/// The reply to a delete of post `id`: the snapshot of the removed record,
/// "not found" naming the identifier, or a server failure for any fault.
pub fn delete_post_reply(id: i32, outcome: Result<Post, DbError>) -> (r: Reply)
    ensures
        match outcome {
            Ok(p) => r == Reply { status: Status::Success, body: ReplyBody::Post(p) },
            Err(DbError::NotFound) => r == notice_reply(Status::NotFound, Notice::NoPostWithId(id)),
            Err(_) => r == notice_reply(Status::InternalError, Notice::PostUnavailable),
        },
{
    fetch_single_post_reply(id, outcome)
}

/// The reply to a registration: the new user without its password hash, or
/// a server failure.
pub fn create_user_reply(outcome: Result<User, DbError>) -> (r: Reply)
    ensures
        match outcome {
            Ok(u) => r.status == Status::Success && r.body is User && r.body->User_0.id == u.id
                && r.body->User_0.username@ == u.username@,
            Err(_) => r == notice_reply(Status::InternalError, Notice::CreateUserFailed),
        },
{
    match outcome {
        Ok(u) => Reply { status: Status::Success, body: ReplyBody::User(UserNoPassword::from_user(&u)) },
        Err(_) => notice(Status::InternalError, Notice::CreateUserFailed),
    }
}

} // verus!
