//! The authentication gate: bearer-token admission, the login flow and the
//! registration step.
use vstd::prelude::*;
use crate::model::{CreateUser, CreateUserBody, FetchSingleUser, User};
use crate::reply::{DbError, Notice, Reply, ReplyBody, Status, notice_reply};
use crate::token::{TokenClaims, TokenError, claims_outcome, dot_count, hs256_claims, hs256_token};

verus! {

/// Why a request was not authenticated.
#[derive(Clone, Copy, Debug, PartialEq, Eq, Structural)]
pub enum AuthError {
    /// No credentials were presented.
    MissingCredentials,
    /// The username is unknown or the password does not match.
    InvalidCredentials,
    /// The token's signature does not match under the server secret.
    InvalidSignature,
    /// The token is not a well-formed token with an identifier claim.
    MalformedToken,
    /// The password hash could not be computed or checked.
    HashingFault,
}

/// A password hash that could not be computed, or a stored hash that could
/// not be checked.
#[derive(Clone, Copy, Debug, PartialEq, Eq, Structural)]
pub struct HashingFault;

/// The status that an authentication failure maps to: a hashing fault is a
/// server failure, every other failure is "unauthorized".
pub open spec fn auth_status(e: AuthError) -> Status {
    match e {
        AuthError::HashingFault => Status::InternalError,
        _ => Status::Unauthorized,
    }
}

/// The authentication error for a rejected token.
pub open spec fn token_auth_error(e: TokenError) -> AuthError {
    match e {
        TokenError::InvalidSignature => AuthError::InvalidSignature,
        TokenError::Malformed => AuthError::MalformedToken,
    }
}

/// The admission result for a bearer token whose signature checked out and
/// whose claim entries are `entries`.
pub open spec fn gate_outcome(entries: Seq<(Seq<char>, i32)>) -> Result<TokenClaims, AuthError> {
    match claims_outcome(entries) {
        Ok(c) => Ok(c),
        Err(e) => Err(token_auth_error(e)),
    }
}

/// The status for an authentication failure.
pub fn auth_failure_status(e: AuthError) -> (r: Status)
    ensures
        r == auth_status(e),
{
    match e {
        AuthError::HashingFault => Status::InternalError,
        _ => Status::Unauthorized,
    }
}

/// Admits a request on a protected route: the bearer token, if any, is
/// checked under `key`, and the claims it carries are what the handler
/// sees. Without a token, or with one that does not check out, the request
/// is rejected.
pub fn bearer_gate(token: Option<&str>, key: &[u8]) -> (r: Result<TokenClaims, AuthError>)
    ensures
        token is None ==> r == Err::<TokenClaims, AuthError>(AuthError::MissingCredentials),
        token is Some ==> {
            let t = token->Some_0@;
            &&& hs256_claims(t, key@) is Some ==> r == gate_outcome(hs256_claims(t, key@)->Some_0)
            &&& hs256_claims(t, key@) is None ==> r is Err && r->Err_0 != AuthError::HashingFault
            &&& forall|id: i32|
                #[trigger] hs256_token(id, key@) == t ==> r == Ok::<TokenClaims, AuthError>(TokenClaims { id })
            &&& dot_count(t) != 2 ==> r == Err::<TokenClaims, AuthError>(AuthError::MalformedToken)
        },
{
    match token {
        None => Err(AuthError::MissingCredentials),
        Some(t) => match TokenClaims::validate(t, key) {
            Ok(c) => Ok(c),
            Err(TokenError::InvalidSignature) => Err(AuthError::InvalidSignature),
            Err(TokenError::Malformed) => Err(AuthError::MalformedToken),
        },
    }
}

/// A step of the login flow.
#[derive(Clone, Debug)]
pub enum LoginStep {
    /// Look the user up; the password is kept for the next step.
    FetchUser { request: FetchSingleUser, password: String },
    /// Check `password` against the stored hash of user `user_id`.
    CheckPassword { user_id: i32, stored_hash: String, password: String },
    /// The flow is over with this reply.
    Done(Reply),
}

/// The first step of a login with basic credentials: without a password the
/// flow ends as unauthorized; otherwise the user is looked up by name.
pub fn login_begin(username: &str, password: Option<String>) -> (r: LoginStep)
    ensures
        password is None ==> r == LoginStep::Done(
            notice_reply(Status::Unauthorized, Notice::MissingCredentials),
        ),
        password is Some ==> r is FetchUser && r->request.username@ == username@
            && r->FetchUser_password == password->Some_0,
{
    match password {
        None => LoginStep::Done(Reply { status: Status::Unauthorized, body: ReplyBody::Notice(Notice::MissingCredentials) }),
        Some(p) => LoginStep::FetchUser {
            request: FetchSingleUser { username: username.to_owned() },
            password: p,
        },
    }
}

/// The step after the user lookup: a found user's stored hash is checked
/// next; an unknown user ends as unauthorized, with the same message as a
/// wrong password; a fault ends as a server failure.
pub fn login_after_fetch(password: String, fetched: Result<User, DbError>) -> (r: LoginStep)
    ensures
        match fetched {
            Ok(u) => r == LoginStep::CheckPassword { user_id: u.id, stored_hash: u.pwd, password },
            Err(DbError::NotFound) => r == LoginStep::Done(
                notice_reply(Status::Unauthorized, Notice::IncorrectCredentials),
            ),
            Err(_) => r == LoginStep::Done(
                notice_reply(Status::InternalError, Notice::FetchUserFailed),
            ),
        },
{
    match fetched {
        Ok(u) => LoginStep::CheckPassword { user_id: u.id, stored_hash: u.pwd, password },
        Err(DbError::NotFound) => LoginStep::Done(Reply { status: Status::Unauthorized, body: ReplyBody::Notice(Notice::IncorrectCredentials) }),
        Err(_) => LoginStep::Done(Reply { status: Status::InternalError, body: ReplyBody::Notice(Notice::FetchUserFailed) }),
    }
}

/// The last step of a login: a matching password gets a fresh token for
/// user `user_id` signed with `key`; a mismatch is unauthorized; a hashing
/// fault is a server failure, never a login.
pub fn login_finish(user_id: i32, verified: Result<bool, HashingFault>, key: &[u8]) -> (r: Reply)
    ensures
        verified is Err ==> r == notice_reply(Status::InternalError, Notice::HashingFailed),
        verified == Ok::<bool, HashingFault>(false) ==> r == notice_reply(Status::Unauthorized, Notice::IncorrectCredentials),
        verified == Ok::<bool, HashingFault>(true) ==> r.status == Status::Success && r.body is Token
            && r.body->Token_0@ == hs256_token(user_id, key@),
        r.status == Status::Success ==> verified == Ok::<bool, HashingFault>(true),
{
    match verified {
        Err(_) => Reply { status: Status::InternalError, body: ReplyBody::Notice(Notice::HashingFailed) },
        Ok(false) => Reply { status: Status::Unauthorized, body: ReplyBody::Notice(Notice::IncorrectCredentials) },
        Ok(true) => {
            let claims = TokenClaims { id: user_id };
            match claims.issue(key) {
                Ok(t) => Reply { status: Status::Success, body: ReplyBody::Token(t) },
                Err(_) => Reply { status: Status::InternalError, body: ReplyBody::Notice(Notice::TokenFailed) },
            }
        },
    }
}

/// The store request for a registration, given the hash of the body's
/// password: the username as given and the hash in place of the plaintext;
/// a hashing fault ends the registration as a server failure.
pub fn registration_request(body: &CreateUserBody, hashed: Result<String, HashingFault>) -> (r: Result<CreateUser, Reply>)
    ensures
        match hashed {
            Ok(h) => r is Ok && r->Ok_0.username@ == body.username@ && r->Ok_0.pwd == h,
            Err(_) => r == Err::<CreateUser, Reply>(notice_reply(Status::InternalError, Notice::HashingFailed)),
        },
{
    match hashed {
        Ok(h) => Ok(CreateUser { username: body.username.clone(), pwd: h }),
        Err(_) => Err(Reply { status: Status::InternalError, body: ReplyBody::Notice(Notice::HashingFailed) }),
    }
}

} // verus!
