use post_api::auth::{
    auth_failure_status, bearer_gate, login_after_fetch, login_begin, login_finish,
    registration_request, AuthError, HashingFault, LoginStep,
};
use post_api::model::{CreatePost, CreatePostBody, CreateUser, CreateUserBody, Post, User, UserNoPassword};
use post_api::reply::{
    create_post_reply, create_user_reply, delete_post_reply, fetch_posts_reply,
    fetch_single_post_reply, health_reply, update_post_reply, DbError, Notice, Reply, ReplyBody,
    Status,
};
use post_api::token::TokenClaims;

fn post(id: i32, title: &str, body: &str, published: bool) -> Post {
    Post { id, title: title.to_string(), body: body.to_string(), published }
}

fn notice_of(r: &Reply) -> Option<Notice> {
    match &r.body {
        ReplyBody::Notice(n) => Some(*n),
        _ => None,
    }
}

#[test]
fn status_codes() {
    assert_eq!(Status::Success.code(), 200);
    assert_eq!(Status::Unauthorized.code(), 401);
    assert_eq!(Status::NotFound.code(), 404);
    assert_eq!(Status::InternalError.code(), 500);
}

#[test]
fn health_check_reply() {
    let r = health_reply();
    assert_eq!(r.status, Status::Success);
    match r.body {
        ReplyBody::Status(g) => {
            assert_eq!(g.status, "success");
            assert_eq!(g.message, "Tutto funziona");
        }
        _ => panic!("expected a status envelope"),
    }
}

#[test]
fn fetch_posts_replies() {
    let r = fetch_posts_reply(Ok(vec![post(1, "a", "b", true), post(2, "c", "d", false)]));
    assert_eq!(r.status, Status::Success);
    match r.body {
        ReplyBody::Posts(v) => {
            assert_eq!(v.len(), 2);
            assert_eq!(v[0].id, 1);
            assert_eq!(v[1].id, 2);
        }
        _ => panic!("expected posts"),
    }
    let r = fetch_posts_reply(Err(DbError::NotFound));
    assert_eq!((r.status, notice_of(&r)), (Status::NotFound, Some(Notice::NoPostsFound)));
    let r = fetch_posts_reply(Err(DbError::PoolExhausted));
    assert_eq!((r.status, notice_of(&r)), (Status::InternalError, Some(Notice::PostsUnavailable)));
}

#[test]
fn fetch_missing_post_is_not_found_not_a_fault() {
    let r = fetch_single_post_reply(77, Err(DbError::NotFound));
    assert_eq!(r.status.code(), 404);
    assert_eq!(notice_of(&r), Some(Notice::NoPostWithId(77)));
    for e in [DbError::PoolExhausted, DbError::ConnectFailed, DbError::QueryFailed, DbError::DispatchFailed] {
        let r = fetch_single_post_reply(77, Err(e));
        assert_eq!(r.status.code(), 500);
        assert_eq!(notice_of(&r), Some(Notice::PostUnavailable));
    }
}

#[test]
fn create_then_fetch_gives_identical_record() {
    let body = CreatePostBody { title: "T".to_string(), body: "B".to_string(), published: false };
    let msg: CreatePost = body.to_create();
    let row = msg.to_insertable();
    assert_eq!((row.title.as_str(), row.body.as_str(), row.published), ("T", "B", false));
    let stored = post(5, &row.title, &row.body, row.published);
    let created = create_post_reply(Ok(stored.clone()));
    let fetched = fetch_single_post_reply(5, Ok(stored));
    match (created.body, fetched.body) {
        (ReplyBody::Post(a), ReplyBody::Post(b)) => {
            assert_eq!((a.id, a.title.as_str(), a.body.as_str(), a.published), (5, "T", "B", false));
            assert_eq!((a.id, a.title, a.body, a.published), (b.id, b.title, b.body, b.published));
        }
        _ => panic!("expected posts"),
    }
}

#[test]
fn create_ignores_requested_published_flag() {
    let msg = CreatePost { title: "x".to_string(), body: "y".to_string(), published: true };
    assert!(!msg.to_insertable().published);
}

#[test]
fn create_post_failure() {
    let r = create_post_reply(Err(DbError::QueryFailed));
    assert_eq!((r.status, notice_of(&r)), (Status::InternalError, Some(Notice::CreatePostFailed)));
}

#[test]
fn update_replies() {
    let body = CreatePostBody { title: "N".to_string(), body: "M".to_string(), published: true };
    let msg = body.to_update(4);
    assert_eq!((msg.post_id, msg.title.as_str(), msg.body.as_str(), msg.published), (4, "N", "M", true));
    let r = update_post_reply(Ok(post(4, "N", "M", true)));
    assert_eq!(r.status, Status::Success);
    let r = update_post_reply(Err(DbError::NotFound));
    assert_eq!((r.status, notice_of(&r)), (Status::NotFound, Some(Notice::NoSuchPost)));
    let r = update_post_reply(Err(DbError::ConnectFailed));
    assert_eq!(r.status, Status::InternalError);
}

#[test]
fn delete_then_fetch_is_not_found() {
    let r = delete_post_reply(8, Ok(post(8, "old", "text", true)));
    match r.body {
        ReplyBody::Post(p) => assert_eq!((p.id, p.title.as_str(), p.published), (8, "old", true)),
        _ => panic!("expected the deleted snapshot"),
    }
    let r = fetch_single_post_reply(8, Err(DbError::NotFound));
    assert_eq!((r.status, notice_of(&r)), (Status::NotFound, Some(Notice::NoPostWithId(8))));
    let r = delete_post_reply(8, Err(DbError::NotFound));
    assert_eq!((r.status, notice_of(&r)), (Status::NotFound, Some(Notice::NoPostWithId(8))));
}

#[test]
fn registration_reply_hides_hash() {
    let body = CreateUserBody { username: "alice".to_string(), password: "secret123".to_string() };
    let req: CreateUser = registration_request(&body, Ok("$argon2id$hash".to_string())).unwrap();
    assert_eq!((req.username.as_str(), req.pwd.as_str()), ("alice", "$argon2id$hash"));
    let row = req.to_insertable();
    assert_eq!((row.username.as_str(), row.pwd.as_str()), ("alice", "$argon2id$hash"));
    let stored = User { id: 1, username: "alice".to_string(), pwd: "$argon2id$hash".to_string() };
    let r = create_user_reply(Ok(stored));
    assert_eq!(r.status, Status::Success);
    match r.body {
        ReplyBody::User(UserNoPassword { id, username }) => assert_eq!((id, username.as_str()), (1, "alice")),
        _ => panic!("expected a user"),
    }
}

#[test]
fn registration_failures() {
    let body = CreateUserBody { username: "bob".to_string(), password: "pw".to_string() };
    match registration_request(&body, Err(HashingFault)) {
        Err(r) => assert_eq!((r.status, notice_of(&r)), (Status::InternalError, Some(Notice::HashingFailed))),
        Ok(_) => panic!("a hashing fault must not register"),
    }
    let r = create_user_reply(Err(DbError::QueryFailed));
    assert_eq!((r.status, notice_of(&r)), (Status::InternalError, Some(Notice::CreateUserFailed)));
}

#[test]
fn login_without_password_is_unauthorized() {
    match login_begin("alice", None) {
        LoginStep::Done(r) => {
            assert_eq!(r.status.code(), 401);
            assert_eq!(notice_of(&r), Some(Notice::MissingCredentials));
        }
        _ => panic!("expected the flow to end"),
    }
}

#[test]
fn login_unknown_user_looks_like_wrong_password() {
    let unknown = match login_after_fetch("pw".to_string(), Err(DbError::NotFound)) {
        LoginStep::Done(r) => r,
        _ => panic!("expected the flow to end"),
    };
    let wrong = login_finish(1, Ok(false), b"jwt");
    assert_eq!(unknown.status, Status::Unauthorized);
    assert_eq!(notice_of(&unknown), notice_of(&wrong));
    assert_eq!(wrong.status, Status::Unauthorized);
}

#[test]
fn login_fetch_fault_is_server_failure() {
    match login_after_fetch("pw".to_string(), Err(DbError::QueryFailed)) {
        LoginStep::Done(r) => assert_eq!((r.status, notice_of(&r)), (Status::InternalError, Some(Notice::FetchUserFailed))),
        _ => panic!("expected the flow to end"),
    }
}

#[test]
fn login_hashing_fault_is_server_failure() {
    let r = login_finish(3, Err(HashingFault), b"jwt");
    assert_eq!((r.status, notice_of(&r)), (Status::InternalError, Some(Notice::HashingFailed)));
    assert_eq!(auth_failure_status(AuthError::HashingFault), Status::InternalError);
    assert_eq!(auth_failure_status(AuthError::InvalidCredentials), Status::Unauthorized);
    assert_eq!(auth_failure_status(AuthError::MissingCredentials), Status::Unauthorized);
}

#[test]
fn register_login_and_use_token() {
    let jwt_key = b"jwt-secret".to_vec();
    let step = login_begin("alice", Some("secret123".to_string()));
    let password = match step {
        LoginStep::FetchUser { request, password } => {
            assert_eq!(request.username, "alice");
            password
        }
        _ => panic!("expected a user lookup"),
    };
    let stored = User { id: 12, username: "alice".to_string(), pwd: "$argon2id$stored".to_string() };
    let (user_id, stored_hash) = match login_after_fetch(password, Ok(stored)) {
        LoginStep::CheckPassword { user_id, stored_hash, password } => {
            assert_eq!(password, "secret123");
            (user_id, stored_hash)
        }
        _ => panic!("expected a password check"),
    };
    assert_eq!((user_id, stored_hash.as_str()), (12, "$argon2id$stored"));
    let r = login_finish(user_id, Ok(true), &jwt_key);
    assert_eq!(r.status.code(), 200);
    let token = match r.body {
        ReplyBody::Token(t) => t,
        _ => panic!("expected a token"),
    };
    assert_eq!(bearer_gate(Some(&token), &jwt_key), Ok(TokenClaims { id: 12 }));
    assert_eq!(bearer_gate(None, &jwt_key), Err(AuthError::MissingCredentials));
    assert_eq!(auth_failure_status(AuthError::MissingCredentials).code(), 401);
}
