//! Records, insertable rows, request messages and wire bodies.
use vstd::prelude::*;

verus! {

/// A stored post.
#[derive(Clone, Debug)]
pub struct Post {
    pub id: i32,
    pub title: String,
    pub body: String,
    pub published: bool,
}

/// A stored user; `pwd` holds the opaque password hash, never the plaintext.
#[derive(Clone, Debug)]
pub struct User {
    pub id: i32,
    pub username: String,
    pub pwd: String,
}

/// The values inserted to create a post; the store assigns the identifier.
#[derive(Clone, Debug)]
pub struct NewPost {
    pub title: String,
    pub body: String,
    pub published: bool,
}

/// The values inserted to create a user; the store assigns the identifier.
#[derive(Clone, Debug)]
pub struct NewUser {
    pub username: String,
    pub pwd: String,
}

/// Request: every post, in insertion order.
#[derive(Clone, Copy, Debug)]
pub struct FetchPosts;

/// Request: the post with this identifier.
#[derive(Clone, Copy, Debug)]
pub struct FetchSinglePost {
    pub post_id: i32,
}

/// Request: create a post.
#[derive(Clone, Debug)]
pub struct CreatePost {
    pub title: String,
    pub body: String,
    pub published: bool,
}

/// Request: set title, body and published flag of the post with this identifier.
#[derive(Clone, Debug)]
pub struct UpdatePost {
    pub post_id: i32,
    pub title: String,
    pub body: String,
    pub published: bool,
}

/// Request: remove the post with this identifier.
#[derive(Clone, Copy, Debug)]
pub struct DeletePost {
    pub post_id: i32,
}

/// Request: create a user with an already hashed password.
#[derive(Clone, Debug)]
pub struct CreateUser {
    pub username: String,
    pub pwd: String,
}

/// Request: the user with this username.
#[derive(Clone, Debug)]
pub struct FetchSingleUser {
    pub username: String,
}

/// Body of a create or update request for a post.
#[derive(Clone, Debug)]
pub struct CreatePostBody {
    pub title: String,
    pub body: String,
    pub published: bool,
}

/// Generic status envelope: `status` is `success` or `error`.
#[derive(Clone, Debug)]
pub struct GenericResponse {
    pub status: String,
    pub message: String,
}

/// Body of a registration request; `password` is the plaintext.
#[derive(Clone, Debug)]
pub struct CreateUserBody {
    pub username: String,
    pub password: String,
}

/// The outward view of a user: no password field.
#[derive(Clone, Debug)]
pub struct UserNoPassword {
    pub id: i32,
    pub username: String,
}

/// A user together with a password, as read from credentials.
#[derive(Clone, Debug)]
pub struct AuthUser {
    pub id: i32,
    pub username: String,
    pub password: String,
}

impl CreatePost {
    /// The row that a create inserts: title and body as given, and the
    /// published flag at its default, `false`.
    pub fn to_insertable(&self) -> (r: NewPost)
        ensures
            r.title@ == self.title@,
            r.body@ == self.body@,
            !r.published,
    {
        NewPost { title: self.title.clone(), body: self.body.clone(), published: false }
    }
}

impl CreateUser {
    /// The row that a registration inserts: username and hash as given.
    pub fn to_insertable(&self) -> (r: NewUser)
        ensures
            r.username@ == self.username@,
            r.pwd@ == self.pwd@,
    {
        NewUser { username: self.username.clone(), pwd: self.pwd.clone() }
    }
}

impl CreatePostBody {
    /// The create request that this body asks for.
    pub fn to_create(&self) -> (r: CreatePost)
        ensures
            r.title@ == self.title@,
            r.body@ == self.body@,
            r.published == self.published,
    {
        CreatePost { title: self.title.clone(), body: self.body.clone(), published: self.published }
    }

    /// The update request that this body asks for on post `post_id`.
    pub fn to_update(&self, post_id: i32) -> (r: UpdatePost)
        ensures
            r.post_id == post_id,
            r.title@ == self.title@,
            r.body@ == self.body@,
            r.published == self.published,
    {
        UpdatePost {
            post_id,
            title: self.title.clone(),
            body: self.body.clone(),
            published: self.published,
        }
    }
}

impl UserNoPassword {
    /// The outward view of a stored user: identifier and username, and
    /// nothing of the password hash.
    pub fn from_user(u: &User) -> (r: UserNoPassword)
        ensures
            r.id == u.id,
            r.username@ == u.username@,
    {
        UserNoPassword { id: u.id, username: u.username.clone() }
    }
}

impl GenericResponse {
    /// The envelope that the health check answers with.
    pub fn healthy() -> (r: GenericResponse)
        ensures
            r.status@ == "success"@,
            r.message@ == "Tutto funziona"@,
    {
        proof {
            reveal_strlit("success");
            reveal_strlit("Tutto funziona");
        }
        GenericResponse { status: "success".to_owned(), message: "Tutto funziona".to_owned() }
    }
}

} // verus!
