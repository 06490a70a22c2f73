use vstd::prelude::*;
use crate::text::same_text;

verus! {

/// A point in time as stored for accounts and posts: seconds since the Unix
/// epoch (UTC) and the nanoseconds within that second.
#[derive(Debug, Clone, Copy, PartialEq, Eq, Structural)]
pub struct Timestamp {
    pub secs: i64,
    pub nanos: u32,
}

/// Publication state of a post.
#[derive(Debug, Clone, Copy, PartialEq, Eq, Structural)]
pub enum PostsStatus {
    Published,
    Draft,
    Deleted,
}

/// The stored name of a post state.
pub open spec fn posts_status_name(s: PostsStatus) -> Seq<char> {
    match s {
        PostsStatus::Published => "published"@,
        PostsStatus::Draft => "draft"@,
        PostsStatus::Deleted => "deleted"@,
    }
}

/// The state a stored name denotes; an unknown name denotes a published post.
pub open spec fn posts_status_from_name(name: Seq<char>) -> PostsStatus {
    if name == "draft"@ {
        PostsStatus::Draft
    } else if name == "deleted"@ {
        PostsStatus::Deleted
    } else {
        PostsStatus::Published
    }
}

impl Default for PostsStatus {
    fn default() -> (r: Self)
        ensures
            r == PostsStatus::Published,
    {
        PostsStatus::Published
    }
}

impl From<String> for PostsStatus {
    fn from(s: String) -> (r: Self) {
        proof {
            lemma_posts_status_names_distinct();
        }
        if same_text(s.as_str(), "published") {
            PostsStatus::Published
        } else if same_text(s.as_str(), "draft") {
            PostsStatus::Draft
        } else if same_text(s.as_str(), "deleted") {
            PostsStatus::Deleted
        } else {
            PostsStatus::Published
        }
    }
}

impl vstd::std_specs::convert::FromSpecImpl<String> for PostsStatus {
    open spec fn obeys_from_spec() -> bool {
        true
    }

    open spec fn from_spec(v: String) -> Self {
        posts_status_from_name(v@)
    }
}

impl PostsStatus {
    /// The stored name of this state.
    pub fn as_ref(&self) -> (r: &'static str)
        ensures
            r@ == posts_status_name(*self),
    {
        match self {
            PostsStatus::Published => "published",
            PostsStatus::Draft => "draft",
            PostsStatus::Deleted => "deleted",
        }
    }
}

proof fn lemma_posts_status_names_distinct()
    ensures
        "published"@ != "draft"@,
        "published"@ != "deleted"@,
        "draft"@ != "deleted"@,
{
    reveal_strlit("published");
    reveal_strlit("draft");
    reveal_strlit("deleted");
    assert("published"@.len() != "draft"@.len());
    assert("published"@.len() != "deleted"@.len());
    assert("draft"@.len() != "deleted"@.len());
}

/// Reading back the stored name of a post state gives the same state.
pub proof fn lemma_posts_status_name_round_trip(s: PostsStatus)
    ensures
        posts_status_from_name(posts_status_name(s)) == s,
{
    lemma_posts_status_names_distinct();
}

/// Each post state is stored under its own name: `published`, `draft`,
/// `deleted`; any other stored name reads as a published post.
pub proof fn lemma_posts_status_names(name: Seq<char>)
    ensures
        posts_status_name(PostsStatus::Published) == "published"@,
        posts_status_name(PostsStatus::Draft) == "draft"@,
        posts_status_name(PostsStatus::Deleted) == "deleted"@,
        posts_status_from_name("published"@) == PostsStatus::Published,
        posts_status_from_name("draft"@) == PostsStatus::Draft,
        posts_status_from_name("deleted"@) == PostsStatus::Deleted,
        (name != "draft"@ && name != "deleted"@) ==> posts_status_from_name(name) == PostsStatus::Published,
{
    lemma_posts_status_names_distinct();
}

/// A blog post.
pub struct Posts {
    pub id: i32,
    pub title: String,
    pub content: String,
    pub user_id: i32,
    pub status: PostsStatus,
    pub created_at: Option<Timestamp>,
}

impl Default for Posts {
    fn default() -> (r: Self)
        ensures
            r.id == 0,
            r.title@ == Seq::<char>::empty(),
            r.content@ == Seq::<char>::empty(),
            r.user_id == 0,
            r.status == PostsStatus::Published,
            r.created_at is None,
    {
        Posts {
            id: 0,
            title: String::new(),
            content: String::new(),
            user_id: 0,
            status: PostsStatus::Published,
            created_at: None,
        }
    }
}

/// A registered account. The password holds the bcrypt hash, never the
/// password itself.
pub struct UserAccounts {
    pub id: i32,
    pub username: String,
    pub email: String,
    pub password: String,
    pub created_at: Option<Timestamp>,
    pub last_login_time: Option<Timestamp>,
}

impl Default for UserAccounts {
    fn default() -> (r: Self)
        ensures
            r.id == 0,
            r.username@ == Seq::<char>::empty(),
            r.email@ == Seq::<char>::empty(),
            r.password@ == Seq::<char>::empty(),
            r.created_at is None,
            r.last_login_time is None,
    {
        UserAccounts {
            id: 0,
            username: String::new(),
            email: String::new(),
            password: String::new(),
            created_at: None,
            last_login_time: None,
        }
    }
}

/// Optional profile details of an account.
pub struct UserExt {
    pub id: i32,
    pub user_id: i32,
    pub age: Option<i32>,
    pub gender: Option<String>,
    pub education: Option<String>,
    pub hometown: Option<String>,
    pub address: Option<String>,
}

impl Default for UserExt {
    fn default() -> (r: Self)
        ensures
            r.id == 0,
            r.user_id == 0,
            r.age is None,
            r.gender is None,
            r.education is None,
            r.hometown is None,
            r.address is None,
    {
        UserExt {
            id: 0,
            user_id: 0,
            age: None,
            gender: None,
            education: None,
            hometown: None,
            address: None,
        }
    }
}

/// The assignment of a role to an account.
#[derive(Debug, Clone, Copy, PartialEq, Eq, Structural)]
pub struct UserRole {
    pub user_id: i32,
    pub role_id: i32,
}

impl Default for UserRole {
    fn default() -> (r: Self)
        ensures
            r.user_id == 0 && r.role_id == 0,
    {
        UserRole { user_id: 0, role_id: 0 }
    }
}

} // verus!
