use vstd::prelude::*;
use crate::model::Timestamp;
use crate::rbac::PermissionPoints;
use crate::text::same_text;

verus! {

/// One grant of a permission point to a role, as stored.
pub struct RbacRolePermission {
    pub id: i32,
    pub role_name: String,
    pub permission_name: PermissionPoints,
}

/// Whether a permission guards an operation or only what a screen shows.
#[derive(Debug, Clone, Copy, PartialEq, Eq, Structural)]
pub enum PermissionType {
    Operation,
    Visual,
}

/// The stored name of a permission type.
pub open spec fn permission_type_name(t: PermissionType) -> Seq<char> {
    match t {
        PermissionType::Operation => "operation"@,
        PermissionType::Visual => "visual"@,
    }
}

/// The permission type a stored name denotes; any other name is `Operation`.
pub open spec fn permission_type_from_name(name: Seq<char>) -> PermissionType {
    if name == "visual"@ {
        PermissionType::Visual
    } else {
        PermissionType::Operation
    }
}

proof fn lemma_permission_type_names_distinct()
    ensures
        "operation"@ != "visual"@,
{
    reveal_strlit("operation");
    reveal_strlit("visual");
    assert("operation"@.len() != "visual"@.len());
}

/// Reading back the stored name of a permission type gives the same type.
pub proof fn lemma_permission_type_name_round_trip(t: PermissionType)
    ensures
        permission_type_from_name(permission_type_name(t)) == t,
{
    lemma_permission_type_names_distinct();
}

impl Default for PermissionType {
    fn default() -> (r: Self)
        ensures
            r == PermissionType::Operation,
    {
        PermissionType::Operation
    }
}

impl From<String> for PermissionType {
    fn from(s: String) -> (r: Self) {
        proof {
            lemma_permission_type_names_distinct();
        }
        if same_text(s.as_str(), "operation") {
            PermissionType::Operation
        } else if same_text(s.as_str(), "visual") {
            PermissionType::Visual
        } else {
            PermissionType::Operation
        }
    }
}

impl vstd::std_specs::convert::FromSpecImpl<String> for PermissionType {
    open spec fn obeys_from_spec() -> bool {
        true
    }

    open spec fn from_spec(v: String) -> Self {
        permission_type_from_name(v@)
    }
}

impl PermissionType {
    /// The stored name of this permission type.
    pub fn as_ref(&self) -> (r: &'static str)
        ensures
            r@ == permission_type_name(*self),
    {
        match self {
            PermissionType::Operation => "operation",
            PermissionType::Visual => "visual",
        }
    }
}

/// Title and body of a post to create or edit.
pub struct AddPostsReq {
    pub title: String,
    pub content: String,
}

/// Account details sent when registering or editing an account.
pub struct RegisterReq {
    pub username: String,
    pub email: String,
    pub password: String,
    pub age: Option<i32>,
    pub gender: Option<String>,
    pub education: Option<String>,
    pub hometown: Option<String>,
    pub address: Option<String>,
}

/// Credentials sent when signing in.
pub struct LoginReq {
    pub email: String,
    pub password: String,
}

/// An account together with its profile details.
pub struct UserInfo {
    pub id: i32,
    pub username: String,
    pub email: String,
    pub age: Option<i32>,
    pub gender: Option<String>,
    pub education: Option<String>,
    pub hometown: Option<String>,
    pub address: Option<String>,
}

impl Default for UserInfo {
    fn default() -> (r: Self)
        ensures
            r.id == 0,
            r.username@ == Seq::<char>::empty(),
            r.email@ == Seq::<char>::empty(),
            r.age is None,
            r.gender is None,
            r.education is None,
            r.hometown is None,
            r.address is None,
    {
        UserInfo {
            id: 0,
            username: String::new(),
            email: String::new(),
            age: None,
            gender: None,
            education: None,
            hometown: None,
            address: None,
        }
    }
}

/// The signed-in user as kept in the cache: the account and its roles.
#[derive(Clone, Debug)]
pub struct CacheUser {
    pub id: i32,
    pub username: String,
    pub email: String,
    pub created_at: Option<Timestamp>,
    pub last_login_time: Option<Timestamp>,
    pub role_ids: Vec<i32>,
}

} // verus!
