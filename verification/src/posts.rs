use vstd::prelude::*;
use crate::dto::{AddPostsReq, CacheUser};
use crate::model::{Posts, PostsStatus};
use crate::rbac::{access_decision, can_access, user_roles, PermissionPoints, PermissionRegistry};
use crate::response::ErrCode;

verus! {

/// A post made of a client's title and body, everything else defaulted.
pub fn posts_from_request(req: AddPostsReq) -> (r: Posts)
    ensures
        r.id == 0,
        r.title == req.title,
        r.content == req.content,
        r.user_id == 0,
        r.status == PostsStatus::Published,
        r.created_at is None,
{
    Posts {
        id: 0,
        title: req.title,
        content: req.content,
        user_id: 0,
        status: PostsStatus::Published,
        created_at: None,
    }
}

/// The post to store for a creation request: the requester must pass the
/// `CreatePost` check and be signed in, and becomes the post's author.
pub fn prepare_new_post(registry: &PermissionRegistry, user: &Option<CacheUser>, req: Posts) -> (r: Result<Posts, ErrCode>)
    ensures
        access_decision(registry@, user_roles(*user), PermissionPoints::CreatePost) is Err
            ==> r == Err::<Posts, ErrCode>(access_decision(registry@, user_roles(*user), PermissionPoints::CreatePost)->Err_0),
        access_decision(registry@, user_roles(*user), PermissionPoints::CreatePost) is Ok ==> match user {
            None => r == Err::<Posts, ErrCode>(ErrCode::UnAuthorized),
            Some(u) => r matches Ok(p) && p.user_id == u.id && p.id == req.id && p.title == req.title
                && p.content == req.content && p.status == req.status && p.created_at == req.created_at,
        },
{
    can_access(registry, user, PermissionPoints::CreatePost)?;
    let author = match user {
        Some(u) => u.id,
        None => return Err(ErrCode::UnAuthorized),
    };
    let mut post = req;
    post.user_id = author;
    Ok(post)
}

/// The post to store for an edit of post `id`: the requester must pass the
/// `EditPost` check, the id must be positive, and the requester must be
/// signed in; the post takes the id and the requester as author.
pub fn prepare_post_edit(registry: &PermissionRegistry, user: &Option<CacheUser>, req: Posts, id: i32) -> (r: Result<Posts, ErrCode>)
    ensures
        access_decision(registry@, user_roles(*user), PermissionPoints::EditPost) is Err
            ==> r == Err::<Posts, ErrCode>(access_decision(registry@, user_roles(*user), PermissionPoints::EditPost)->Err_0),
        access_decision(registry@, user_roles(*user), PermissionPoints::EditPost) is Ok ==> if id <= 0 {
            r == Err::<Posts, ErrCode>(ErrCode::InputArgsError)
        } else {
            match user {
                None => r == Err::<Posts, ErrCode>(ErrCode::UnAuthorized),
                Some(u) => r matches Ok(p) && p.id == id && p.user_id == u.id && p.title == req.title
                    && p.content == req.content && p.status == req.status && p.created_at == req.created_at,
            }
        },
{
    can_access(registry, user, PermissionPoints::EditPost)?;
    if id <= 0 {
        return Err(ErrCode::InputArgsError);
    }
    let mut post = req;
    post.id = id;
    let author = match user {
        Some(u) => u.id,
        None => return Err(ErrCode::UnAuthorized),
    };
    post.user_id = author;
    Ok(post)
}

/// The signed-in user, or `UnAuthorized` when nobody is signed in.
pub fn current_user(user: Option<CacheUser>) -> (r: Result<CacheUser, ErrCode>)
    ensures
        match user {
            Some(u) => r == Ok::<CacheUser, ErrCode>(u),
            None => r == Err::<CacheUser, ErrCode>(ErrCode::UnAuthorized),
        },
{
    match user {
        Some(u) => Ok(u),
        None => Err(ErrCode::UnAuthorized),
    }
}

/// Whose visible permissions to look up: the signed-in user's, or nobody's
/// (an empty list) when nobody is signed in.
pub fn visual_permission_subject(user: &Option<CacheUser>) -> (r: Option<i32>)
    ensures
        match user {
            Some(u) => r == Some(u.id),
            None => r is None,
        },
{
    match user {
        Some(u) => Some(u.id),
        None => None,
    }
}

} // verus!
