use blog_api::dto::{AddPostsReq, CacheUser, RbacRolePermission};
use blog_api::model::{Posts, PostsStatus};
use blog_api::posts::{current_user, posts_from_request, prepare_new_post, prepare_post_edit, visual_permission_subject};
use blog_api::rbac::{PermissionPoints, PermissionRegistry, ANONYMOUS};
use blog_api::response::ErrCode;

fn registry() -> PermissionRegistry {
    PermissionRegistry::from_role_permissions(&vec![
        RbacRolePermission { id: 1, role_name: "writer".to_string(), permission_name: PermissionPoints::CreatePost },
        RbacRolePermission { id: 1, role_name: "writer".to_string(), permission_name: PermissionPoints::EditPost },
        RbacRolePermission { id: 9, role_name: ANONYMOUS.to_string(), permission_name: PermissionPoints::CreatePost },
    ])
}

fn writer() -> Option<CacheUser> {
    Some(CacheUser { id: 77, username: "w".to_string(), email: "w@x.io".to_string(), created_at: None, last_login_time: None, role_ids: vec![1] })
}

fn draft() -> Posts {
    posts_from_request(AddPostsReq { title: "Hello".to_string(), content: "World".to_string() })
}

#[test]
fn post_from_request_defaults() {
    let p = draft();
    assert_eq!(p.id, 0);
    assert_eq!(p.title, "Hello");
    assert_eq!(p.content, "World");
    assert_eq!(p.user_id, 0);
    assert_eq!(p.status, PostsStatus::Published);
    assert!(p.created_at.is_none());
}

#[test]
fn new_post_gets_its_author() {
    let p = prepare_new_post(&registry(), &writer(), draft()).expect("allowed");
    assert_eq!(p.user_id, 77);
    assert_eq!(p.title, "Hello");
}

#[test]
fn anonymous_cannot_create_even_when_granted() {
    assert!(matches!(prepare_new_post(&registry(), &None, draft()), Err(ErrCode::UnAuthorized)));
}

#[test]
fn creation_needs_the_permission() {
    let other = Some(CacheUser { id: 5, username: "o".to_string(), email: "o@x.io".to_string(), created_at: None, last_login_time: None, role_ids: vec![2] });
    assert!(matches!(prepare_new_post(&registry(), &other, draft()), Err(ErrCode::UnPermission)));
    assert!(matches!(prepare_new_post(&PermissionRegistry::new(), &writer(), draft()), Err(ErrCode::InternalError)));
}

#[test]
fn edits() {
    let p = prepare_post_edit(&registry(), &writer(), draft(), 12).expect("allowed");
    assert_eq!(p.id, 12);
    assert_eq!(p.user_id, 77);
    assert!(matches!(prepare_post_edit(&registry(), &writer(), draft(), 0), Err(ErrCode::InputArgsError)));
    assert!(matches!(prepare_post_edit(&registry(), &None, draft(), 12), Err(ErrCode::UnPermission)));
}

#[test]
fn current_user_and_subjects() {
    assert!(matches!(current_user(None), Err(ErrCode::UnAuthorized)));
    assert_eq!(current_user(writer()).map(|u| u.id), Ok(77));
    assert_eq!(visual_permission_subject(&writer()), Some(77));
    assert_eq!(visual_permission_subject(&None), None);
}
