use vstd::prelude::*;
use std::collections::{HashMap, HashSet};
use crate::text::same_text;
use crate::dto::{CacheUser, RbacRolePermission};
use crate::response::ErrCode;

verus! {

/// The operations and screens that access control guards.
#[derive(Debug, Clone, Copy, PartialEq, Eq, Hash, Structural)]
pub enum PermissionPoints {
    ViewPostCreation,
    ViewPostEdit,
    ViewPostDetail,
    ViewPostDelete,
    CreatePost,
    EditPost,
    GetPost,
    DeletePost,
    ListPost,
    Unknown,
}

/// Name of the role that requests without a signed-in user act under.
pub const ANONYMOUS: &'static str = "Anonymous User";

/// The stored name of a permission point.
pub open spec fn permission_name(p: PermissionPoints) -> Seq<char> {
    match p {
        PermissionPoints::ViewPostCreation => "view_post_creation"@,
        PermissionPoints::ViewPostEdit => "view_post_edit"@,
        PermissionPoints::ViewPostDetail => "view_post_detail"@,
        PermissionPoints::ViewPostDelete => "view_post_delete"@,
        PermissionPoints::CreatePost => "create_post"@,
        PermissionPoints::EditPost => "edit_post"@,
        PermissionPoints::GetPost => "get_post"@,
        PermissionPoints::DeletePost => "delete_post"@,
        PermissionPoints::ListPost => "list_post"@,
        PermissionPoints::Unknown => "unknown"@,
    }
}

/// The permission point a stored name denotes; any other name is `Unknown`.
pub open spec fn permission_from_name(name: Seq<char>) -> PermissionPoints {
    if name == "view_post_creation"@ {
        PermissionPoints::ViewPostCreation
    } else if name == "view_post_edit"@ {
        PermissionPoints::ViewPostEdit
    } else if name == "view_post_detail"@ {
        PermissionPoints::ViewPostDetail
    } else if name == "view_post_delete"@ {
        PermissionPoints::ViewPostDelete
    } else if name == "create_post"@ {
        PermissionPoints::CreatePost
    } else if name == "edit_post"@ {
        PermissionPoints::EditPost
    } else if name == "get_post"@ {
        PermissionPoints::GetPost
    } else if name == "delete_post"@ {
        PermissionPoints::DeletePost
    } else if name == "list_post"@ {
        PermissionPoints::ListPost
    } else {
        PermissionPoints::Unknown
    }
}

proof fn lemma_permission_names_distinct()
    ensures
        "view_post_creation"@.len() == 18,
        "view_post_edit"@.len() == 14,
        "view_post_detail"@.len() == 16,
        "view_post_delete"@.len() == 16,
        "create_post"@.len() == 11,
        "edit_post"@.len() == 9,
        "get_post"@.len() == 8,
        "delete_post"@.len() == 11,
        "list_post"@.len() == 9,
        "unknown"@.len() == 7,
        "view_post_detail"@[12] == 't',
        "view_post_delete"@[12] == 'l',
        "create_post"@[0] == 'c',
        "delete_post"@[0] == 'd',
        "edit_post"@[0] == 'e',
        "list_post"@[0] == 'l',
{
    reveal_strlit("view_post_creation");
    reveal_strlit("view_post_edit");
    reveal_strlit("view_post_detail");
    reveal_strlit("view_post_delete");
    reveal_strlit("create_post");
    reveal_strlit("edit_post");
    reveal_strlit("get_post");
    reveal_strlit("delete_post");
    reveal_strlit("list_post");
    reveal_strlit("unknown");
}

/// Reading back the stored name of a permission point gives the same point.
pub proof fn lemma_permission_name_round_trip(p: PermissionPoints)
    ensures
        permission_from_name(permission_name(p)) == p,
{
    lemma_permission_names_distinct();
}

/// Each permission point is stored under its own name: the table below is
/// what `as_ref` writes and `from` reads, and any name outside it reads as
/// `Unknown`.
pub proof fn lemma_permission_names(name: Seq<char>)
    ensures
        permission_name(PermissionPoints::ViewPostCreation) == "view_post_creation"@,
        permission_name(PermissionPoints::ViewPostEdit) == "view_post_edit"@,
        permission_name(PermissionPoints::ViewPostDetail) == "view_post_detail"@,
        permission_name(PermissionPoints::ViewPostDelete) == "view_post_delete"@,
        permission_name(PermissionPoints::CreatePost) == "create_post"@,
        permission_name(PermissionPoints::EditPost) == "edit_post"@,
        permission_name(PermissionPoints::GetPost) == "get_post"@,
        permission_name(PermissionPoints::DeletePost) == "delete_post"@,
        permission_name(PermissionPoints::ListPost) == "list_post"@,
        permission_name(PermissionPoints::Unknown) == "unknown"@,
        permission_from_name("view_post_creation"@) == PermissionPoints::ViewPostCreation,
        permission_from_name("view_post_edit"@) == PermissionPoints::ViewPostEdit,
        permission_from_name("view_post_detail"@) == PermissionPoints::ViewPostDetail,
        permission_from_name("view_post_delete"@) == PermissionPoints::ViewPostDelete,
        permission_from_name("create_post"@) == PermissionPoints::CreatePost,
        permission_from_name("edit_post"@) == PermissionPoints::EditPost,
        permission_from_name("get_post"@) == PermissionPoints::GetPost,
        permission_from_name("delete_post"@) == PermissionPoints::DeletePost,
        permission_from_name("list_post"@) == PermissionPoints::ListPost,
        permission_from_name("unknown"@) == PermissionPoints::Unknown,
        (name != "view_post_creation"@ && name != "view_post_edit"@ && name != "view_post_detail"@ && name != "view_post_delete"@ && name != "create_post"@ && name != "edit_post"@ && name != "get_post"@ && name != "delete_post"@ && name != "list_post"@) ==> permission_from_name(name) == PermissionPoints::Unknown,
{
    lemma_permission_names_distinct();
}

impl From<String> for PermissionPoints {
    fn from(s: String) -> (r: Self) {
        proof {
            lemma_permission_names_distinct();
        }
        let t = s.as_str();
        if same_text(t, "view_post_creation") {
            PermissionPoints::ViewPostCreation
        } else if same_text(t, "view_post_edit") {
            PermissionPoints::ViewPostEdit
        } else if same_text(t, "view_post_detail") {
            PermissionPoints::ViewPostDetail
        } else if same_text(t, "view_post_delete") {
            PermissionPoints::ViewPostDelete
        } else if same_text(t, "create_post") {
            PermissionPoints::CreatePost
        } else if same_text(t, "edit_post") {
            PermissionPoints::EditPost
        } else if same_text(t, "get_post") {
            PermissionPoints::GetPost
        } else if same_text(t, "delete_post") {
            PermissionPoints::DeletePost
        } else if same_text(t, "list_post") {
            PermissionPoints::ListPost
        } else {
            PermissionPoints::Unknown
        }
    }
}

impl vstd::std_specs::convert::FromSpecImpl<String> for PermissionPoints {
    open spec fn obeys_from_spec() -> bool {
        true
    }

    open spec fn from_spec(v: String) -> Self {
        permission_from_name(v@)
    }
}

impl PermissionPoints {
    /// The stored name of this permission point.
    pub fn as_ref(&self) -> (r: &'static str)
        ensures
            r@ == permission_name(*self),
    {
        match self {
            PermissionPoints::ViewPostCreation => "view_post_creation",
            PermissionPoints::ViewPostEdit => "view_post_edit",
            PermissionPoints::ViewPostDetail => "view_post_detail",
            PermissionPoints::ViewPostDelete => "view_post_delete",
            PermissionPoints::CreatePost => "create_post",
            PermissionPoints::EditPost => "edit_post",
            PermissionPoints::GetPost => "get_post",
            PermissionPoints::DeletePost => "delete_post",
            PermissionPoints::ListPost => "list_post",
            PermissionPoints::Unknown => "unknown",
        }
    }
}

/// The key under which a permission point is kept in a registry.
pub open spec fn point_key(p: PermissionPoints) -> u8 {
    match p {
        PermissionPoints::ViewPostCreation => 0,
        PermissionPoints::ViewPostEdit => 1,
        PermissionPoints::ViewPostDetail => 2,
        PermissionPoints::ViewPostDelete => 3,
        PermissionPoints::CreatePost => 4,
        PermissionPoints::EditPost => 5,
        PermissionPoints::GetPost => 6,
        PermissionPoints::DeletePost => 7,
        PermissionPoints::ListPost => 8,
        PermissionPoints::Unknown => 9,
    }
}

impl PermissionPoints {
    /// The key under which this point is kept in a registry.
    pub fn key(&self) -> (r: u8)
        ensures
            r == point_key(*self),
    {
        match self {
            PermissionPoints::ViewPostCreation => 0,
            PermissionPoints::ViewPostEdit => 1,
            PermissionPoints::ViewPostDetail => 2,
            PermissionPoints::ViewPostDelete => 3,
            PermissionPoints::CreatePost => 4,
            PermissionPoints::EditPost => 5,
            PermissionPoints::GetPost => 6,
            PermissionPoints::DeletePost => 7,
            PermissionPoints::ListPost => 8,
            PermissionPoints::Unknown => 9,
        }
    }
}

/// Who may pass one permission point: the roles granted it, and whether
/// requests without a signed-in user may.
pub struct PermissionEntry {
    pub role_ids: HashSet<i32>,
    pub allow_anonymous: bool,
}

/// The grants of every permission point, loaded once at start-up and only
/// read afterwards.
pub struct PermissionRegistry {
    entries: HashMap<u8, PermissionEntry>,
}

/// The grants of one point: the granted role ids and whether anonymous
/// requests pass.
pub type Grant = (Set<i32>, bool);

impl View for PermissionRegistry {
    type V = Map<PermissionPoints, Grant>;

    closed spec fn view(&self) -> Map<PermissionPoints, Grant> {
        grants_of_entries(self.entries@)
    }
}

/// The grants that a table of entries, keyed by point key, describes.
pub open spec fn grants_of_entries(entries: Map<u8, PermissionEntry>) -> Map<PermissionPoints, Grant> {
    Map::new(
        |p: PermissionPoints| entries.contains_key(point_key(p)),
        |p: PermissionPoints|
            (entries[point_key(p)].role_ids@, entries[point_key(p)].allow_anonymous),
    )
}

/// Some stored grant is for point `p`.
pub open spec fn granted(rows: Seq<RbacRolePermission>, p: PermissionPoints) -> bool {
    exists|i: int| 0 <= i < rows.len() && (#[trigger] rows[i]).permission_name == p
}

/// The roles that the stored grants give point `p`.
pub open spec fn granted_roles(rows: Seq<RbacRolePermission>, p: PermissionPoints) -> Set<i32> {
    Set::new(
        |id: i32|
            exists|i: int|
                0 <= i < rows.len() && (#[trigger] rows[i]).permission_name == p && rows[i].id == id,
    )
}

/// Some stored grant gives point `p` to the anonymous role.
pub open spec fn anonymous_granted(rows: Seq<RbacRolePermission>, p: PermissionPoints) -> bool {
    exists|i: int|
        0 <= i < rows.len() && (#[trigger] rows[i]).permission_name == p && rows[i].role_name@
            == ANONYMOUS@
}

/// The registry that a list of stored grants describes.
pub open spec fn registry_of(rows: Seq<RbacRolePermission>) -> Map<PermissionPoints, Grant> {
    Map::new(
        |p: PermissionPoints| granted(rows, p),
        |p: PermissionPoints| (granted_roles(rows, p), anonymous_granted(rows, p)),
    )
}

proof fn lemma_point_key_injective()
    ensures
        forall|p: PermissionPoints, q: PermissionPoints|
            #[trigger] point_key(p) == #[trigger] point_key(q) ==> p == q,
{
}

proof fn lemma_registry_step(rows: Seq<RbacRolePermission>, i: int)
    requires
        0 <= i < rows.len(),
    ensures
        ({
            let prev = registry_of(rows.take(i));
            let row = rows[i];
            let p0 = row.permission_name;
            let old_grant: Grant = if prev.contains_key(p0) {
                prev[p0]
            } else {
                (Set::empty(), false)
            };
            registry_of(rows.take(i + 1)) == prev.insert(
                p0,
                (old_grant.0.insert(row.id), old_grant.1 || row.role_name@ == ANONYMOUS@),
            )
        }),
{
    let a = rows.take(i);
    let b = rows.take(i + 1);
    let row = rows[i];
    let p0 = row.permission_name;
    let prev = registry_of(a);
    let old_grant: Grant = if prev.contains_key(p0) {
        prev[p0]
    } else {
        (Set::empty(), false)
    };
    let expected = prev.insert(
        p0,
        (old_grant.0.insert(row.id), old_grant.1 || row.role_name@ == ANONYMOUS@),
    );
    assert(b[i] == row);
    assert forall|j: int| 0 <= j < i implies #[trigger] b[j] == a[j] by {}
    assert forall|p: PermissionPoints| #[trigger] granted(b, p) == (granted(a, p) || p == p0) by {
        if granted(b, p) {
            let j = choose|j: int| 0 <= j < b.len() && (#[trigger] b[j]).permission_name == p;
            if j < i {
                assert(a[j] == b[j]);
            }
        }
        if granted(a, p) {
            let j = choose|j: int| 0 <= j < a.len() && (#[trigger] a[j]).permission_name == p;
            assert(b[j] == a[j]);
        }
    }
    assert forall|p: PermissionPoints|
        #[trigger] anonymous_granted(b, p) == (anonymous_granted(a, p) || (p == p0
            && row.role_name@ == ANONYMOUS@)) by {
        if anonymous_granted(b, p) {
            let j = choose|j: int|
                0 <= j < b.len() && (#[trigger] b[j]).permission_name == p && b[j].role_name@
                    == ANONYMOUS@;
            if j < i {
                assert(a[j] == b[j]);
            }
        }
        if anonymous_granted(a, p) {
            let j = choose|j: int|
                0 <= j < a.len() && (#[trigger] a[j]).permission_name == p && a[j].role_name@
                    == ANONYMOUS@;
            assert(b[j] == a[j]);
        }
    }
    assert forall|p: PermissionPoints|
        #[trigger] granted_roles(b, p) == (if p == p0 {
            granted_roles(a, p).insert(row.id)
        } else {
            granted_roles(a, p)
        }) by {
        let rb = granted_roles(b, p);
        let ra = if p == p0 {
            granted_roles(a, p).insert(row.id)
        } else {
            granted_roles(a, p)
        };
        assert forall|id: i32| rb.contains(id) == ra.contains(id) by {
            if rb.contains(id) {
                let j = choose|j: int|
                    0 <= j < b.len() && (#[trigger] b[j]).permission_name == p && b[j].id == id;
                if j < i {
                    assert(a[j] == b[j]);
                    assert(granted_roles(a, p).contains(id));
                }
            }
            if granted_roles(a, p).contains(id) {
                let j = choose|j: int|
                    0 <= j < a.len() && (#[trigger] a[j]).permission_name == p && a[j].id == id;
                assert(b[j] == a[j]);
            }
            if p == p0 && id == row.id {
                assert(b[i].permission_name == p && b[i].id == id);
            }
        }
        assert(rb =~= ra);
    }
    if !prev.contains_key(p0) {
        assert(granted_roles(a, p0) =~= Set::<i32>::empty()) by {
            assert forall|id: i32| !granted_roles(a, p0).contains(id) by {
                if granted_roles(a, p0).contains(id) {
                    let j = choose|j: int|
                        0 <= j < a.len() && (#[trigger] a[j]).permission_name == p0 && a[j].id
                            == id;
                }
            }
        }
        assert(!anonymous_granted(a, p0));
    }
    assert(registry_of(b) =~= expected);
}

impl PermissionRegistry {
    /// A registry in which no point is granted to anyone.
    pub fn new() -> (r: Self)
        ensures
            r@ == Map::<PermissionPoints, Grant>::empty(),
    {
        let r = PermissionRegistry { entries: HashMap::new() };
        assert(r@ =~= Map::<PermissionPoints, Grant>::empty());
        r
    }

    /// The registry that the stored role grants describe: each point that
    /// some row names, with the ids of the rows naming it as its roles, and
    /// open to anonymous requests when one such row is for the anonymous
    /// role.
    pub fn from_role_permissions(rows: &Vec<RbacRolePermission>) -> (r: Self)
        ensures
            r@ == registry_of(rows@),
    {
        broadcast use vstd::std_specs::hash::group_hash_axioms;
        let mut entries: HashMap<u8, PermissionEntry> = HashMap::new();
        proof {
            lemma_point_key_injective();
            assert(grants_of_entries(entries@) =~= registry_of(rows@.take(0)));
        }
        let mut i: usize = 0;
        while i < rows.len()
            invariant
                0 <= i <= rows@.len(),
                grants_of_entries(entries@) == registry_of(rows@.take(i as int)),
            decreases rows@.len() - i,
        {
            let row = &rows[i];
            let k = row.permission_name.key();
            let is_anonymous = same_text(row.role_name.as_str(), ANONYMOUS);
            let ghost prev = grants_of_entries(entries@);
            let ghost old_entries = entries@;
            let entry = match entries.remove(&k) {
                Some(e) => {
                    let mut e = e;
                    e.role_ids.insert(row.id);
                    e.allow_anonymous = e.allow_anonymous || is_anonymous;
                    e
                },
                None => {
                    let mut ids = HashSet::new();
                    ids.insert(row.id);
                    PermissionEntry { role_ids: ids, allow_anonymous: is_anonymous }
                },
            };
            entries.insert(k, entry);
            proof {
                lemma_point_key_injective();
                lemma_registry_step(rows@, i as int);
                assert(entries@ == old_entries.insert(k, entry));
                assert(grants_of_entries(entries@) =~= registry_of(rows@.take(i + 1)));
            }
            i = i + 1;
        }
        proof {
            assert(rows@.take(rows@.len() as int) =~= rows@);
        }
        PermissionRegistry { entries }
    }

    /// The entry of a permission point, if it is granted at all.
    pub fn get(&self, p: PermissionPoints) -> (r: Option<&PermissionEntry>)
        ensures
            r is Some == self@.contains_key(p),
            r matches Some(e) ==> (e.role_ids@, e.allow_anonymous) == self@[p],
    {
        broadcast use vstd::std_specs::hash::group_hash_axioms;
        self.entries.get(&p.key())
    }
}

/// The role ids of the signed-in user, if any.
pub open spec fn user_roles(user: Option<CacheUser>) -> Option<Seq<i32>> {
    match user {
        Some(u) => Some(u.role_ids@),
        None => None,
    }
}

/// The requester passes a grant: some role of the signed-in user is
/// granted, or, with nobody signed in, anonymous requests are allowed.
pub open spec fn passes(grant: Grant, roles: Option<Seq<i32>>) -> bool {
    match roles {
        Some(rs) => holds_granted_role(grant.0, rs),
        None => grant.1,
    }
}

/// Some of the roles `rs` is among the granted roles.
pub open spec fn holds_granted_role(granted_ids: Set<i32>, rs: Seq<i32>) -> bool {
    exists|j: int| 0 <= j < rs.len() && granted_ids.contains(#[trigger] rs[j])
}

/// The answer of the access check: an internal error for a point that the
/// registry does not know, `Ok(true)` when the requester passes its grant,
/// and `UnPermission` otherwise.
pub open spec fn access_decision(
    registry: Map<PermissionPoints, Grant>,
    roles: Option<Seq<i32>>,
    p: PermissionPoints,
) -> Result<bool, ErrCode> {
    if !registry.contains_key(p) {
        Err(ErrCode::InternalError)
    } else if passes(registry[p], roles) {
        Ok(true)
    } else {
        Err(ErrCode::UnPermission)
    }
}

/// Checks whether the requester may pass permission point `operate`.
pub fn can_access(registry: &PermissionRegistry, user: &Option<CacheUser>, operate: PermissionPoints) -> (r: Result<bool, ErrCode>)
    ensures
        r == access_decision(registry@, user_roles(*user), operate),
        r != Ok::<bool, ErrCode>(false),
{
    broadcast use vstd::std_specs::hash::group_hash_axioms;
    let entry = match registry.get(operate) {
        Some(e) => e,
        None => return Err(ErrCode::InternalError),
    };
    let allowed = match user {
        Some(u) => {
            let mut found = false;
            let mut j: usize = 0;
            while j < u.role_ids.len()
                invariant
                    0 <= j <= u.role_ids@.len(),
                    found == exists|k: int| 0 <= k < j && entry.role_ids@.contains(#[trigger] u.role_ids@[k]),
                decreases u.role_ids@.len() - j,
            {
                if entry.role_ids.contains(&u.role_ids[j]) {
                    found = true;
                }
                j = j + 1;
            }
            assert(found == holds_granted_role(entry.role_ids@, u.role_ids@));
            found
        },
        None => entry.allow_anonymous,
    };
    if allowed {
        Ok(true)
    } else {
        Err(ErrCode::UnPermission)
    }
}

/// For a registry loaded from stored grants, the access check lets a
/// signed-in user through exactly when one of the user's roles has a stored
/// grant for the point, lets an anonymous request through exactly when the
/// anonymous role has one, answers `UnPermission` otherwise, and answers an
/// internal error for a point with no stored grant at all.
pub proof fn lemma_access_from_stored_grants(
    rows: Seq<RbacRolePermission>,
    roles: Option<Seq<i32>>,
    p: PermissionPoints,
)
    ensures
        access_decision(registry_of(rows), roles, p) == if !granted(rows, p) {
            Err(ErrCode::InternalError)
        } else if (match roles {
            Some(rs) => exists|i: int, j: int|
                0 <= i < rows.len() && 0 <= j < rs.len() && (#[trigger] rows[i]).permission_name
                    == p && rows[i].id == #[trigger] rs[j],
            None => anonymous_granted(rows, p),
        }) {
            Ok(true)
        } else {
            Err(ErrCode::UnPermission)
        },
{
    let reg = registry_of(rows);
    if granted(rows, p) {
        match roles {
            Some(rs) => {
                if passes(reg[p], roles) {
                    let j = choose|j: int| 0 <= j < rs.len() && reg[p].0.contains(#[trigger] rs[j]);
                    assert(granted_roles(rows, p).contains(rs[j]));
                    let i = choose|i: int|
                        0 <= i < rows.len() && (#[trigger] rows[i]).permission_name == p
                            && rows[i].id == rs[j];
                    assert(rows[i].id == rs[j]);
                }
                if exists|i: int, j: int|
                    0 <= i < rows.len() && 0 <= j < rs.len() && (#[trigger] rows[i]).permission_name
                        == p && rows[i].id == #[trigger] rs[j] {
                    let (i, j) = choose|i: int, j: int|
                        0 <= i < rows.len() && 0 <= j < rs.len()
                            && (#[trigger] rows[i]).permission_name == p && rows[i].id
                            == #[trigger] rs[j];
                    assert(granted_roles(rows, p).contains(rs[j]));
                    assert(reg[p].0.contains(rs[j]));
                }
            },
            None => {},
        }
    }
}

/// Giving a user more roles never takes an access away.
pub proof fn lemma_more_roles_keep_access(
    registry: Map<PermissionPoints, Grant>,
    fewer: Seq<i32>,
    more: Seq<i32>,
    p: PermissionPoints,
)
    requires
        forall|j: int| 0 <= j < fewer.len() ==> more.contains(#[trigger] fewer[j]),
        access_decision(registry, Some(fewer), p) == Ok::<bool, ErrCode>(true),
    ensures
        access_decision(registry, Some(more), p) == Ok::<bool, ErrCode>(true),
{
    let j = choose|j: int| 0 <= j < fewer.len() && registry[p].0.contains(#[trigger] fewer[j]);
    assert(more.contains(fewer[j]));
    let k = choose|k: int| 0 <= k < more.len() && more[k] == fewer[j];
    assert(registry[p].0.contains(more[k]));
    assert(holds_granted_role(registry[p].0, more));
}

} // verus!
