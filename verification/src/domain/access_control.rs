//! Role-based access control: permission codes `resource.action.scope`,
//! roles, the bindings of users to roles and of roles to permissions, and the
//! policy that decides a request.

use std::collections::BTreeMap;
use vstd::laws_cmp::obeys_cmp;
use vstd::prelude::*;

use crate::domain::error::DomainError;
use crate::domain::user::SystemUser;
use crate::text::{is_blank, lemma_lex_asymmetric, lemma_lex_irreflexive, lemma_lex_total, lemma_lex_transitive, lemma_trim_idempotent, lex_lt, str_equal, str_less, split, split_char, str_is_blank, trim, trim_str, views_of};

verus! {

/// A trimmed, non-empty code.
pub open spec fn is_code(s: Seq<char>) -> bool {
    trim(s) == s && s.len() > 0
}

/// Strictly increasing in `String` order, hence free of duplicates.
pub open spec fn strictly_sorted(s: Seq<Seq<char>>) -> bool {
    forall|i: int, j: int| 0 <= i < j < s.len() ==> lex_lt(s[i], s[j])
}

/// The three dot-separated parts of a permission code, if it has exactly three.
pub open spec fn parts_spec(s: Seq<char>) -> Option<(Seq<char>, Seq<char>, Seq<char>)> {
    let p = split(s, '.');
    if p.len() == 3 {
        Some((p[0], p[1], p[2]))
    } else {
        None
    }
}

/// A permission code such as `task.manage.own`.
#[derive(Debug, Clone, PartialEq, Eq, PartialOrd, Ord)]
pub struct PermissionCode(String);

impl View for PermissionCode {
    type V = Seq<char>;

    closed spec fn view(&self) -> Seq<char> {
        self.0@
    }
}

/// The parts of a permission code, borrowed from it.
#[derive(Debug, Clone, Copy)]
pub struct PermissionParts<'a> {
    pub resource: &'a str,
    pub action: &'a str,
    pub scope: &'a str,
}

impl<'a> View for PermissionParts<'a> {
    type V = (Seq<char>, Seq<char>, Seq<char>);

    open spec fn view(&self) -> (Seq<char>, Seq<char>, Seq<char>) {
        (self.resource@, self.action@, self.scope@)
    }
}

fn code_from(text: &str) -> (r: String)
    requires
        !is_blank(text@),
    ensures
        r@ == trim(text@),
        is_code(r@),
{
    let t = trim_str(text);
    proof {
        lemma_trim_idempotent(text@);
    }
    t.to_owned()
}

fn code_literal(text: &str) -> (r: String)
    ensures
        r@ == text@,
{
    text.to_owned()
}

impl PermissionCode {
    /// The code `code.trim()`; a blank code is refused.
    pub fn new(code: &str) -> (r: Result<Self, DomainError>)
        ensures
            is_blank(code@) ==> r == Err::<Self, DomainError>(DomainError::BlankPermissionCode),
            !is_blank(code@) ==> (r matches Ok(c) && c@ == trim(code@) && is_code(c@)),
    {
        if str_is_blank(code) {
            return Err(DomainError::BlankPermissionCode);
        }
        Ok(PermissionCode(code_from(code)))
    }

    pub fn as_str(&self) -> (r: &str)
        ensures
            r@ == self@,
    {
        self.0.as_str()
    }

    fn duplicate(&self) -> (r: Self)
        ensures
            r@ == self@,
    {
        PermissionCode(self.0.clone())
    }

    pub fn user_read_own() -> (r: Self)
        ensures
            r@ == "user.read.own"@,
    {
        PermissionCode(code_literal("user.read.own"))
    }

    pub fn user_manage_own() -> (r: Self)
        ensures
            r@ == "user.manage.own"@,
    {
        PermissionCode(code_literal("user.manage.own"))
    }

    pub fn user_manage_global() -> (r: Self)
        ensures
            r@ == "user.manage.global"@,
    {
        PermissionCode(code_literal("user.manage.global"))
    }

    pub fn task_read_own() -> (r: Self)
        ensures
            r@ == "task.read.own"@,
    {
        PermissionCode(code_literal("task.read.own"))
    }

    pub fn task_manage_own() -> (r: Self)
        ensures
            r@ == "task.manage.own"@,
    {
        PermissionCode(code_literal("task.manage.own"))
    }

    pub fn task_manage_global() -> (r: Self)
        ensures
            r@ == "task.manage.global"@,
    {
        PermissionCode(code_literal("task.manage.global"))
    }

    pub fn session_read_own() -> (r: Self)
        ensures
            r@ == "session.read.own"@,
    {
        PermissionCode(code_literal("session.read.own"))
    }

    pub fn session_manage_own() -> (r: Self)
        ensures
            r@ == "session.manage.own"@,
    {
        PermissionCode(code_literal("session.manage.own"))
    }

    pub fn session_manage_global() -> (r: Self)
        ensures
            r@ == "session.manage.global"@,
    {
        PermissionCode(code_literal("session.manage.global"))
    }

    pub fn admin_read_global() -> (r: Self)
        ensures
            r@ == "admin.read.global"@,
    {
        PermissionCode(code_literal("admin.read.global"))
    }

    /// The `resource`, `action` and `scope` of a code with exactly two dots.
    pub fn parts(&self) -> (r: Option<PermissionParts<'_>>)
        ensures
            r is Some <==> parts_spec(self@) is Some,
            r matches Some(p) ==> Some(p@) == parts_spec(self@),
    {
        let pieces = split_char(self.0.as_str(), '.');
        if pieces.len() == 3 {
            let p = PermissionParts { resource: pieces[0], action: pieces[1], scope: pieces[2] };
            proof {
                assert(views_of(pieces@)[0] == pieces@[0]@);
                assert(views_of(pieces@)[1] == pieces@[1]@);
                assert(views_of(pieces@)[2] == pieces@[2]@);
            }
            Some(p)
        } else {
            None
        }
    }
}

/// A role code such as `admin`.
#[derive(Debug, Clone, PartialEq, Eq, PartialOrd, Ord)]
pub struct RoleCode(String);

impl View for RoleCode {
    type V = Seq<char>;

    closed spec fn view(&self) -> Seq<char> {
        self.0@
    }
}

impl RoleCode {
    /// The code `code.trim()`; a blank code is refused.
    pub fn new(code: &str) -> (r: Result<Self, DomainError>)
        ensures
            is_blank(code@) ==> r == Err::<Self, DomainError>(DomainError::BlankRoleCode),
            !is_blank(code@) ==> (r matches Ok(c) && c@ == trim(code@) && is_code(c@)),
    {
        if str_is_blank(code) {
            return Err(DomainError::BlankRoleCode);
        }
        Ok(RoleCode(code_from(code)))
    }

    pub fn as_str(&self) -> (r: &str)
        ensures
            r@ == self@,
    {
        self.0.as_str()
    }

    fn duplicate(&self) -> (r: Self)
        ensures
            r@ == self@,
    {
        RoleCode(self.0.clone())
    }

    pub fn super_admin() -> (r: Self)
        ensures
            r@ == "super_admin"@,
    {
        RoleCode(code_literal("super_admin"))
    }

    pub fn admin() -> (r: Self)
        ensures
            r@ == "admin"@,
    {
        RoleCode(code_literal("admin"))
    }

    pub fn user() -> (r: Self)
        ensures
            r@ == "user"@,
    {
        RoleCode(code_literal("user"))
    }
}

pub open spec fn role_views(v: Seq<RoleCode>) -> Seq<Seq<char>> {
    v.map_values(|r: RoleCode| r@)
}

pub open spec fn permission_views(v: Seq<PermissionCode>) -> Seq<Seq<char>> {
    v.map_values(|p: PermissionCode| p@)
}

/// Inserts `role` into a strictly sorted list unless it is there already.
fn insert_sorted(v: &mut Vec<RoleCode>, role: RoleCode)
    requires
        strictly_sorted(role_views(old(v)@)),
    ensures
        strictly_sorted(role_views(final(v)@)),
        role_views(final(v)@).to_set() == role_views(old(v)@).to_set().insert(role@),
{
    let ghost old_views = role_views(v@);
    let mut i: usize = 0;
    while i < v.len() && str_less(v[i].as_str(), role.as_str())
        invariant
            i <= v.len(),
            role_views(v@) == old_views,
            strictly_sorted(old_views),
            forall|k: int| 0 <= k < i ==> lex_lt(#[trigger] old_views[k], role@),
        decreases v.len() - i,
    {
        i = i + 1;
    }
    if i < v.len() && str_equal(v[i].as_str(), role.as_str()) {
        proof {
            assert(old_views[i as int] == role@);
            assert(old_views.to_set().insert(role@) =~= old_views.to_set());
        }
        return;
    }
    proof {
        if i < v.len() {
            lemma_lex_total(old_views[i as int], role@);
        }
    }
    let ghost rv = role@;
    v.insert(i, role);
    proof {
        let nv = role_views(v@);
        assert(nv =~= old_views.insert(i as int, rv));
        assert forall|a: int, b: int| 0 <= a < b < nv.len() implies lex_lt(nv[a], nv[b]) by {
            if b < i {
            } else if b == i {
            } else if a < i {
                if b > i + 1 {
                    lemma_lex_transitive(rv, old_views[i as int], old_views[b - 1]);
                }
                lemma_lex_transitive(nv[a], rv, nv[b]);
            } else if a == i {
                if b > i + 1 {
                    lemma_lex_transitive(rv, old_views[i as int], old_views[b - 1]);
                }
            } else {
            }
        }
        assert(nv.to_set() =~= old_views.to_set().insert(rv)) by {
            assert forall|x: Seq<char>| nv.to_set().contains(x) implies old_views.to_set().insert(
                rv,
            ).contains(x) by {
                let k = choose|k: int| 0 <= k < nv.len() && nv[k] == x;
                if k < i {
                    assert(old_views[k] == x);
                } else if k > i {
                    assert(old_views[k - 1] == x);
                }
            }
            assert forall|x: Seq<char>| old_views.to_set().insert(rv).contains(x) implies nv.to_set().contains(
                x,
            ) by {
                if x == rv {
                    assert(nv[i as int] == x);
                } else {
                    let k = choose|k: int| 0 <= k < old_views.len() && old_views[k] == x;
                    if k < i {
                        assert(nv[k] == x);
                    } else {
                        assert(nv[k + 1] == x);
                    }
                }
            }
        }
    }
}

/// Removes `role` from a strictly sorted list if it is there.
fn remove_sorted(v: &mut Vec<RoleCode>, role: &RoleCode)
    requires
        strictly_sorted(role_views(old(v)@)),
    ensures
        strictly_sorted(role_views(final(v)@)),
        role_views(final(v)@).to_set() == role_views(old(v)@).to_set().remove(role@),
{
    let ghost old_views = role_views(v@);
    let mut i: usize = 0;
    while i < v.len()
        invariant
            i <= v.len(),
            role_views(v@) == old_views,
            old_views == role_views(old(v)@),
            strictly_sorted(old_views),
            forall|k: int| 0 <= k < i ==> old_views[k] != role@,
        decreases v.len() - i,
    {
        if str_equal(v[i].as_str(), role.as_str()) {
            let ghost gone = v@[i as int];
            v.remove(i);
            proof {
                assert(old_views[i as int] == role@);
                let nv = role_views(v@);
                assert(nv =~= old_views.remove(i as int));
                assert forall|a: int, b: int| 0 <= a < b < nv.len() implies lex_lt(nv[a], nv[b]) by {
                    if a < i && b >= i {
                        assert(nv[b] == old_views[b + 1]);
                    } else if a >= i {
                        assert(nv[a] == old_views[a + 1]);
                        assert(nv[b] == old_views[b + 1]);
                    }
                }
                assert(nv.to_set() =~= old_views.to_set().remove(role@)) by {
                    assert forall|x: Seq<char>| nv.to_set().contains(x) implies old_views.to_set().remove(
                        role@,
                    ).contains(x) by {
                        let k = choose|k: int| 0 <= k < nv.len() && nv[k] == x;
                        if k < i {
                            assert(old_views[k] == x);
                        } else {
                            assert(old_views[k + 1] == x);
                            lemma_lex_irreflexive(role@);
                            assert(lex_lt(old_views[i as int], old_views[k + 1]));
                            assert(x != role@);
                        }
                    }
                    assert forall|x: Seq<char>| old_views.to_set().remove(role@).contains(x) implies nv.to_set().contains(
                        x,
                    ) by {
                        let k = choose|k: int| 0 <= k < old_views.len() && old_views[k] == x;
                        if k < i {
                            assert(nv[k] == x);
                        } else {
                            assert(k != i);
                            assert(nv[k - 1] == x);
                        }
                    }
                }
            }
            return;
        }
        i = i + 1;
    }
    proof {
        assert(old_views.to_set().remove(role@) =~= old_views.to_set());
    }
}

/// The roles bound to each user, by user ID.
///
/// Each user's roles are kept in increasing order, each once.
#[derive(Debug, Clone)]
pub struct UserRoleBindings {
    inner: BTreeMap<u128, Vec<RoleCode>>,
}

/// User IDs are ordered as `u128` is.
proof fn lemma_user_ids_ordered()
    ensures
        obeys_cmp::<u128>(),
{
    broadcast use vstd::laws_cmp::group_laws_cmp;
}

impl UserRoleBindings {
    pub closed spec fn wf(&self) -> bool {
        forall|id: u128|
            #[trigger] self.inner@.contains_key(id) ==> strictly_sorted(role_views(self.inner@[id]@))
    }

    /// The roles of user `id`, in increasing order (empty if none).
    pub closed spec fn roles_view(&self, id: u128) -> Seq<Seq<char>> {
        if self.inner@.contains_key(id) {
            role_views(self.inner@[id]@)
        } else {
            Seq::empty()
        }
    }

    /// The roles of a user are held in increasing order, each once.
    pub proof fn lemma_roles_sorted(&self, id: u128)
        requires
            self.wf(),
        ensures
            strictly_sorted(self.roles_view(id)),
    {
    }

    /// No user has a role.
    pub fn empty() -> (r: Self)
        ensures
            r.wf(),
            forall|id: u128| r.roles_view(id) == Seq::<Seq<char>>::empty(),
    {
        let r = UserRoleBindings { inner: BTreeMap::new() };
        proof {
            assert(r.inner@ =~= Map::<u128, Vec<RoleCode>>::empty());
        }
        r
    }

    /// The roles of `user`, in increasing order.
    pub fn roles_of(&self, user: &SystemUser) -> (r: Vec<RoleCode>)
        requires
            self.wf(),
        ensures
            role_views(r@) == self.roles_view(user.id_spec()),
    {
        proof {
            lemma_user_ids_ordered();
        }
        let id = user.id();
        let mut r: Vec<RoleCode> = Vec::new();
        match self.inner.get(&id) {
            None => {
                proof {
                    assert(role_views(r@) =~= Seq::<Seq<char>>::empty());
                }
            },
            Some(roles) => {
                let mut k: usize = 0;
                while k < roles.len()
                    invariant
                        k <= roles@.len(),
                        role_views(r@) == role_views(roles@).take(k as int),
                    decreases roles@.len() - k,
                {
                    let ghost before = role_views(r@);
                    r.push(roles[k].duplicate());
                    proof {
                        assert(role_views(r@) =~= before.push(roles@[k as int]@));
                        assert(role_views(roles@).take(k + 1) =~= role_views(roles@).take(
                            k as int,
                        ).push(roles@[k as int]@));
                    }
                    k = k + 1;
                }
                proof {
                    assert(role_views(roles@).take(k as int) =~= role_views(roles@));
                }
            },
        }
        r
    }

    /// Binds `role` to `user`.
    pub fn grant(&mut self, user: &SystemUser, role: RoleCode)
        requires
            old(self).wf(),
        ensures
            final(self).wf(),
            granted(*old(self), *final(self), user.id_spec(), role@),
    {
        proof {
            lemma_user_ids_ordered();
        }
        let id = user.id();
        let ghost before = *self;
        let mut roles = match self.inner.remove(&id) {
            Some(roles) => roles,
            None => Vec::new(),
        };
        proof {
            assert(role_views(roles@) =~= before.roles_view(id));
        }
        insert_sorted(&mut roles, role);
        self.inner.insert(id, roles);
        proof {
            assert forall|x: u128| x != id implies self.roles_view(x) == before.roles_view(x) by {
                assert(self.inner@.contains_key(x) == before.inner@.contains_key(x));
            }
        }
    }

    /// Unbinds `role` from `user`.
    pub fn revoke(&mut self, user: &SystemUser, role: &RoleCode)
        requires
            old(self).wf(),
        ensures
            final(self).wf(),
            revoked(*old(self), *final(self), user.id_spec(), role@),
    {
        proof {
            lemma_user_ids_ordered();
        }
        let id = user.id();
        let ghost before = *self;
        match self.inner.remove(&id) {
            None => {
                proof {
                    assert(self.inner@ =~= before.inner@);
                    assert(before.roles_view(id).to_set() =~= Set::<Seq<char>>::empty());
                    assert(before.roles_view(id).to_set().remove(role@) =~= Set::empty());
                }
            },
            Some(roles) => {
                let mut roles = roles;
                remove_sorted(&mut roles, role);
                self.inner.insert(id, roles);
                proof {
                    assert forall|x: u128| x != id implies self.roles_view(x) == before.roles_view(
                        x,
                    ) by {
                        assert(self.inner@.contains_key(x) == before.inner@.contains_key(x));
                    }
                }
            },
        }
    }
}

/// `after` is `before` with `role` bound to user `id`: that user's roles gain
/// `role`, every other user's roles are unchanged.
pub open spec fn granted(before: UserRoleBindings, after: UserRoleBindings, id: u128, role: Seq<char>) -> bool {
    &&& after.roles_view(id).to_set() == before.roles_view(id).to_set().insert(role)
    &&& forall|x: u128| x != id ==> after.roles_view(x) == before.roles_view(x)
}

/// `after` is `before` with `role` unbound from user `id`.
pub open spec fn revoked(before: UserRoleBindings, after: UserRoleBindings, id: u128, role: Seq<char>) -> bool {
    &&& after.roles_view(id).to_set() == before.roles_view(id).to_set().remove(role)
    &&& forall|x: u128| x != id ==> after.roles_view(x) == before.roles_view(x)
}

/// The permissions of the roles of the MVP role catalogue, in increasing order.
pub open spec fn mvp_permissions(role: Seq<char>) -> Seq<Seq<char>> {
    if role == "super_admin"@ {
        seq![
            "admin.read.global"@,
            "session.manage.global"@,
            "task.manage.global"@,
            "user.manage.global"@,
        ]
    } else if role == "admin"@ {
        seq!["session.manage.global"@, "task.manage.global"@, "user.manage.global"@]
    } else if role == "user"@ {
        seq![
            "session.manage.own"@,
            "session.read.own"@,
            "task.manage.own"@,
            "task.read.own"@,
            "user.manage.own"@,
        ]
    } else {
        Seq::empty()
    }
}

/// The permissions granted to each role.
///
/// Each role appears at most once; each role's permissions are kept in
/// increasing order.
#[derive(Debug, Clone)]
pub struct RolePermissions {
    inner: Vec<(RoleCode, Vec<PermissionCode>)>,
}

impl RolePermissions {
    pub closed spec fn wf(&self) -> bool {
        &&& forall|a: int, b: int|
            0 <= a < b < self.inner@.len() ==> self.inner@[a].0@ != self.inner@[b].0@
        &&& forall|a: int|
            0 <= a < self.inner@.len() ==> strictly_sorted(
                permission_views(#[trigger] self.inner@[a].1@),
            )
    }

    /// The permissions of `role`, in increasing order (empty if none).
    pub closed spec fn permissions_view(&self, role: Seq<char>) -> Seq<Seq<char>> {
        if exists|a: int| 0 <= a < self.inner@.len() && self.inner@[a].0@ == role {
            let a = choose|a: int| 0 <= a < self.inner@.len() && self.inner@[a].0@ == role;
            permission_views(self.inner@[a].1@)
        } else {
            Seq::empty()
        }
    }

    /// The permissions of a role are held in increasing order, each once.
    pub proof fn lemma_permissions_sorted(&self, role: Seq<char>)
        requires
            self.wf(),
        ensures
            strictly_sorted(self.permissions_view(role)),
    {
    }

    /// The MVP catalogue: `super_admin` manages users, tasks and sessions
    /// globally and reads the administration globally; `admin` manages users,
    /// tasks and sessions globally; `user` reads and manages its own tasks and
    /// sessions and manages its own user.
    pub fn default_mvp() -> (r: Self)
        ensures
            r.wf(),
            forall|role: Seq<char>| #[trigger] r.permissions_view(role) == mvp_permissions(role),
    {
        let super_admin = vec![
            PermissionCode::admin_read_global(),
            PermissionCode::session_manage_global(),
            PermissionCode::task_manage_global(),
            PermissionCode::user_manage_global(),
        ];
        let admin = vec![
            PermissionCode::session_manage_global(),
            PermissionCode::task_manage_global(),
            PermissionCode::user_manage_global(),
        ];
        let user = vec![
            PermissionCode::session_manage_own(),
            PermissionCode::session_read_own(),
            PermissionCode::task_manage_own(),
            PermissionCode::task_read_own(),
            PermissionCode::user_manage_own(),
        ];
        let inner = vec![
            (RoleCode::admin(), admin),
            (RoleCode::super_admin(), super_admin),
            (RoleCode::user(), user),
        ];
        let r = RolePermissions { inner };
        proof {
            reveal_strlit("admin");
            reveal_strlit("super_admin");
            reveal_strlit("user");
            reveal_strlit("admin.read.global");
            reveal_strlit("session.manage.global");
            reveal_strlit("task.manage.global");
            reveal_strlit("user.manage.global");
            reveal_strlit("session.manage.own");
            reveal_strlit("session.read.own");
            reveal_strlit("task.manage.own");
            reveal_strlit("task.read.own");
            reveal_strlit("user.manage.own");
            assert("admin"@[0] != "super_admin"@[0]);
            assert("admin"@ != "super_admin"@);
            assert("admin"@[0] != "user"@[0]);
            assert("admin"@ != "user"@);
            assert("super_admin"@ != "user"@);
            let sa = permission_views(r.inner@[1].1@);
            let ad = permission_views(r.inner@[0].1@);
            let us = permission_views(r.inner@[2].1@);
            assert(sa =~= mvp_permissions("super_admin"@));
            assert(ad =~= mvp_permissions("admin"@));
            assert(us =~= mvp_permissions("user"@));
            reveal_with_fuel(lex_lt, 10);
            assert(strictly_sorted(sa));
            assert(strictly_sorted(ad));
            assert(lex_lt(us[0], us[1]));
            assert(lex_lt(us[2], us[3]));
            assert(strictly_sorted(us)) by {
                assert forall|i: int, j: int| 0 <= i < j < us.len() implies lex_lt(us[i], us[j]) by {
                    if i == 0 && j >= 2 {
                        lemma_lex_transitive(us[0], us[1], us[j]);
                    }
                    if i == 1 && j >= 3 {
                        lemma_lex_transitive(us[1], us[2], us[j]);
                    }
                }
            }
            assert(r.inner@[0].0@ == "admin"@);
            assert(r.inner@[1].0@ == "super_admin"@);
            assert(r.inner@[2].0@ == "user"@);
            assert("admin"@ != "super_admin"@);
            assert("admin"@ != "user"@);
            assert("super_admin"@ != "user"@);
            assert forall|role: Seq<char>| #[trigger] r.permissions_view(role) == mvp_permissions(
                role,
            ) by {
                if role == "admin"@ {
                    assert(r.inner@[0].0@ == role);
                } else if role == "super_admin"@ {
                    assert(r.inner@[1].0@ == role);
                } else if role == "user"@ {
                    assert(r.inner@[2].0@ == role);
                } else {
                    assert(!(exists|a: int| 0 <= a < r.inner@.len() && r.inner@[a].0@ == role));
                }
            }
        }
        r
    }

    /// The permissions of `role`, in increasing order.
    pub fn permissions_of(&self, role: &RoleCode) -> (r: Vec<PermissionCode>)
        requires
            self.wf(),
        ensures
            permission_views(r@) == self.permissions_view(role@),
    {
        let mut a: usize = 0;
        while a < self.inner.len()
            invariant
                self.wf(),
                a <= self.inner@.len(),
                forall|b: int| 0 <= b < a ==> self.inner@[b].0@ != role@,
            decreases self.inner@.len() - a,
        {
            if str_equal(self.inner[a].0.as_str(), role.as_str()) {
                proof {
                    assert(self.permissions_view(role@) == permission_views(self.inner@[a as int].1@));
                }
                let perms = &self.inner[a].1;
                let mut r: Vec<PermissionCode> = Vec::new();
                let mut k: usize = 0;
                while k < perms.len()
                    invariant
                        k <= perms@.len(),
                        permission_views(r@) == permission_views(perms@).take(k as int),
                    decreases perms@.len() - k,
                {
                    let ghost before = permission_views(r@);
                    r.push(perms[k].duplicate());
                    proof {
                        assert(permission_views(r@) =~= before.push(perms@[k as int]@));
                        assert(permission_views(perms@).take(k + 1) =~= permission_views(
                            perms@,
                        ).take(k as int).push(perms@[k as int]@));
                    }
                    k = k + 1;
                }
                proof {
                    assert(permission_views(perms@).take(k as int) =~= permission_views(perms@));
                }
                return r;
            }
            a = a + 1;
        }
        let r: Vec<PermissionCode> = Vec::new();
        proof {
            assert(permission_views(r@) =~= Seq::<Seq<char>>::empty());
        }
        r
    }
}

/// What a request is about, with the user that owns it where there is one.
#[derive(Debug, Clone, Copy, PartialEq, Eq, Structural)]
pub enum ResourceRef {
    Task { owner_user_id: Option<u128> },
    Session { owner_user_id: Option<u128> },
    SchoolUser { owner_user_id: Option<u128> },
    User { target_user_id: u128 },
    Admin,
}

/// A permission needed on a resource.
#[derive(Debug, Clone)]
pub struct AccessRequest {
    need: PermissionCode,
    resource: ResourceRef,
}

impl AccessRequest {
    pub closed spec fn need_spec(&self) -> Seq<char> {
        self.need@
    }

    pub closed spec fn resource_spec(&self) -> ResourceRef {
        self.resource
    }

    pub fn new(need: PermissionCode, resource: ResourceRef) -> (r: Self)
        ensures
            r.need_spec() == need@,
            r.resource_spec() == resource,
    {
        AccessRequest { need, resource }
    }

    pub fn need(&self) -> (r: &PermissionCode)
        ensures
            r@ == self.need_spec(),
    {
        &self.need
    }

    pub fn resource(&self) -> (r: &ResourceRef)
        ensures
            *r == self.resource_spec(),
    {
        &self.resource
    }
}

/// Whether a granted permission with parts `g` covers a needed one with parts
/// `n`: the resource matches or is `*`; the action matches, is `manage` or
/// is `*`; the scope is `*`, matches, or is `global` where `own` is needed.
pub open spec fn implies_spec(
    g: (Seq<char>, Seq<char>, Seq<char>),
    n: (Seq<char>, Seq<char>, Seq<char>),
) -> bool {
    &&& (g.0 == n.0 || g.0 == "*"@)
    &&& (g.1 == n.1 || g.1 == "manage"@ || g.1 == "*"@)
    &&& (g.2 == "*"@ || (g.2 == "global"@ && (n.2 == "global"@ || n.2 == "own"@)) || g.2 == n.2)
}

/// Whether the granted permission code `p` covers the needed parts `n`.
pub open spec fn permission_covers(p: Seq<char>, n: (Seq<char>, Seq<char>, Seq<char>)) -> bool {
    parts_spec(p) matches Some(g) && implies_spec(g, n)
}

/// Whether the role with permissions `perms` covers the needed parts `n`.
pub open spec fn role_covers(perms: Seq<Seq<char>>, n: (Seq<char>, Seq<char>, Seq<char>)) -> bool {
    exists|j: int| 0 <= j < perms.len() && permission_covers(#[trigger] perms[j], n)
}

/// Whether user `uid` may act on `resource` with the scope of `need`: a
/// `global` or `*` scope allows any resource; an `own` scope allows only a
/// resource that names `uid` as its owner or target, never the
/// administration; any other scope, or a malformed code, allows nothing.
pub open spec fn scope_allows_spec(uid: u128, need: Seq<char>, resource: ResourceRef) -> bool {
    match parts_spec(need) {
        None => false,
        Some(n) => if n.2 == "global"@ || n.2 == "*"@ {
            true
        } else if n.2 == "own"@ {
            match resource {
                ResourceRef::Task { owner_user_id } => owner_user_id == Some(uid),
                ResourceRef::Session { owner_user_id } => owner_user_id == Some(uid),
                ResourceRef::SchoolUser { owner_user_id } => owner_user_id == Some(uid),
                ResourceRef::User { target_user_id } => target_user_id == uid,
                ResourceRef::Admin => false,
            }
        } else {
            false
        },
    }
}

/// The decision of the access policy: the needed code is well formed, its
/// scope constraint holds, and one of the user's roles (`roles`) has a
/// permission in `rp` that covers it.
pub open spec fn can_spec(
    uid: u128,
    need: Seq<char>,
    resource: ResourceRef,
    rp: RolePermissions,
    roles: Seq<Seq<char>>,
) -> bool {
    match parts_spec(need) {
        None => false,
        Some(n) => scope_allows_spec(uid, need, resource) && exists|i: int|
            0 <= i < roles.len() && role_covers(rp.permissions_view(#[trigger] roles[i]), n),
    }
}

/// The access policy.
pub struct AccessPolicy;

impl AccessPolicy {
    /// Whether `user` may make `req` given the role catalogue and bindings.
    pub fn can(
        user: &SystemUser,
        req: &AccessRequest,
        role_permissions: &RolePermissions,
        user_role_bindings: &UserRoleBindings,
    ) -> (r: bool)
        requires
            role_permissions.wf(),
            user_role_bindings.wf(),
        ensures
            r == can_spec(
                user.id_spec(),
                req.need_spec(),
                req.resource_spec(),
                *role_permissions,
                user_role_bindings.roles_view(user.id_spec()),
            ),
    {
        let needed = match req.need().parts() {
            Some(parts) => parts,
            None => return false,
        };
        let ghost n = needed@;
        let ghost uid = user.id_spec();
        let roles = user_role_bindings.roles_of(user);
        let ghost rv = role_views(roles@);
        let mut i: usize = 0;
        while i < roles.len()
            invariant
                i <= roles@.len(),
                rv == role_views(roles@),
                rv == user_role_bindings.roles_view(uid),
                uid == user.id_spec(),
                role_permissions.wf(),
                needed@ == n,
                parts_spec(req.need_spec()) == Some(n),
                forall|k: int|
                    0 <= k < i ==> !(scope_allows_spec(uid, req.need_spec(), req.resource_spec())
                        && role_covers(role_permissions.permissions_view(#[trigger] rv[k]), n)),
            decreases roles@.len() - i,
        {
            let perms = role_permissions.permissions_of(&roles[i]);
            let ghost pv = permission_views(perms@);
            let mut j: usize = 0;
            while j < perms.len()
                invariant
                    j <= perms@.len(),
                    i < roles@.len(),
                    rv == role_views(roles@),
                    rv == user_role_bindings.roles_view(uid),
                    uid == user.id_spec(),
                    pv == permission_views(perms@),
                    pv == role_permissions.permissions_view(roles@[i as int]@),
                    needed@ == n,
                    parts_spec(req.need_spec()) == Some(n),
                    forall|m: int|
                        0 <= m < j ==> !(scope_allows_spec(uid, req.need_spec(), req.resource_spec())
                            && permission_covers(#[trigger] pv[m], n)),
                decreases perms@.len() - j,
            {
                let allowed = match perms[j].parts() {
                    Some(grant) => Self::permission_implies(grant, needed)
                        && Self::scope_constraint_allows(user, req),
                    None => false,
                };
                if allowed {
                    proof {
                        assert(permission_covers(pv[j as int], n));
                        assert(rv[i as int] == roles@[i as int]@);
                    }
                    return true;
                }
                j = j + 1;
            }
            proof {
                assert(rv[i as int] == roles@[i as int]@);
            }
            i = i + 1;
        }
        false
    }

    /// `Ok(())` when `user` may make `req`, `PermissionDenied` otherwise.
    pub fn enforce(
        user: &SystemUser,
        req: &AccessRequest,
        role_permissions: &RolePermissions,
        user_role_bindings: &UserRoleBindings,
    ) -> (r: Result<(), DomainError>)
        requires
            role_permissions.wf(),
            user_role_bindings.wf(),
        ensures
            r is Ok <==> can_spec(
                user.id_spec(),
                req.need_spec(),
                req.resource_spec(),
                *role_permissions,
                user_role_bindings.roles_view(user.id_spec()),
            ),
            r is Err ==> r == Err::<(), DomainError>(DomainError::PermissionDenied),
    {
        if Self::can(user, req, role_permissions, user_role_bindings) {
            Ok(())
        } else {
            Err(DomainError::PermissionDenied)
        }
    }

    fn permission_implies(grant: PermissionParts<'_>, need: PermissionParts<'_>) -> (r: bool)
        ensures
            r == implies_spec(grant@, need@),
    {
        let resource_match = str_equal(grant.resource, need.resource) || str_equal(
            grant.resource,
            "*",
        );
        let action_match = str_equal(grant.action, need.action) || str_equal(grant.action, "manage")
            || str_equal(grant.action, "*");
        let scope_match = str_equal(grant.scope, "*") || (str_equal(grant.scope, "global") && (
        str_equal(need.scope, "global") || str_equal(need.scope, "own"))) || str_equal(
            grant.scope,
            need.scope,
        );
        resource_match && action_match && scope_match
    }

    fn scope_constraint_allows(user: &SystemUser, req: &AccessRequest) -> (r: bool)
        ensures
            r == scope_allows_spec(user.id_spec(), req.need_spec(), req.resource_spec()),
    {
        let needed = match req.need().parts() {
            Some(parts) => parts,
            None => return false,
        };
        if str_equal(needed.scope, "global") || str_equal(needed.scope, "*") {
            true
        } else if str_equal(needed.scope, "own") {
            let id = user.id();
            match req.resource() {
                ResourceRef::Task { owner_user_id } => match owner_user_id {
                    Some(o) => *o == id,
                    None => false,
                },
                ResourceRef::Session { owner_user_id } => match owner_user_id {
                    Some(o) => *o == id,
                    None => false,
                },
                ResourceRef::SchoolUser { owner_user_id } => match owner_user_id {
                    Some(o) => *o == id,
                    None => false,
                },
                ResourceRef::User { target_user_id } => *target_user_id == id,
                ResourceRef::Admin => false,
            }
        } else {
            false
        }
    }
}

/// Two strictly increasing sequences with the same elements are equal.
pub proof fn lemma_sorted_unique(a: Seq<Seq<char>>, b: Seq<Seq<char>>)
    requires
        strictly_sorted(a),
        strictly_sorted(b),
        a.to_set() == b.to_set(),
    ensures
        a == b,
    decreases a.len(),
{
    if a.len() == 0 {
        if b.len() > 0 {
            assert(b.to_set().contains(b[0]));
        }
        assert(a =~= b);
    } else {
        assert(a.to_set().contains(a[0]));
        assert(b.len() > 0);
        assert(b.to_set().contains(b[0]));
        if a[0] != b[0] {
            let j = choose|j: int| 0 <= j < b.len() && b[j] == a[0];
            let k = choose|k: int| 0 <= k < a.len() && a[k] == b[0];
            assert(lex_lt(b[0], a[0]));
            assert(lex_lt(a[0], b[0]));
            lemma_lex_asymmetric(a[0], b[0]);
        }
        let a1 = a.drop_first();
        let b1 = b.drop_first();
        assert(a1.to_set() =~= b1.to_set()) by {
            assert forall|x: Seq<char>| a1.to_set().contains(x) implies b1.to_set().contains(x) by {
                let k = choose|k: int| 0 <= k < a1.len() && a1[k] == x;
                assert(a[k + 1] == x);
                assert(b.to_set().contains(x));
                let j = choose|j: int| 0 <= j < b.len() && b[j] == x;
                if j == 0 {
                    assert(lex_lt(a[0], a[k + 1]));
                    lemma_lex_irreflexive(x);
                }
                assert(b1[j - 1] == x);
            }
            assert forall|x: Seq<char>| b1.to_set().contains(x) implies a1.to_set().contains(x) by {
                let j = choose|j: int| 0 <= j < b1.len() && b1[j] == x;
                assert(b[j + 1] == x);
                assert(a.to_set().contains(x));
                let k = choose|k: int| 0 <= k < a.len() && a[k] == x;
                if k == 0 {
                    assert(lex_lt(b[0], b[j + 1]));
                    lemma_lex_irreflexive(x);
                }
                assert(a1[k - 1] == x);
            }
        }
        lemma_sorted_unique(a1, b1);
        assert(a =~= seq![a[0]] + a1);
        assert(b =~= seq![b[0]] + b1);
    }
}

/// Holding more roles never loses access: whatever a user may do with the
/// roles `fewer`, the user may do with any superset `more` of them.
pub proof fn lemma_more_roles_keep_access(
    uid: u128,
    need: Seq<char>,
    resource: ResourceRef,
    rp: RolePermissions,
    fewer: Seq<Seq<char>>,
    more: Seq<Seq<char>>,
)
    requires
        fewer.to_set().subset_of(more.to_set()),
        can_spec(uid, need, resource, rp, fewer),
    ensures
        can_spec(uid, need, resource, rp, more),
{
    let n = parts_spec(need)->0;
    let i = choose|i: int| 0 <= i < fewer.len() && role_covers(rp.permissions_view(#[trigger] fewer[i]), n);
    assert(fewer.to_set().contains(fewer[i]));
    let k = choose|k: int| 0 <= k < more.len() && more[k] == fewer[i];
    assert(role_covers(rp.permissions_view(more[k]), n));
}

/// Granting a role never takes away any user's access.
pub proof fn lemma_grant_keeps_access(
    before: UserRoleBindings,
    after: UserRoleBindings,
    granted_to: u128,
    role: Seq<char>,
    uid: u128,
    need: Seq<char>,
    resource: ResourceRef,
    rp: RolePermissions,
)
    requires
        granted(before, after, granted_to, role),
        can_spec(uid, need, resource, rp, before.roles_view(uid)),
    ensures
        can_spec(uid, need, resource, rp, after.roles_view(uid)),
{
    if uid == granted_to {
        lemma_more_roles_keep_access(uid, need, resource, rp, before.roles_view(uid), after.roles_view(uid));
    }
}

/// Revoking a role never gives any user access.
pub proof fn lemma_revoke_grants_nothing(
    before: UserRoleBindings,
    after: UserRoleBindings,
    revoked_from: u128,
    role: Seq<char>,
    uid: u128,
    need: Seq<char>,
    resource: ResourceRef,
    rp: RolePermissions,
)
    requires
        revoked(before, after, revoked_from, role),
        can_spec(uid, need, resource, rp, after.roles_view(uid)),
    ensures
        can_spec(uid, need, resource, rp, before.roles_view(uid)),
{
    if uid == revoked_from {
        lemma_more_roles_keep_access(uid, need, resource, rp, after.roles_view(uid), before.roles_view(uid));
    }
}

/// Revoking a role that was just granted, and not held before, restores
/// every user's roles exactly.
pub proof fn lemma_revoke_undoes_grant(
    b0: UserRoleBindings,
    b1: UserRoleBindings,
    b2: UserRoleBindings,
    id: u128,
    role: Seq<char>,
)
    requires
        b0.wf(),
        b2.wf(),
        granted(b0, b1, id, role),
        revoked(b1, b2, id, role),
        !b0.roles_view(id).contains(role),
    ensures
        forall|x: u128| #[trigger] b2.roles_view(x) == b0.roles_view(x),
{
    assert(b2.roles_view(id).to_set() =~= b0.roles_view(id).to_set());
    b0.lemma_roles_sorted(id);
    b2.lemma_roles_sorted(id);
    lemma_sorted_unique(b2.roles_view(id), b0.roles_view(id));
}

/// A permission covers itself.
pub proof fn lemma_implies_reflexive(n: (Seq<char>, Seq<char>, Seq<char>))
    ensures
        implies_spec(n, n),
{
}

/// Whatever covers a `global` need also covers the `own` need on the same
/// resource and action.
pub proof fn lemma_global_covers_own(g: (Seq<char>, Seq<char>, Seq<char>), resource: Seq<char>, action: Seq<char>)
    requires
        implies_spec(g, (resource, action, "global"@)),
    ensures
        implies_spec(g, (resource, action, "own"@)),
{
}

/// An `own`-scoped need is only ever allowed on a resource that the user
/// owns or is; never on the administration.
pub proof fn lemma_own_scope_needs_ownership(
    uid: u128,
    need: Seq<char>,
    resource: ResourceRef,
    rp: RolePermissions,
    roles: Seq<Seq<char>>,
)
    requires
        parts_spec(need) matches Some(n) && n.2 == "own"@,
        can_spec(uid, need, resource, rp, roles),
    ensures
        match resource {
            ResourceRef::Task { owner_user_id } => owner_user_id == Some(uid),
            ResourceRef::Session { owner_user_id } => owner_user_id == Some(uid),
            ResourceRef::SchoolUser { owner_user_id } => owner_user_id == Some(uid),
            ResourceRef::User { target_user_id } => target_user_id == uid,
            ResourceRef::Admin => false,
        },
{
    reveal_strlit("own");
    reveal_strlit("global");
    reveal_strlit("*");
    assert("own"@.len() != "global"@.len());
    assert("own"@.len() != "*"@.len());
}

/// A `manage` grant covers every action: whatever the grant with the needed
/// action itself would cover (same resource pattern, same scope), the grant
/// with action `manage` covers too.
pub proof fn lemma_manage_covers_every_action(
    resource: Seq<char>,
    scope: Seq<char>,
    n: (Seq<char>, Seq<char>, Seq<char>),
)
    requires
        implies_spec((resource, n.1, scope), n),
    ensures
        implies_spec((resource, "manage"@, scope), n),
{
}

/// A user one of whose roles holds a `manage` permission on the needed
/// resource, with the needed scope or `global` for an `own` or `global` need,
/// may take any action on it that the scope allows.
pub proof fn lemma_manage_role_allows_every_action(
    uid: u128,
    need: Seq<char>,
    resource: ResourceRef,
    rp: RolePermissions,
    roles: Seq<Seq<char>>,
    i: int,
    j: int,
)
    requires
        0 <= i < roles.len(),
        0 <= j < rp.permissions_view(roles[i]).len(),
        parts_spec(need) matches Some(n) && parts_spec(rp.permissions_view(roles[i])[j]) matches Some(g)
            && g.0 == n.0 && g.1 == "manage"@ && (g.2 == n.2 || (g.2 == "global"@ && n.2 == "own"@)),
        scope_allows_spec(uid, need, resource),
    ensures
        can_spec(uid, need, resource, rp, roles),
{
    let n = parts_spec(need)->0;
    assert(permission_covers(rp.permissions_view(roles[i])[j], n));
    assert(role_covers(rp.permissions_view(roles[i]), n));
}

/// A grant of `*` for resource, action and scope covers every permission.
pub proof fn lemma_wildcard_covers_all(n: (Seq<char>, Seq<char>, Seq<char>))
    ensures
        implies_spec(("*"@, "*"@, "*"@), n),
{
}

/// A grant covers only needs on its own resource, unless its resource is `*`.
pub proof fn lemma_grant_stays_on_its_resource(
    g: (Seq<char>, Seq<char>, Seq<char>),
    n: (Seq<char>, Seq<char>, Seq<char>),
)
    requires
        implies_spec(g, n),
        g.0 != "*"@,
    ensures
        g.0 == n.0,
{
}

} // verus!
