use ahut_dorm_sign::domain::access_control::{
    AccessPolicy, AccessRequest, PermissionCode, ResourceRef, RoleCode, RolePermissions,
    UserRoleBindings,
};
use ahut_dorm_sign::domain::error::DomainError;
use ahut_dorm_sign::domain::user::SystemUser;
use ahut_dorm_sign::time::TimeZone;

fn user(id: u128) -> SystemUser {
    SystemUser::new(id, "name".to_string(), TimeZone::from_name("Asia/Shanghai".to_string()).unwrap()).unwrap()
}

#[test]
fn codes_are_trimmed_and_non_blank() {
    assert_eq!(PermissionCode::new(" task.read.own ").unwrap().as_str(), "task.read.own");
    assert_eq!(PermissionCode::new("  ").unwrap_err(), DomainError::BlankPermissionCode);
    assert_eq!(RoleCode::new(" admin").unwrap().as_str(), "admin");
    assert_eq!(RoleCode::new("").unwrap_err(), DomainError::BlankRoleCode);
    let p = PermissionCode::task_manage_own();
    let parts = p.parts().unwrap();
    assert_eq!((parts.resource, parts.action, parts.scope), ("task", "manage", "own"));
    assert!(PermissionCode::new("a.b").unwrap().parts().is_none());
}

#[test]
fn a_user_may_act_on_what_it_owns_only() {
    let u = user(1);
    let mut b = UserRoleBindings::empty();
    b.grant(&u, RoleCode::user());
    let rp = RolePermissions::default_mvp();
    let own = AccessRequest::new(PermissionCode::task_read_own(), ResourceRef::Task { owner_user_id: Some(1) });
    let others = AccessRequest::new(PermissionCode::task_read_own(), ResourceRef::Task { owner_user_id: Some(2) });
    let global = AccessRequest::new(PermissionCode::task_manage_global(), ResourceRef::Admin);
    assert!(AccessPolicy::can(&u, &own, &rp, &b));
    assert!(!AccessPolicy::can(&u, &others, &rp, &b));
    assert_eq!(AccessPolicy::enforce(&u, &global, &rp, &b), Err(DomainError::PermissionDenied));
}

#[test]
fn an_admin_may_manage_globally_and_a_revoked_role_grants_nothing() {
    let u = user(5);
    let mut b = UserRoleBindings::empty();
    let rp = RolePermissions::default_mvp();
    let req = AccessRequest::new(PermissionCode::user_manage_global(), ResourceRef::User { target_user_id: 9 });
    assert!(!AccessPolicy::can(&u, &req, &rp, &b));
    b.grant(&u, RoleCode::admin());
    b.grant(&u, RoleCode::admin());
    assert_eq!(b.roles_of(&u).len(), 1);
    assert!(AccessPolicy::can(&u, &req, &rp, &b));
    assert_eq!(AccessPolicy::enforce(&u, &req, &rp, &b), Ok(()));
    b.revoke(&u, &RoleCode::admin());
    assert!(b.roles_of(&u).is_empty());
    assert!(!AccessPolicy::can(&u, &req, &rp, &b));
}

#[test]
fn role_catalogue_lists_the_default_permissions() {
    let rp = RolePermissions::default_mvp();
    let user_perms: Vec<String> = rp.permissions_of(&RoleCode::user()).iter().map(|p| p.as_str().to_string()).collect();
    assert_eq!(
        user_perms,
        vec!["session.manage.own", "session.read.own", "task.manage.own", "task.read.own", "user.manage.own"]
    );
    assert_eq!(rp.permissions_of(&RoleCode::super_admin()).len(), 4);
    assert_eq!(rp.permissions_of(&RoleCode::admin()).len(), 3);
    assert!(rp.permissions_of(&RoleCode::new("guest").unwrap()).is_empty());
}
