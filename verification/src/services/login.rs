//! The password login of the app API: its query and its headers.

use vstd::prelude::*;

use crate::constants::auth::{GRANT_TYPE, SCOPE, TENANT_ID, TYPE};
use crate::error::ServiceError;
use crate::text::valid_header_value;
use crate::utils::hash::{encode_md5, md5_hex};
use crate::utils::headers::{header_views, insert_header_str};

verus! {

/// The query of a login. `account_type` is sent as `type`.
#[derive(Debug)]
pub struct LoginRequest {
    /// The campus.
    pub tenant_id: String,
    /// The student number.
    pub username: String,
    /// The password, as sent.
    pub password: String,
    /// The account type.
    pub account_type: String,
    /// The OAuth grant.
    pub grant_type: String,
    /// The scope.
    pub scope: String,
}

impl LoginRequest {
    /// A login query with these fields.
    pub fn new(
        tenant_id: String,
        username: String,
        password: String,
        account_type: String,
        grant_type: String,
        scope: String,
    ) -> (r: Self)
        ensures
            r.tenant_id == tenant_id,
            r.username == username,
            r.password == password,
            r.account_type == account_type,
            r.grant_type == grant_type,
            r.scope == scope,
    {
        LoginRequest { tenant_id, username, password, account_type, grant_type, scope }
    }
}

impl Default for LoginRequest {
    /// The fixed login parameters, with an empty user name and password.
    fn default() -> (r: Self)
        ensures
            r.tenant_id@ == TENANT_ID@,
            r.username@ == Seq::<char>::empty(),
            r.password@ == Seq::<char>::empty(),
            r.account_type@ == TYPE@,
            r.grant_type@ == GRANT_TYPE@,
            r.scope@ == SCOPE@,
    {
        LoginRequest {
            tenant_id: TENANT_ID.to_string(),
            username: String::new(),
            password: String::new(),
            account_type: TYPE.to_string(),
            grant_type: GRANT_TYPE.to_string(),
            scope: SCOPE.to_string(),
        }
    }
}

/// The query of a login: the password is sent as its MD5 digest in
/// lowercase hex.
pub fn login_request(
    tenant_id: &str,
    username: &str,
    password: &str,
    account_type: &str,
    grant_type: &str,
    scope: &str,
) -> (r: LoginRequest)
    ensures
        r.tenant_id@ == tenant_id@,
        r.username@ == username@,
        r.password@ == md5_hex(password@),
        r.account_type@ == account_type@,
        r.grant_type@ == grant_type@,
        r.scope@ == scope@,
{
    LoginRequest {
        tenant_id: tenant_id.to_string(),
        username: username.to_string(),
        password: encode_md5(password),
        account_type: account_type.to_string(),
        grant_type: grant_type.to_string(),
        scope: scope.to_string(),
    }
}

/// Whether `e` is the login's refusal of a header value.
pub open spec fn is_login_header_error(e: ServiceError) -> bool {
    e matches ServiceError::InvalidRequest { service, msg } && service@ == "login"@ && msg@
        == "failed to parse header value"@
}

/// The headers of a login: the fixed authorization and the campus.
pub fn login_headers(authorization: &str, tenant_id: &str) -> (r: Result<
    Vec<(String, String)>,
    ServiceError,
>)
    ensures
        valid_header_value(authorization@) && valid_header_value(tenant_id@) ==> (r matches Ok(h)
            && header_views(h@) == seq![("authorization"@, authorization@), ("tenant-id"@, tenant_id@)]),
        !(valid_header_value(authorization@) && valid_header_value(tenant_id@)) ==> (r is Err
            && is_login_header_error(r->Err_0)),
{
    let mut headers: Vec<(String, String)> = Vec::new();
    proof {
        assert(header_views(headers@) =~= Seq::<(Seq<char>, Seq<char>)>::empty());
    }
    match insert_header_str(&mut headers, "authorization", authorization) {
        Ok(()) => {},
        Err(e) => return Err(ServiceError::InvalidRequest { service: "login", msg: e.message() }),
    }
    match insert_header_str(&mut headers, "tenant-id", tenant_id) {
        Ok(()) => {},
        Err(e) => return Err(ServiceError::InvalidRequest { service: "login", msg: e.message() }),
    }
    proof {
        assert(header_views(headers@) =~= seq![
            ("authorization"@, authorization@),
            ("tenant-id"@, tenant_id@),
        ]);
    }
    Ok(headers)
}

} // verus!
