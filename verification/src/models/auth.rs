//! The account information that a login returns.

use vstd::prelude::*;

use crate::time::{Date, TimeSpan};

verus! {

/// A logged-in account: its tokens and what the school tells of it.
#[derive(Debug, Clone)]
pub struct AuthInfo {
    /// The token that later requests carry.
    pub access_token: String,
    /// The token type (only `bearer` has been seen).
    pub token_type: String,
    /// The token that refreshes the session.
    pub refresh_token: String,
    /// How long the token lives.
    pub expires_in: TimeSpan,
    /// The scope (only `all` has been seen).
    pub scope: String,
    /// The strength grade of the password.
    pub password_level: i32,
    /// The address of the avatar.
    pub avatar_url: String,
    /// The account type (5 for a student).
    pub account_type: i32,
    /// The holder's name.
    pub user_name: String,
    /// The role type.
    pub role_type: String,
    /// The user ID (the student number).
    pub user_id: String,
    /// The date of the previous login.
    pub last_login_time: Date,
    /// The OAuth ID, if any.
    pub oauth_id: Option<String>,
    /// The account number (the student number).
    pub account_no: String,
    /// The campus.
    pub tenant_id: String,
    /// The role's name.
    pub role_name: String,
    /// The user type (2 for a student).
    pub user_type: i32,
    /// The second-factor settings.
    pub detail: AuthDetail,
    /// The school's name.
    pub school_name: String,
    /// The JWT ID of the token.
    pub jti: String,
}

/// The second-factor settings of an account.
#[derive(Debug, Clone, PartialEq, Eq)]
pub struct AuthDetail {
    pub sys_auth_type: String,
    pub is_sys_user_second_auth: bool,
}

} // verus!
