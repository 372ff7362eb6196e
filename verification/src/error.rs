//! Errors of the service layer, and the plain domain validation error.

use vstd::prelude::*;

use crate::text::{push_signed_decimal, signed_decimal};

verus! {

/// A failure while building a request or in a remote business envelope.
#[derive(Debug, Clone, PartialEq, Eq)]
pub enum ServiceError {
    BuildError { service: &'static str, msg: String },
    InvalidRequest { service: &'static str, msg: String },
    RemoteBusiness { service: &'static str, code: i32, msg: String },
}

/// The message of a service error (its display text).
pub open spec fn service_error_message(e: ServiceError) -> Seq<char> {
    match e {
        ServiceError::BuildError { service, msg } => "服务["@ + service@ + "]构建错误: "@ + msg@,
        ServiceError::InvalidRequest { service, msg } => "服务["@ + service@
            + "]请求参数或构建错误: "@ + msg@,
        ServiceError::RemoteBusiness { service, code, msg } => "服务["@ + service@
            + "]远端业务错误: code="@ + signed_decimal(code as int) + ", msg="@ + msg@,
    }
}

impl ServiceError {
    /// The display text of the error.
    pub fn message(&self) -> (r: String)
        ensures
            r@ == service_error_message(*self),
    {
        let mut s = String::new();
        s.append("服务[");
        match self {
            ServiceError::BuildError { service, msg } => {
                s.append(service);
                s.append("]构建错误: ");
                s.append(msg.as_str());
            },
            ServiceError::InvalidRequest { service, msg } => {
                s.append(service);
                s.append("]请求参数或构建错误: ");
                s.append(msg.as_str());
            },
            ServiceError::RemoteBusiness { service, code, msg } => {
                s.append(service);
                s.append("]远端业务错误: code=");
                push_signed_decimal(&mut s, *code as i64);
                s.append(", msg=");
                s.append(msg.as_str());
            },
        }
        proof {
            assert(s@ =~= service_error_message(*self));
        }
        s
    }
}

/// A violated domain validation of the service layer.
#[derive(Debug, Clone, PartialEq, Eq)]
pub enum DomainError {
    Validation(String),
}

} // verus!
