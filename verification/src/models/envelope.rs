//! The business envelope that wraps every response of the attendance API.

use vstd::prelude::*;

use crate::error::ServiceError;

verus! {

/// `{ code, success, msg, data }`.
#[derive(Debug, Clone)]
pub struct BizEnvelope<T> {
    pub code: i32,
    pub success: bool,
    pub msg: String,
    pub data: T,
}

impl<T> BizEnvelope<T> {
    /// The data of a successful envelope (`success` and code 200); any other
    /// envelope is a remote business error of `service` with its code and
    /// message.
    pub fn into_data(self, service: &'static str) -> (r: Result<T, ServiceError>)
        ensures
            self.success && self.code == 200 ==> (r matches Ok(d) && d == self.data),
            !(self.success && self.code == 200) ==> (r matches Err(
                ServiceError::RemoteBusiness { service: s, code, msg },
            ) && s == service && code == self.code && msg@ == self.msg@),
    {
        if self.success && self.code == 200 {
            Ok(self.data)
        } else {
            Err(ServiceError::RemoteBusiness { service, code: self.code, msg: self.msg })
        }
    }
}

} // verus!
