//! The two cryptographic roles that school credentials depend on: the
//! school's own password hashing, and the protection of stored credentials.

use vstd::prelude::*;

use crate::domain::error::DomainError;
use crate::domain::school::credential::{CredentialFields, SchoolCredential};

verus! {

/// The view of a result of text.
pub open spec fn text_result(r: Result<String, DomainError>) -> Result<Seq<char>, DomainError> {
    match r {
        Ok(s) => Ok(s@),
        Err(e) => Err(e),
    }
}

/// The school system's own hashing of a plain password (what it expects to
/// receive instead of the password).
pub trait SchoolSidePasswdHasher {
    /// The hash of a plain password.
    spec fn hash_spec(&self, plain_password: Seq<char>) -> Seq<char>;

    fn hash(&self, plain_password: &str) -> (r: String)
        ensures
            r@ == self.hash_spec(plain_password@),
    ;
}

/// Encryption of a credential for storage, and its decryption.
pub trait SchoolCredentialProtector {
    /// What decrypting an envelope with these fields gives.
    spec fn decrypt_spec(&self, fields: CredentialFields) -> Result<Seq<char>, DomainError>;

    /// An envelope that decrypts to `school_origin_credential`.
    fn encrypt(&self, school_origin_credential: &str) -> (r: SchoolCredential)
        requires
            vstd::utf8::encode_utf8(school_origin_credential@).len() <= 0x10_0000_0000,
        ensures
            r.wf(),
            self.decrypt_spec(r@) == Ok::<Seq<char>, DomainError>(school_origin_credential@),
    ;

    fn decrypt(&self, school_credential: &SchoolCredential) -> (r: Result<String, DomainError>)
        ensures
            text_result(r) == self.decrypt_spec(school_credential@),
    ;
}

} // verus!
