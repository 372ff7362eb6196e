//! A student account of the school system, with its protected password.

use vstd::prelude::*;

use crate::domain::error::DomainError;
use crate::domain::school::credential::SchoolCredential;
use crate::domain::school::crypto::{SchoolCredentialProtector, SchoolSidePasswdHasher};
use crate::text::{is_blank, str_equal, str_is_blank};

verus! {

/// A student of one owner, with the school-side hash of the password
/// stored encrypted.
#[derive(Debug)]
pub struct SchoolUser {
    student_id: String,
    owner_user_id: u128,
    user_name: String,
    credential: SchoolCredential,
}

/// What verifying `plain` against a user gives: the decryption error if the
/// credential does not decrypt, otherwise whether the school-side hash of
/// `plain` is the decrypted text.
pub open spec fn verify_spec<H: SchoolSidePasswdHasher + ?Sized, P: SchoolCredentialProtector + ?Sized>(
    hasher: &H,
    protector: &P,
    credential: SchoolCredential,
    plain: Seq<char>,
) -> Result<bool, DomainError> {
    match protector.decrypt_spec(credential@) {
        Err(e) => Err(e),
        Ok(s) => Ok(hasher.hash_spec(plain) == s),
    }
}

impl SchoolUser {
    pub closed spec fn student_spec(&self) -> Seq<char> {
        self.student_id@
    }

    pub closed spec fn owner_spec(&self) -> u128 {
        self.owner_user_id
    }

    pub closed spec fn user_name_spec(&self) -> Seq<char> {
        self.user_name@
    }

    pub closed spec fn credential_spec(&self) -> SchoolCredential {
        self.credential
    }

    /// A user; the student ID, then the user name, must not be blank.
    pub fn new(
        student_id: String,
        owner_user_id: u128,
        user_name: String,
        credential: SchoolCredential,
    ) -> (r: Result<Self, DomainError>)
        ensures
            is_blank(student_id@) ==> r == Err::<Self, DomainError>(DomainError::BlankSchoolUserId),
            !is_blank(student_id@) && is_blank(user_name@) ==> r == Err::<Self, DomainError>(
                DomainError::BlankUserName,
            ),
            !is_blank(student_id@) && !is_blank(user_name@) ==> (r matches Ok(u)
                && u.student_spec() == student_id@ && u.owner_spec() == owner_user_id
                && u.user_name_spec() == user_name@ && u.credential_spec() == credential),
    {
        if str_is_blank(student_id.as_str()) {
            return Err(DomainError::BlankSchoolUserId);
        }
        if str_is_blank(user_name.as_str()) {
            return Err(DomainError::BlankUserName);
        }
        Ok(SchoolUser { student_id, owner_user_id, user_name, credential })
    }

    /// Whether `plain_password` is this user's password, as `verify_spec`
    /// says.
    pub fn verify_password<H: SchoolSidePasswdHasher + ?Sized, P: SchoolCredentialProtector + ?Sized>(
        &self,
        plain_password: &str,
        origin_hasher: &H,
        protector: &P,
    ) -> (r: Result<bool, DomainError>)
        ensures
            r == verify_spec(origin_hasher, protector, self.credential_spec(), plain_password@),
    {
        let credential = origin_hasher.hash(plain_password);
        let stored = protector.decrypt(&self.credential)?;
        Ok(str_equal(credential.as_str(), stored.as_str()))
    }

    /// Replaces the password: a blank new password is refused, then the old
    /// password must verify; the new credential is the encryption of the
    /// school-side hash of the new password. A refusal leaves the user
    /// unchanged.
    pub fn change_password<H: SchoolSidePasswdHasher + ?Sized, P: SchoolCredentialProtector + ?Sized>(
        &mut self,
        old_password: &str,
        new_password: String,
        origin_hasher: &H,
        protector: &P,
    ) -> (r: Result<(), DomainError>)
        requires
            vstd::utf8::encode_utf8(origin_hasher.hash_spec(new_password@)).len() <= 0x10_0000_0000,
        ensures
            is_blank(new_password@) ==> r == Err::<(), DomainError>(DomainError::BlankPassword),
            !is_blank(new_password@) ==> match verify_spec(
                origin_hasher,
                protector,
                old(self).credential_spec(),
                old_password@,
            ) {
                Err(e) => r == Err::<(), DomainError>(e),
                Ok(false) => r == Err::<(), DomainError>(DomainError::PasswordMismatch),
                Ok(true) => r is Ok,
            },
            r is Err ==> *final(self) == *old(self),
            r is Ok ==> final(self).student_spec() == old(self).student_spec()
                && final(self).owner_spec() == old(self).owner_spec()
                && final(self).user_name_spec() == old(self).user_name_spec()
                && final(self).credential_spec().wf()
                && protector.decrypt_spec(final(self).credential_spec()@) == Ok::<Seq<char>, DomainError>(
                origin_hasher.hash_spec(new_password@),
            ),
    {
        if str_is_blank(new_password.as_str()) {
            return Err(DomainError::BlankPassword);
        }
        if self.verify_password(old_password, origin_hasher, protector)? {
            let new_credential = origin_hasher.hash(new_password.as_str());
            self.credential = protector.encrypt(new_credential.as_str());
            Ok(())
        } else {
            Err(DomainError::PasswordMismatch)
        }
    }

    pub fn user_name(&self) -> (r: &str)
        ensures
            r@ == self.user_name_spec(),
    {
        self.user_name.as_str()
    }

    pub fn owner_user_id(&self) -> (r: u128)
        ensures
            r == self.owner_spec(),
    {
        self.owner_user_id
    }

    pub fn student_id(&self) -> (r: &str)
        ensures
            r@ == self.student_spec(),
    {
        self.student_id.as_str()
    }

    /// The storage text of the credential.
    pub fn credential_storage(&self) -> (r: String)
        ensures
            r@ == crate::domain::school::credential::storage_text(self.credential_spec()@),
    {
        self.credential.to_storage()
    }

    /// The decrypted credential (the school-side hash of the password).
    pub fn decrypt_credential<P: SchoolCredentialProtector + ?Sized>(&self, protector: &P) -> (r:
        Result<String, DomainError>)
        ensures
            crate::domain::school::crypto::text_result(r) == protector.decrypt_spec(
                self.credential_spec()@,
            ),
    {
        protector.decrypt(&self.credential)
    }
}

/// After a password change, the new password verifies.
pub proof fn lemma_changed_password_verifies<H: SchoolSidePasswdHasher + ?Sized, P: SchoolCredentialProtector + ?Sized>(
    hasher: &H,
    protector: &P,
    credential: SchoolCredential,
    new_password: Seq<char>,
)
    requires
        protector.decrypt_spec(credential@) == Ok::<Seq<char>, DomainError>(hasher.hash_spec(new_password)),
    ensures
        verify_spec(hasher, protector, credential, new_password) == Ok::<bool, DomainError>(true),
{
}

} // verus!
