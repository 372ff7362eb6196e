//! The stored form of a school password: an encrypted envelope with its
//! version, algorithm and Base64 parts, stored as one `:`-separated text.

use vstd::prelude::*;

use crate::domain::error::DomainError;
use crate::text::{
    decimal, is_blank, lemma_decimal_has_no, lemma_parse_decimal_u8, lemma_split_concat, lemma_split_nonempty,
    lemma_split_no_sep, parse_u8, parse_u8_spec, push_decimal, split, split_char, str_is_blank,
    views_of,
};

verus! {

pub const SCHOOL_CREDENTIAL_VERSION_V1: u8 = 1;

pub const SCHOOL_CREDENTIAL_ALG_AES_256_GCM: &'static str = "AES-256-GCM";

/// The fields of a credential envelope.
pub struct CredentialFields {
    pub version: u8,
    pub algorithm: Seq<char>,
    pub params_b64: Seq<char>,
    pub salt_b64: Seq<char>,
    pub nonce_b64: Seq<char>,
    pub ciphertext_b64: Seq<char>,
}

/// The error that refuses an envelope with these fields, if any: only version
/// 1 is supported, the algorithm must not be blank, nor any Base64 part.
pub open spec fn envelope_error(f: CredentialFields) -> Option<DomainError> {
    if f.version != SCHOOL_CREDENTIAL_VERSION_V1 {
        Some(DomainError::UnsupportedCredentialVersion { version: f.version })
    } else if is_blank(f.algorithm) {
        Some(DomainError::InvalidCredentialAlgorithm)
    } else if is_blank(f.params_b64) || is_blank(f.salt_b64) || is_blank(f.nonce_b64) || is_blank(
        f.ciphertext_b64,
    ) {
        Some(DomainError::InvalidCredentialEnvelope)
    } else {
        None
    }
}

/// The storage text of an envelope: its six fields joined by `:`.
pub open spec fn storage_text(f: CredentialFields) -> Seq<char> {
    decimal(f.version as nat) + seq![':'] + f.algorithm + seq![':'] + f.params_b64 + seq![':']
        + f.salt_b64 + seq![':'] + f.nonce_b64 + seq![':'] + f.ciphertext_b64
}

/// The fields read from a storage text, if it has exactly six `:`-separated
/// parts and the first is a byte.
pub open spec fn storage_fields(s: Seq<char>) -> Option<CredentialFields> {
    let p = split(s, ':');
    if p.len() == 6 && parse_u8_spec(p[0]) is Some {
        Some(
            CredentialFields {
                version: parse_u8_spec(p[0])->0,
                algorithm: p[1],
                params_b64: p[2],
                salt_b64: p[3],
                nonce_b64: p[4],
                ciphertext_b64: p[5],
            },
        )
    } else {
        None
    }
}

/// An encrypted school credential.
#[derive(Debug, Clone, PartialEq, Eq)]
pub struct SchoolCredential {
    version: u8,
    algorithm: String,
    params_b64: String,
    salt_b64: String,
    nonce_b64: String,
    ciphertext_b64: String,
}

impl View for SchoolCredential {
    type V = CredentialFields;

    closed spec fn view(&self) -> CredentialFields {
        CredentialFields {
            version: self.version,
            algorithm: self.algorithm@,
            params_b64: self.params_b64@,
            salt_b64: self.salt_b64@,
            nonce_b64: self.nonce_b64@,
            ciphertext_b64: self.ciphertext_b64@,
        }
    }
}

impl SchoolCredential {
    /// Every credential passes the envelope checks.
    pub closed spec fn wf(&self) -> bool {
        envelope_error(self@) is None
    }

    /// A version-1 AES-256-GCM envelope.
    pub fn new_v1(
        params_b64: String,
        salt_b64: String,
        nonce_b64: String,
        ciphertext_b64: String,
    ) -> (r: Result<Self, DomainError>)
        ensures
            ({
                let f = CredentialFields {
                    version: SCHOOL_CREDENTIAL_VERSION_V1,
                    algorithm: SCHOOL_CREDENTIAL_ALG_AES_256_GCM@,
                    params_b64: params_b64@,
                    salt_b64: salt_b64@,
                    nonce_b64: nonce_b64@,
                    ciphertext_b64: ciphertext_b64@,
                };
                match envelope_error(f) {
                    Some(e) => r == Err::<Self, DomainError>(e),
                    None => r matches Ok(c) && c@ == f && c.wf(),
                }
            }),
    {
        Self::new(
            SCHOOL_CREDENTIAL_VERSION_V1,
            SCHOOL_CREDENTIAL_ALG_AES_256_GCM.to_owned(),
            params_b64,
            salt_b64,
            nonce_b64,
            ciphertext_b64,
        )
    }

    /// An envelope with the given fields, refused as `envelope_error` says.
    pub fn new(
        version: u8,
        algorithm: String,
        params_b64: String,
        salt_b64: String,
        nonce_b64: String,
        ciphertext_b64: String,
    ) -> (r: Result<Self, DomainError>)
        ensures
            ({
                let f = CredentialFields {
                    version,
                    algorithm: algorithm@,
                    params_b64: params_b64@,
                    salt_b64: salt_b64@,
                    nonce_b64: nonce_b64@,
                    ciphertext_b64: ciphertext_b64@,
                };
                match envelope_error(f) {
                    Some(e) => r == Err::<Self, DomainError>(e),
                    None => r matches Ok(c) && c@ == f && c.wf(),
                }
            }),
    {
        if version != SCHOOL_CREDENTIAL_VERSION_V1 {
            return Err(DomainError::UnsupportedCredentialVersion { version });
        }
        if str_is_blank(algorithm.as_str()) {
            return Err(DomainError::InvalidCredentialAlgorithm);
        }
        if str_is_blank(params_b64.as_str()) || str_is_blank(salt_b64.as_str()) || str_is_blank(
            nonce_b64.as_str(),
        ) || str_is_blank(ciphertext_b64.as_str()) {
            return Err(DomainError::InvalidCredentialEnvelope);
        }
        Ok(SchoolCredential { version, algorithm, params_b64, salt_b64, nonce_b64, ciphertext_b64 })
    }

    /// Reads a storage text: six `:`-separated parts, a byte version first;
    /// anything else is an invalid envelope, and the parts are then checked as
    /// `new` checks them.
    pub fn from_storage(storage: &str) -> (r: Result<Self, DomainError>)
        ensures
            match storage_fields(storage@) {
                None => r == Err::<Self, DomainError>(DomainError::InvalidCredentialEnvelope),
                Some(f) => match envelope_error(f) {
                    Some(e) => r == Err::<Self, DomainError>(e),
                    None => r matches Ok(c) && c@ == f && c.wf(),
                },
            },
    {
        let parts = split_char(storage, ':');
        proof {
            assert(views_of(parts@).len() == parts@.len());
            lemma_split_nonempty(storage@, ':');
        }
        let version = match parse_u8(parts[0]) {
            Some(v) => v,
            None => {
                proof {
                    assert(views_of(parts@)[0] == parts@[0]@);
                }
                return Err(DomainError::InvalidCredentialEnvelope);
            },
        };
        if parts.len() != 6 {
            return Err(DomainError::InvalidCredentialEnvelope);
        }
        proof {
            assert(views_of(parts@)[0] == parts@[0]@);
            assert(views_of(parts@)[1] == parts@[1]@);
            assert(views_of(parts@)[2] == parts@[2]@);
            assert(views_of(parts@)[3] == parts@[3]@);
            assert(views_of(parts@)[4] == parts@[4]@);
            assert(views_of(parts@)[5] == parts@[5]@);
        }
        Self::new(
            version,
            parts[1].to_owned(),
            parts[2].to_owned(),
            parts[3].to_owned(),
            parts[4].to_owned(),
            parts[5].to_owned(),
        )
    }

    /// The storage text `version:algorithm:params:salt:nonce:ciphertext`.
    pub fn to_storage(&self) -> (r: String)
        ensures
            r@ == storage_text(self@),
    {
        let mut s = String::new();
        push_decimal(&mut s, self.version as u64);
        s.append(":");
        s.append(self.algorithm.as_str());
        s.append(":");
        s.append(self.params_b64.as_str());
        s.append(":");
        s.append(self.salt_b64.as_str());
        s.append(":");
        s.append(self.nonce_b64.as_str());
        s.append(":");
        s.append(self.ciphertext_b64.as_str());
        proof {
            reveal_strlit(":");
            assert(s@ =~= storage_text(self@));
        }
        s
    }

    pub fn version(&self) -> (r: u8)
        ensures
            r == self@.version,
    {
        self.version
    }

    pub fn algorithm(&self) -> (r: &str)
        ensures
            r@ == self@.algorithm,
    {
        self.algorithm.as_str()
    }

    pub fn params_b64(&self) -> (r: &str)
        ensures
            r@ == self@.params_b64,
    {
        self.params_b64.as_str()
    }

    pub fn salt_b64(&self) -> (r: &str)
        ensures
            r@ == self@.salt_b64,
    {
        self.salt_b64.as_str()
    }

    pub fn nonce_b64(&self) -> (r: &str)
        ensures
            r@ == self@.nonce_b64,
    {
        self.nonce_b64.as_str()
    }

    pub fn ciphertext_b64(&self) -> (r: &str)
        ensures
            r@ == self@.ciphertext_b64,
    {
        self.ciphertext_b64.as_str()
    }
}

/// Reading back the storage text of an envelope whose text parts contain no
/// `:` gives the same fields.
pub proof fn lemma_storage_roundtrip(f: CredentialFields)
    requires
        !f.algorithm.contains(':'),
        !f.params_b64.contains(':'),
        !f.salt_b64.contains(':'),
        !f.nonce_b64.contains(':'),
        !f.ciphertext_b64.contains(':'),
    ensures
        storage_fields(storage_text(f)) == Some(f),
{
    let v = decimal(f.version as nat);
    lemma_decimal_has_no(f.version as nat, ':');
    lemma_parse_decimal_u8(f.version);
    lemma_split_no_sep(v, ':');
    lemma_split_no_sep(f.algorithm, ':');
    lemma_split_no_sep(f.params_b64, ':');
    lemma_split_no_sep(f.salt_b64, ':');
    lemma_split_no_sep(f.nonce_b64, ':');
    lemma_split_no_sep(f.ciphertext_b64, ':');
    let s4 = f.nonce_b64.push(':') + f.ciphertext_b64;
    lemma_split_concat(f.nonce_b64, f.ciphertext_b64, ':');
    let s3 = f.salt_b64.push(':') + s4;
    lemma_split_concat(f.salt_b64, s4, ':');
    let s2 = f.params_b64.push(':') + s3;
    lemma_split_concat(f.params_b64, s3, ':');
    let s1 = f.algorithm.push(':') + s2;
    lemma_split_concat(f.algorithm, s2, ':');
    let s0 = v.push(':') + s1;
    lemma_split_concat(v, s1, ':');
    assert(storage_text(f) =~= s0);
    let p = split(s0, ':');
    assert(p =~= seq![v, f.algorithm, f.params_b64, f.salt_b64, f.nonce_b64, f.ciphertext_b64]);
}

/// A stored credential reads back as itself, provided its parts hold no `:`.
pub proof fn lemma_credential_storage_roundtrip(c: SchoolCredential)
    requires
        c.wf(),
        !c@.algorithm.contains(':'),
        !c@.params_b64.contains(':'),
        !c@.salt_b64.contains(':'),
        !c@.nonce_b64.contains(':'),
        !c@.ciphertext_b64.contains(':'),
    ensures
        storage_fields(storage_text(c@)) == Some(c@),
        envelope_error(c@) is None,
{
    lemma_storage_roundtrip(c@);
}

} // verus!
