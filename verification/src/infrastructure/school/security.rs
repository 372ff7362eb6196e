//! The `flysource` request signer, and the AES-256-GCM protector of stored
//! school credentials (keys derived with PBKDF2-HMAC-SHA256).

use aes_gcm::aead::{Aead, KeyInit};
use rand::RngCore;
use vstd::prelude::*;

use crate::domain::error::DomainError;
use crate::domain::school::credential::{
    CredentialFields, SchoolCredential, SCHOOL_CREDENTIAL_ALG_AES_256_GCM,
    SCHOOL_CREDENTIAL_VERSION_V1,
};
use crate::domain::school::crypto::{SchoolCredentialProtector, SchoolSidePasswdHasher};
use crate::domain::school::sign::SchoolSignGenerator;
use crate::text::{decimal, is_blank, is_white_space, push_signed_decimal, signed_decimal, split, split_char, lemma_split_nonempty, str_equal, str_is_blank, views_of, lemma_blank_iff_all_white};
use crate::time::UtcTime;
use crate::utils::hash::{base64_decode, base64_encode, base64_standard, base64_standard_decode, encode_base64, encode_md5, is_base64_char, lemma_base64_shape, md5_hex};
use crate::utils::sign::{flysource_auth, generate_flysource_auth};

verus! {

pub const PBKDF2_ITER: u32 = 120_000u32;

pub const SALT_LEN: usize = 16usize;

pub const NONCE_LEN: usize = 12usize;

pub const KEY_LEN: usize = 32usize;

/// The largest plaintext AES-GCM accepts (`aes_gcm::P_MAX`).
pub const AES_GCM_P_MAX: u64 = 0x10_0000_0000u64;

/// The `flysource-sign` value for a URL at a timestamp in milliseconds:
/// `md5(path + "?sign=" + md5(ts + token)) + "1." + base64(ts)`, with `path`
/// the URL before its query.
pub open spec fn flysource_signer_spec(access_token: Seq<char>, url: Seq<char>, timestamp_millis: int) -> Seq<char> {
    let ts = signed_decimal(timestamp_millis);
    let first_hash = md5_hex(ts + access_token);
    let second = split(url, '?')[0] + "?sign="@ + first_hash;
    md5_hex(second) + "1."@ + base64_standard(vstd::utf8::encode_utf8(ts))
}

/// The school's own hashing of a password: its MD5 digest in lowercase hex,
/// which is also what a login sends.
#[derive(Debug, Default, Clone, Copy)]
pub struct Md5PasswdHasher;

impl SchoolSidePasswdHasher for Md5PasswdHasher {
    open spec fn hash_spec(&self, plain_password: Seq<char>) -> Seq<char> {
        md5_hex(plain_password)
    }

    fn hash(&self, plain_password: &str) -> (r: String) {
        encode_md5(plain_password)
    }
}

/// The signer of the attendance system's business endpoints.
#[derive(Debug, Default, Clone, Copy)]
pub struct FlySourceSigner;

impl SchoolSignGenerator for FlySourceSigner {
    /// The `flysource-sign` header value at `time_now`.
    fn sign(&self, access_token: &str, url: &str, time_now: &UtcTime) -> (r: String)
        ensures
            r@ == flysource_signer_spec(access_token@, url@, time_now.millis()),
    {
        let ts = time_now.timestamp_millis();
        let pieces = split_char(url, '?');
        proof {
            lemma_split_nonempty(url@, '?');
            assert(views_of(pieces@)[0] == pieces@[0]@);
        }
        let path = pieces[0];
        let mut timestamp = String::new();
        push_signed_decimal(&mut timestamp, ts);
        let mut first = timestamp.clone();
        first.append(access_token);
        let first_hash = encode_md5(first.as_str());
        let mut second = path.to_owned();
        second.append("?sign=");
        second.append(first_hash.as_str());
        let second_hash = encode_md5(second.as_str());
        let encoded_ts = encode_base64(timestamp.as_str());
        let mut out = second_hash;
        out.append("1.");
        out.append(encoded_ts.as_str());
        proof {
            assert(timestamp@ =~= signed_decimal(time_now.millis()));
            assert(second@ =~= split(url@, '?')[0] + "?sign="@ + first_hash@);
        }
        out
    }

    /// `bearer {access_token}`.
    fn auth(&self, access_token: &str) -> (r: String)
        ensures
            r@ == flysource_auth(access_token@),
    {
        generate_flysource_auth(access_token)
    }
}

/// `rand::thread_rng().fill_bytes` on `len` fresh bytes; the bytes are chance
/// and not stated, only their number.
#[verifier::external_body]
fn random_bytes(len: usize) -> (r: Vec<u8>)
    ensures
        r@.len() == len,
{
    let mut v = vec![0u8; len];
    rand::thread_rng().fill_bytes(&mut v);
    v
}

/// The 32-byte PBKDF2-HMAC-SHA256 key of a password, salt and round count.
pub uninterp spec fn pbkdf2_sha256_key(password: Seq<u8>, salt: Seq<u8>, rounds: u32) -> Seq<u8>;

/// `pbkdf2::pbkdf2_hmac::<sha2::Sha256>` into 32 bytes; the key is named, not
/// stated.
#[verifier::external_body]
fn derive_key_bytes(password: &[u8], salt: &[u8], rounds: u32) -> (r: Vec<u8>)
    ensures
        r@ == pbkdf2_sha256_key(password@, salt@, rounds),
        r@.len() == KEY_LEN,
{
    let mut key = vec![0u8; KEY_LEN];
    pbkdf2::pbkdf2_hmac::<sha2::Sha256>(password, salt, rounds, &mut key);
    key
}

/// The AES-256-GCM sealing (ciphertext with tag) of a plaintext.
pub uninterp spec fn aes256gcm_seal(key: Seq<u8>, nonce: Seq<u8>, plaintext: Seq<u8>) -> Seq<u8>;

/// The AES-256-GCM opening of a sealed text, `None` when authentication
/// fails.
pub uninterp spec fn aes256gcm_open(key: Seq<u8>, nonce: Seq<u8>, sealed: Seq<u8>) -> Option<Seq<u8>>;

/// `Aes256Gcm::new_from_slice(key).encrypt(Nonce::from_slice(nonce), plaintext)`.
///
/// The sealed text is named, not stated. The contract claims what an AEAD
/// guarantees: opening it with the same key and nonce gives the plaintext
/// back; it is the plaintext's length plus the 16-byte tag.
#[verifier::external_body]
fn aes_seal(key: &[u8], nonce: &[u8], plaintext: &[u8]) -> (r: Vec<u8>)
    requires
        key@.len() == KEY_LEN,
        nonce@.len() == NONCE_LEN,
        plaintext@.len() <= AES_GCM_P_MAX,
    ensures
        r@ == aes256gcm_seal(key@, nonce@, plaintext@),
        aes256gcm_open(key@, nonce@, r@) == Some(plaintext@),
        r@.len() == plaintext@.len() + 16,
{
    let cipher = aes_gcm::Aes256Gcm::new_from_slice(key).unwrap();
    cipher.encrypt(aes_gcm::Nonce::from_slice(nonce), plaintext).unwrap()
}

/// `Aes256Gcm::new_from_slice(key).decrypt(Nonce::from_slice(nonce), sealed).ok()`;
/// the outcome is named, not stated.
#[verifier::external_body]
fn aes_open(key: &[u8], nonce: &[u8], sealed: &[u8]) -> (r: Option<Vec<u8>>)
    requires
        key@.len() == KEY_LEN,
        nonce@.len() == NONCE_LEN,
    ensures
        match r {
            Some(v) => aes256gcm_open(key@, nonce@, sealed@) == Some(v@),
            None => aes256gcm_open(key@, nonce@, sealed@) is None,
        },
{
    let cipher = aes_gcm::Aes256Gcm::new_from_slice(key).unwrap();
    match cipher.decrypt(aes_gcm::Nonce::from_slice(nonce), sealed) {
        Ok(v) => Some(v),
        Err(_) => None,
    }
}

/// `String::from_utf8(bytes).ok()`: the text exactly when the bytes are
/// valid UTF-8.
#[verifier::external_body]
fn string_from_utf8(bytes: Vec<u8>) -> (r: Option<String>)
    ensures
        r is Some <==> vstd::utf8::valid_utf8(bytes@),
        r matches Some(s) ==> s@ == vstd::utf8::decode_utf8(bytes@),
{
    match String::from_utf8(bytes) {
        Ok(s) => Some(s),
        Err(_) => None,
    }
}

/// The key-derivation parameters read from JSON: the `iter` field as an
/// unsigned integer and the `kdf` field as a text, each if present; `None`
/// when the bytes are not JSON.
pub uninterp spec fn json_kdf_params(raw: Seq<u8>) -> Option<(Option<u64>, Option<Seq<char>>)>;

/// Whether `serde_json` prints the characters of `s` as they are inside a
/// JSON string: no control character below a space, no quote, no backslash.
pub open spec fn json_plain(s: Seq<char>) -> bool {
    forall|i: int| 0 <= i < s.len() ==> ' ' <= #[trigger] s[i] && s[i] != '"' && s[i] != '\\'
}

/// The JSON text of the parameters `{"kdf": kdf, "iter": iter}` as
/// `serde_json` prints an object: compact, keys in sorted order (for a name
/// that needs no escape).
pub open spec fn kdf_params_json(kdf: Seq<char>, iter: u32) -> Seq<char> {
    "{\"iter\":"@ + decimal(iter as nat) + ",\"kdf\":\""@ + kdf + "\"}"@
}

/// `serde_json::Value::Object({"kdf": kdf, "iter": iter}).to_string()`.
///
/// The contract claims the compact text with sorted keys (`serde_json`'s
/// `Map` is ordered by key unless its `preserve_order` feature is on, and it
/// is not here; a name without characters to escape is printed as it is),
/// and that reading it back as JSON gives the two fields.
#[verifier::external_body]
fn kdf_params_text(kdf: &str, iter: u32) -> (r: String)
    requires
        json_plain(kdf@),
    ensures
        r@ == kdf_params_json(kdf@, iter),
        json_kdf_params(vstd::utf8::encode_utf8(r@)) == Some((Some(iter as u64), Some(kdf@))),
{
    let mut m = serde_json::Map::new();
    m.insert("kdf".to_string(), serde_json::Value::String(kdf.to_string()));
    m.insert("iter".to_string(), serde_json::Value::from(iter));
    serde_json::Value::Object(m).to_string()
}

/// `serde_json::from_slice::<Value>(raw)` read for its `iter` (`as_u64`) and
/// `kdf` (`as_str`) fields; the outcome is named, not stated.
#[verifier::external_body]
fn read_kdf_params(raw: &[u8]) -> (r: Option<(Option<u64>, Option<String>)>)
    ensures
        match r {
            None => json_kdf_params(raw@) is None,
            Some((i, k)) => json_kdf_params(raw@) == Some((i, match k {
                Some(s) => Some(s@),
                None => None,
            })),
        },
{
    let v: serde_json::Value = match serde_json::from_slice(raw) {
        Ok(v) => v,
        Err(_) => return None,
    };
    let iter = match v.get("iter") {
        Some(x) => x.as_u64(),
        None => None,
    };
    let kdf = match v.get("kdf").and_then(serde_json::Value::as_str) {
        Some(s) => Some(s.to_string()),
        None => None,
    };
    Some((iter, kdf))
}

/// What decrypting an envelope with the master key `master` gives: the
/// parameters must decode from Base64 and read as JSON with an `iter` count
/// and a `kdf` (else an invalid envelope); the `kdf` must be
/// `pbkdf2-sha256` (else an invalid algorithm); salt, nonce and ciphertext
/// must decode and the nonce have 12 bytes (else an invalid envelope); the
/// ciphertext must open under the derived key and be UTF-8 (else a failed
/// decryption).
pub open spec fn aes_decrypt_spec(master: Seq<char>, f: CredentialFields) -> Result<Seq<char>, DomainError> {
    match base64_standard_decode(f.params_b64) {
        None => Err(DomainError::InvalidCredentialEnvelope),
        Some(raw) => match json_kdf_params(raw) {
            None => Err(DomainError::InvalidCredentialEnvelope),
            Some((iter, kdf)) => match iter {
                None => Err(DomainError::InvalidCredentialEnvelope),
                Some(iter) => match kdf {
                    None => Err(DomainError::InvalidCredentialEnvelope),
                    Some(kdf) => if kdf != "pbkdf2-sha256"@ {
                        Err(DomainError::InvalidCredentialAlgorithm)
                    } else {
                        match (
                            base64_standard_decode(f.salt_b64),
                            base64_standard_decode(f.nonce_b64),
                            base64_standard_decode(f.ciphertext_b64),
                        ) {
                            (Some(salt), Some(nonce), Some(ct)) => if nonce.len() != NONCE_LEN {
                                Err(DomainError::InvalidCredentialEnvelope)
                            } else {
                                let key = pbkdf2_sha256_key(
                                    vstd::utf8::encode_utf8(master),
                                    salt,
                                    iter as u32,
                                );
                                match aes256gcm_open(key, nonce, ct) {
                                    None => Err(DomainError::CredentialDecryptFailed),
                                    Some(p) => if vstd::utf8::valid_utf8(p) {
                                        Ok(vstd::utf8::decode_utf8(p))
                                    } else {
                                        Err(DomainError::CredentialDecryptFailed)
                                    },
                                }
                            },
                            _ => Err(DomainError::InvalidCredentialEnvelope),
                        }
                    },
                },
            },
        },
    }
}

/// Encrypts school credentials with a key derived from a master key.
pub struct AesGcmSchoolCredentialProtector {
    master_key: String,
}

impl AesGcmSchoolCredentialProtector {
    pub closed spec fn master_spec(&self) -> Seq<char> {
        self.master_key@
    }

    /// A protector; a blank master key is refused.
    pub fn new(master_key: String) -> (r: Result<Self, DomainError>)
        ensures
            is_blank(master_key@) ==> r == Err::<Self, DomainError>(
                DomainError::InvalidCredentialEnvelope,
            ),
            !is_blank(master_key@) ==> (r matches Ok(p) && p.master_spec() == master_key@),
    {
        if str_is_blank(master_key.as_str()) {
            return Err(DomainError::InvalidCredentialEnvelope);
        }
        Ok(AesGcmSchoolCredentialProtector { master_key })
    }

    fn derive_key(&self, salt: &[u8], iter: u32) -> (r: Vec<u8>)
        ensures
            r@ == pbkdf2_sha256_key(vstd::utf8::encode_utf8(self.master_spec()), salt@, iter),
            r@.len() == KEY_LEN,
    {
        derive_key_bytes(self.master_key.as_str().as_bytes(), salt, iter)
    }
}

proof fn lemma_base64_not_blank(data: Seq<u8>)
    requires
        data.len() > 0,
    ensures
        !is_blank(base64_standard(data)),
        !base64_standard(data).contains(':'),
{
    let s = base64_standard(data);
    lemma_base64_shape(data);
    lemma_blank_iff_all_white(s);
    assert(is_base64_char(s[0]));
    assert(!is_white_space(s[0]));
    if s.contains(':') {
        let k = choose|k: int| 0 <= k < s.len() && s[k] == ':';
        assert(is_base64_char(s[k]));
    }
}

impl SchoolCredentialProtector for AesGcmSchoolCredentialProtector {
    open spec fn decrypt_spec(&self, fields: CredentialFields) -> Result<Seq<char>, DomainError> {
        aes_decrypt_spec(self.master_spec(), fields)
    }

    /// Seals the credential under a key derived from the master key with a
    /// fresh random salt and nonce, and stores the parameters, salt, nonce and
    /// ciphertext in Base64: a version-1 `AES-256-GCM` envelope whose
    /// parameters name PBKDF2-SHA256 with 120000 rounds.
    fn encrypt(&self, school_origin_credential: &str) -> (r: SchoolCredential)
        ensures
            r@.version == SCHOOL_CREDENTIAL_VERSION_V1,
            r@.algorithm == SCHOOL_CREDENTIAL_ALG_AES_256_GCM@,
            r@.params_b64 == base64_standard(
                vstd::utf8::encode_utf8(kdf_params_json("pbkdf2-sha256"@, PBKDF2_ITER)),
            ),
            exists|salt: Seq<u8>, nonce: Seq<u8>|
                #![trigger base64_standard(salt), base64_standard(nonce)]
                salt.len() == SALT_LEN && nonce.len() == NONCE_LEN && r@.salt_b64
                    == base64_standard(salt) && r@.nonce_b64 == base64_standard(nonce)
                    && r@.ciphertext_b64 == base64_standard(
                    aes256gcm_seal(
                        pbkdf2_sha256_key(
                            vstd::utf8::encode_utf8(self.master_spec()),
                            salt,
                            PBKDF2_ITER,
                        ),
                        nonce,
                        vstd::utf8::encode_utf8(school_origin_credential@),
                    ),
                ),
    {
        let salt = random_bytes(SALT_LEN);
        let nonce = random_bytes(NONCE_LEN);
        let key = self.derive_key(salt.as_slice(), PBKDF2_ITER);
        let plain = school_origin_credential.as_bytes();
        let ciphertext = aes_seal(key.as_slice(), nonce.as_slice(), plain);
        proof {
            reveal_strlit("pbkdf2-sha256");
            assert(json_plain("pbkdf2-sha256"@));
        }
        let params = kdf_params_text("pbkdf2-sha256", PBKDF2_ITER);
        let params_b64 = base64_encode(params.as_str().as_bytes());
        let salt_b64 = base64_encode(salt.as_slice());
        let nonce_b64 = base64_encode(nonce.as_slice());
        let ciphertext_b64 = base64_encode(ciphertext.as_slice());
        proof {
            reveal_strlit("AES-256-GCM");
            assert(SCHOOL_CREDENTIAL_ALG_AES_256_GCM@[0] == 'A');
            lemma_blank_iff_all_white(SCHOOL_CREDENTIAL_ALG_AES_256_GCM@);
            assert(vstd::utf8::encode_utf8(params@).len() > 0) by {
                reveal_strlit("{\"iter\":");
                assert(params@.len() > 0);
            }
            lemma_base64_not_blank(vstd::utf8::encode_utf8(params@));
            lemma_base64_not_blank(salt@);
            lemma_base64_not_blank(nonce@);
            lemma_base64_not_blank(ciphertext@);
            vstd::utf8::encode_utf8_valid_utf8(school_origin_credential@);
            vstd::utf8::encode_utf8_decode_utf8(school_origin_credential@);
        }
        let ghost salt_v = salt@;
        let ghost nonce_v = nonce@;
        match SchoolCredential::new_v1(params_b64, salt_b64, nonce_b64, ciphertext_b64) {
            Ok(c) => {
                proof {
                    assert(base64_standard(salt_v) == c@.salt_b64);
                    assert(base64_standard(nonce_v) == c@.nonce_b64);
                }
                c
            },
            Err(_) => {
                proof {
                    assert(false);
                }
                vstd::pervasive::unreached()
            },
        }
    }

    /// Opens a stored credential, as `aes_decrypt_spec` says.
    fn decrypt(&self, school_credential: &SchoolCredential) -> (r: Result<String, DomainError>)
    {
        let params_raw = match base64_decode(school_credential.params_b64()) {
            Some(v) => v,
            None => return Err(DomainError::InvalidCredentialEnvelope),
        };
        let (iter, kdf) = match read_kdf_params(params_raw.as_slice()) {
            Some(p) => p,
            None => return Err(DomainError::InvalidCredentialEnvelope),
        };
        let iter = match iter {
            Some(i) => i as u32,
            None => return Err(DomainError::InvalidCredentialEnvelope),
        };
        let kdf = match kdf {
            Some(k) => k,
            None => return Err(DomainError::InvalidCredentialEnvelope),
        };
        if !str_equal(kdf.as_str(), "pbkdf2-sha256") {
            return Err(DomainError::InvalidCredentialAlgorithm);
        }
        let salt = match base64_decode(school_credential.salt_b64()) {
            Some(v) => v,
            None => return Err(DomainError::InvalidCredentialEnvelope),
        };
        let nonce = match base64_decode(school_credential.nonce_b64()) {
            Some(v) => v,
            None => return Err(DomainError::InvalidCredentialEnvelope),
        };
        let ciphertext = match base64_decode(school_credential.ciphertext_b64()) {
            Some(v) => v,
            None => return Err(DomainError::InvalidCredentialEnvelope),
        };
        if nonce.len() != NONCE_LEN {
            return Err(DomainError::InvalidCredentialEnvelope);
        }
        let key = self.derive_key(salt.as_slice(), iter);
        let plaintext = match aes_open(key.as_slice(), nonce.as_slice(), ciphertext.as_slice()) {
            Some(p) => p,
            None => return Err(DomainError::CredentialDecryptFailed),
        };
        match string_from_utf8(plaintext) {
            Some(s) => Ok(s),
            None => Err(DomainError::CredentialDecryptFailed),
        }
    }
}

} // verus!
