use base64::engine::general_purpose::STANDARD;
use base64::Engine;
use ahut_dorm_sign::domain::error::DomainError;
use ahut_dorm_sign::domain::school::credential::SchoolCredential;
use ahut_dorm_sign::domain::school::crypto::{SchoolCredentialProtector, SchoolSidePasswdHasher};
use ahut_dorm_sign::domain::school::sign::SchoolSignGenerator;
use ahut_dorm_sign::domain::school::user::SchoolUser;
use ahut_dorm_sign::infrastructure::school::security::{
    AesGcmSchoolCredentialProtector, FlySourceSigner, Md5PasswdHasher,
};
use ahut_dorm_sign::time::UtcTime;


#[test]
fn a_credential_decrypts_to_what_was_encrypted() {
    let p = AesGcmSchoolCredentialProtector::new("master".to_string()).unwrap();
    let c = p.encrypt("secret-pass");
    assert_eq!(c.version(), 1);
    assert_eq!(c.algorithm(), "AES-256-GCM");
    assert_eq!(p.decrypt(&c).unwrap(), "secret-pass");
    let stored = SchoolCredential::from_storage(&c.to_storage()).unwrap();
    assert_eq!(p.decrypt(&stored).unwrap(), "secret-pass");
    let other = AesGcmSchoolCredentialProtector::new("other".to_string()).unwrap();
    assert_eq!(other.decrypt(&c).unwrap_err(), DomainError::CredentialDecryptFailed);
}

#[test]
fn a_blank_master_key_is_refused() {
    assert!(AesGcmSchoolCredentialProtector::new("  ".to_string()).is_err());
}

#[test]
fn a_changed_password_verifies_and_the_old_one_does_not() {
    let p = AesGcmSchoolCredentialProtector::new("master".to_string()).unwrap();
    let h = Md5PasswdHasher;
    let c = p.encrypt(&h.hash("old"));
    let mut u = SchoolUser::new("2023001".to_string(), 1, "name".to_string(), c).unwrap();
    assert_eq!(u.verify_password("old", &h, &p), Ok(true));
    assert_eq!(u.change_password("wrong", "new".to_string(), &h, &p), Err(DomainError::PasswordMismatch));
    assert_eq!(u.change_password("old", " ".to_string(), &h, &p), Err(DomainError::BlankPassword));
    assert_eq!(u.change_password("old", "new".to_string(), &h, &p), Ok(()));
    assert_eq!(u.verify_password("new", &h, &p), Ok(true));
    assert_eq!(u.verify_password("old", &h, &p), Ok(false));
    assert_eq!(u.decrypt_credential(&p).unwrap(), h.hash("new"));
    assert_eq!(h.hash("123456"), "e10adc3949ba59abbe56e057f20f883e");
}

#[test]
fn the_signer_signs_the_path_before_the_query() {
    let t = UtcTime::from_parts(1_700_000_000, 0).unwrap();
    let s = FlySourceSigner;
    assert_eq!(
        s.sign("tok", "/api/auth/login?x=1", &t),
        "90badd4959d6e3743f7a916afd2987ed1.MTcwMDAwMDAwMDAwMA=="
    );
    assert_eq!(s.auth("tok"), "bearer tok");
}

#[test]
fn credential_storage_reads_back() {
    let c = SchoolCredential::new_v1("cA==".to_string(), "cw==".to_string(), "bg==".to_string(), "Yw==".to_string()).unwrap();
    let text = c.to_storage();
    assert_eq!(text, "1:AES-256-GCM:cA==:cw==:bg==:Yw==");
    let back = SchoolCredential::from_storage(&text).unwrap();
    assert_eq!(back.to_storage(), text);
    assert_eq!(
        SchoolCredential::from_storage("2:AES-256-GCM:a:b:c:d").unwrap_err(),
        DomainError::UnsupportedCredentialVersion { version: 2 }
    );
    assert_eq!(SchoolCredential::from_storage("1:AES:a:b:c").unwrap_err(), DomainError::InvalidCredentialEnvelope);
    assert_eq!(SchoolCredential::new_v1(" ".to_string(), "a".to_string(), "b".to_string(), "c".to_string()).unwrap_err(), DomainError::InvalidCredentialEnvelope);
}

fn b64(bytes: &[u8]) -> String {
    STANDARD.encode(bytes)
}

#[test]
fn an_encrypted_envelope_is_version_one_aes_256_gcm_with_pbkdf2_parameters() {
    let p = AesGcmSchoolCredentialProtector::new("master".to_string()).unwrap();
    let c = p.encrypt("s");
    assert_eq!(c.version(), 1);
    assert_eq!(c.algorithm(), "AES-256-GCM");
    let params = STANDARD.decode(c.params_b64()).unwrap();
    assert_eq!(std::str::from_utf8(&params).unwrap(), r#"{"iter":120000,"kdf":"pbkdf2-sha256"}"#);
    let v: serde_json::Value = serde_json::from_slice(&params).unwrap();
    assert_eq!(v["iter"].as_u64(), Some(120000));
    assert_eq!(v["kdf"].as_str(), Some("pbkdf2-sha256"));
    assert_eq!(STANDARD.decode(c.salt_b64()).unwrap().len(), 16);
    assert_eq!(STANDARD.decode(c.nonce_b64()).unwrap().len(), 12);
    assert_eq!(p.decrypt(&c).unwrap(), "s");
}

#[test]
fn decryption_refuses_other_kdfs_and_short_nonces() {
    let p = AesGcmSchoolCredentialProtector::new("master".to_string()).unwrap();
    let good = p.encrypt("s");
    let other_kdf = SchoolCredential::new_v1(
        b64(br#"{"iter":1,"kdf":"scrypt"}"#),
        good.salt_b64().to_string(),
        good.nonce_b64().to_string(),
        good.ciphertext_b64().to_string(),
    )
    .unwrap();
    assert_eq!(p.decrypt(&other_kdf).unwrap_err(), DomainError::InvalidCredentialAlgorithm);
    let short_nonce = SchoolCredential::new_v1(
        good.params_b64().to_string(),
        good.salt_b64().to_string(),
        b64(&[0u8; 8]),
        good.ciphertext_b64().to_string(),
    )
    .unwrap();
    assert_eq!(p.decrypt(&short_nonce).unwrap_err(), DomainError::InvalidCredentialEnvelope);
}
