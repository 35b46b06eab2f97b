use whaswapp::security::{SecurityManager, VaultError};

#[test]
fn test_security_init_and_unlock() {
    let dir = std::path::PathBuf::from("vault-dir");
    let mut security = SecurityManager::new(dir.clone());
    let mut stored: Option<String> = None;

    assert!(stored.is_none());

    let password = "strong_password";
    stored = Some(security.init(password).unwrap());

    assert!(stored.is_some());
    assert!(security.get_master_key().is_some());

    let mut security2 = SecurityManager::new(dir);
    assert!(security2.get_master_key().is_none());

    let record = stored.unwrap();
    let unlocked = security2.unlock(&record, password).unwrap();
    assert!(unlocked);
    assert!(security2.get_master_key().is_some());
    assert_eq!(security.get_master_key(), security2.get_master_key());

    let failed = security2.unlock(&record, "wrong").unwrap();
    assert!(!failed);
}

#[test]
fn sealed_bytes_open_again() {
    let mut vault = SecurityManager::new(std::path::PathBuf::from("."));
    assert_eq!(vault.seal(b"hello"), Err(VaultError::Locked));
    assert_eq!(vault.open(&[0u8; 40]), Err(VaultError::Locked));
    vault.derive_and_store_key("pw", "c2FsdHNhbHRzYWx0").unwrap();
    assert_eq!(vault.get_master_key().unwrap().len(), 32);
    let sealed = vault.seal(b"hello").unwrap();
    assert_eq!(sealed.len(), 12 + 5 + 16);
    assert_ne!(&sealed[12..17], b"hello");
    assert_eq!(vault.open(&sealed).unwrap(), b"hello".to_vec());
    let nonce = [7u8; 12];
    assert_eq!(vault.seal_with(&nonce, b"hello").unwrap()[..12], nonce);
    let mut tampered = sealed.clone();
    tampered[14] ^= 1;
    assert_eq!(vault.open(&tampered), Err(VaultError::Decryption));
    assert_eq!(vault.open(&sealed[..11]), Err(VaultError::FileTooShort));
}

#[test]
fn bad_records_are_refused() {
    let mut vault = SecurityManager::new(std::path::PathBuf::from("."));
    assert_eq!(vault.unlock("not json", "pw"), Err(VaultError::InvalidRecord));
    assert_eq!(vault.unlock(r#"{"salt": "abc"}"#, "pw"), Err(VaultError::InvalidRecord));
    assert_eq!(
        vault.unlock(r#"{"password_hash": "nope", "salt": "abc"}"#, "pw"),
        Err(VaultError::InvalidHash)
    );
    assert_eq!(vault.derive_and_store_key("pw", "short"), Err(VaultError::KeyDerivation));
    assert_eq!(vault.init_with_salt("pw", "not base64!"), Err(VaultError::Hashing));
    assert!(vault.get_master_key().is_none());
    let record = vault.init_with_salt("pw", "c2FsdHNhbHRzYWx0").unwrap();
    assert!(record.contains("\"salt\": \"c2FsdHNhbHRzYWx0\""));
    assert!(record.contains("\"password_hash\": \"$argon2id$"));
    assert!(vault.get_master_key().is_some());
    assert_eq!(VaultError::Locked.message(), "Vault locked");
    assert_eq!(VaultError::FileTooShort.message(), "File too short");
}
