use simpleddns::vault::{
    decrypt_secret, derive_key, derive_key_for_host, encrypt_secret, key_for_host_name, StorageError, StorageManager,
};

#[test]
fn test_encrypt_decrypt_roundtrip() {
    let key = derive_key();
    let plaintext = "my-super-secret-api-token-12345";

    let encrypted = encrypt_secret(&key, plaintext).expect("Encryption failed");
    assert_ne!(encrypted, plaintext);

    let decrypted = decrypt_secret(&key, &encrypted).expect("Decryption failed");
    assert_eq!(decrypted, plaintext);
}

#[test]
fn test_different_encryptions_differ() {
    let key = derive_key();
    let plaintext = "same-token";

    let enc1 = encrypt_secret(&key, plaintext).unwrap();
    let enc2 = encrypt_secret(&key, plaintext).unwrap();

    // Random nonce means different ciphertext each time
    assert_ne!(enc1, enc2);

    // But both decrypt to the same plaintext
    assert_eq!(decrypt_secret(&key, &enc1).unwrap(), plaintext);
    assert_eq!(decrypt_secret(&key, &enc2).unwrap(), plaintext);
}

#[test]
fn key_for_host_is_deterministic_and_host_dependent() {
    let a = derive_key_for_host("alpha");
    let b = derive_key_for_host("alpha");
    let c = derive_key_for_host("beta");
    assert_eq!(a, b);
    assert_ne!(a, c);
}

#[test]
fn decrypt_with_other_key_fails() {
    let enc = encrypt_secret(&derive_key_for_host("alpha"), "token").unwrap();
    let r = decrypt_secret(&derive_key_for_host("beta"), &enc);
    assert!(matches!(r, Err(StorageError::Encryption(_))));
}

#[test]
fn decrypt_rejects_bad_base64() {
    let r = decrypt_secret(&derive_key_for_host("alpha"), "not base64 !!");
    assert!(matches!(r, Err(StorageError::Encryption(_))));
}

#[test]
fn decrypt_rejects_short_data() {
    // "AAAA" decodes to three bytes, shorter than a nonce and a tag.
    let r = decrypt_secret(&derive_key_for_host("alpha"), "AAAA");
    match r {
        Err(StorageError::Encryption(m)) => assert_eq!(m, "Encrypted data too short"),
        other => panic!("unexpected {:?}", other),
    }
}

#[test]
fn encrypted_form_is_base64_of_nonce_and_ciphertext() {
    let enc = encrypt_secret(&derive_key_for_host("alpha"), "abc").unwrap();
    // 12 bytes of nonce, 3 of ciphertext and 16 of tag: 31 bytes, 44 base64 characters.
    assert_eq!(enc.len(), 44);
}

#[test]
fn load_after_save_gives_the_secret() {
    let store = StorageManager::with_key(derive_key_for_host("host"));
    let mut secrets: Vec<(String, String)> = Vec::new();
    store.save_secret(&mut secrets, "p1", "token-1").unwrap();
    store.save_secret(&mut secrets, "p2", "token-2").unwrap();
    assert_eq!(store.load_secret(&secrets, "p1").unwrap(), "token-1");
    assert_eq!(store.load_secret(&secrets, "p2").unwrap(), "token-2");
    store.save_secret(&mut secrets, "p1", "token-3").unwrap();
    assert_eq!(secrets.len(), 2);
    assert_eq!(store.load_secret(&secrets, "p1").unwrap(), "token-3");
}

#[test]
fn missing_and_deleted_secrets_are_errors() {
    let store = StorageManager::with_key(derive_key_for_host("host"));
    let mut secrets: Vec<(String, String)> = Vec::new();
    match store.load_secret(&secrets, "nope") {
        Err(StorageError::Encryption(m)) => assert_eq!(m, "No secret found for profile 'nope'"),
        other => panic!("unexpected {:?}", other),
    }
    store.save_secret(&mut secrets, "p1", "t").unwrap();
    store.delete_secret(&mut secrets, "p1").unwrap();
    assert!(secrets.is_empty());
    assert!(store.load_secret(&secrets, "p1").is_err());
}

#[test]
fn storage_error_messages() {
    assert_eq!(StorageError::Io("x".to_string()).message(), "IO error: x");
    assert_eq!(StorageError::Json("y".to_string()).message(), "JSON error: y");
    assert_eq!(StorageError::Encryption("z".to_string()).message(), "Encryption error: z");
    assert_eq!(StorageError::NoConfigDir.message(), "Failed to determine config directory");
}

#[test]
fn decrypt_error_messages_name_the_failing_step() {
    let key = derive_key_for_host("alpha");
    match decrypt_secret(&key, "not base64 !!") {
        Err(StorageError::Encryption(m)) => assert!(m.starts_with("Base64 decode failed: ")),
        other => panic!("unexpected {:?}", other),
    }
    let enc = encrypt_secret(&derive_key_for_host("beta"), "token").unwrap();
    match decrypt_secret(&key, &enc) {
        Err(StorageError::Encryption(m)) => assert!(m.starts_with("Decryption failed: ")),
        other => panic!("unexpected {:?}", other),
    }
}

#[test]
fn missing_host_name_falls_back_to_unknown_host() {
    assert_eq!(key_for_host_name(None), derive_key_for_host("unknown-host"));
    assert_eq!(key_for_host_name(Some("box".to_string())), derive_key_for_host("box"));
    assert_ne!(key_for_host_name(Some("box".to_string())), key_for_host_name(None));
}

#[test]
fn a_later_save_of_another_id_keeps_the_secret() {
    let store = StorageManager::with_key(derive_key_for_host("host"));
    let mut secrets: Vec<(String, String)> = Vec::new();
    store.save_secret(&mut secrets, "p1", "token-1").unwrap();
    store.save_secret(&mut secrets, "p2", "token-2").unwrap();
    store.delete_secret(&mut secrets, "p2").unwrap();
    assert_eq!(store.load_secret(&secrets, "p1").unwrap(), "token-1");
}
