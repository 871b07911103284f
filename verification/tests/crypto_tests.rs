use devjournal::crypto::{decrypt, encrypt};

#[test]
fn decrypt_undoes_encrypt() {
    let plaintext = b"a journal of many projects".to_vec();
    let sealed = encrypt(&plaintext, "password").unwrap();
    assert_eq!(sealed.len(), plaintext.len() + 16 + 12);
    assert_ne!(&sealed[..plaintext.len()], plaintext.as_slice());
    assert_eq!(decrypt(&sealed, "password").unwrap(), plaintext);
}

#[test]
fn empty_plaintext_round_trips() {
    let sealed = encrypt(&Vec::new(), "").unwrap();
    assert_eq!(sealed.len(), 28);
    assert_eq!(decrypt(&sealed, "").unwrap(), Vec::<u8>::new());
}

#[test]
fn full_length_key_round_trips() {
    let key = "0123456789abcdef0123456789abcdef";
    let sealed = encrypt(&vec![7u8; 100], key).unwrap();
    assert_eq!(decrypt(&sealed, key).unwrap(), vec![7u8; 100]);
}

#[test]
fn nonce_is_fresh_each_time() {
    let a = encrypt(&vec![1, 2, 3], "k").unwrap();
    let b = encrypt(&vec![1, 2, 3], "k").unwrap();
    assert_ne!(a, b);
}

#[test]
fn wrong_password_fails() {
    let sealed = encrypt(&b"secret".to_vec(), "right").unwrap();
    let err = decrypt(&sealed, "wrong").unwrap_err();
    assert_eq!(err.message, "decryption failure [aead::Error]");
}

#[test]
fn password_is_padded_with_zero_bytes() {
    let sealed = encrypt(&b"x".to_vec(), "ab").unwrap();
    assert_eq!(decrypt(&sealed, "ab\0").unwrap(), b"x".to_vec());
    assert!(decrypt(&sealed, "ab\0\x01").is_err());
}

#[test]
fn tampered_data_fails() {
    let mut sealed = encrypt(&b"secret".to_vec(), "k").unwrap();
    sealed[0] ^= 1;
    assert_eq!(decrypt(&sealed, "k").unwrap_err().message, "decryption failure [aead::Error]");
}

#[test]
fn too_small_to_decrypt() {
    for len in 0..=12 {
        let err = decrypt(&vec![0u8; len], "k").unwrap_err();
        assert_eq!(err.message, "file too small to decrypt");
    }
    let err = decrypt(&vec![0u8; 13], "k").unwrap_err();
    assert_eq!(err.message, "decryption failure [aead::Error]");
}
