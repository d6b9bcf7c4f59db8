use sideswap_manager::cipher::{AesCipher, CipherError, NONCE_LEN, TAG_LEN};

#[test]
fn encrypt_puts_a_nonce_in_front_and_decrypt_reads_it_back() {
    let key = [7u8; 32];
    let mut cipher = AesCipher::new(&key);
    let message = b"the quick brown fox".to_vec();
    assert!(AesCipher::can_encrypt(&message));
    let sealed = cipher.encrypt(&message);
    assert_eq!(sealed.len(), NONCE_LEN + message.len() + TAG_LEN);
    assert_ne!(&sealed[NONCE_LEN..NONCE_LEN + message.len()], &message[..]);
    assert_eq!(cipher.decrypt(&sealed), Ok(message));
}

#[test]
fn encrypt_agrees_with_the_cipher_under_the_nonce_in_front() {
    let key = [9u8; 32];
    let mut cipher = AesCipher::new(&key);
    let message = vec![1u8, 2, 3, 4, 5];
    let sealed = cipher.encrypt(&message);
    let direct = <aes_gcm_siv::Aes256GcmSiv as aes_gcm_siv::KeyInit>::new((&key).into());
    let nonce = aes_gcm_siv::Nonce::from_slice(&sealed[..NONCE_LEN]);
    let expected = aes_gcm_siv::aead::Aead::encrypt(&direct, nonce, &message[..]).unwrap();
    assert_eq!(&sealed[NONCE_LEN..], &expected[..]);
}

#[test]
fn encrypt_takes_a_fresh_nonce_each_time() {
    let mut cipher = AesCipher::new(&[1u8; 32]);
    let a = cipher.encrypt(&[0u8; 4]);
    let b = cipher.encrypt(&[0u8; 4]);
    assert_ne!(a, b);
}

#[test]
fn decrypt_refuses_short_changed_and_foreign_messages() {
    let mut cipher = AesCipher::new(&[7u8; 32]);
    assert_eq!(cipher.decrypt(&[]), Err(CipherError));
    assert_eq!(cipher.decrypt(&[0u8; 11]), Err(CipherError));
    assert_eq!(cipher.decrypt(&[0u8; 12]), Err(CipherError));
    let mut sealed = cipher.encrypt(b"secret");
    let last = sealed.len() - 1;
    sealed[last] ^= 1;
    assert_eq!(cipher.decrypt(&sealed), Err(CipherError));
    sealed[last] ^= 1;
    let mut other = AesCipher::new(&[8u8; 32]);
    assert_eq!(other.decrypt(&sealed), Err(CipherError));
    assert_eq!(cipher.decrypt(&sealed), Ok(b"secret".to_vec()));
}

#[test]
fn encrypt_seals_the_empty_message() {
    let mut cipher = AesCipher::new(&[3u8; 32]);
    let sealed = cipher.encrypt(&[]);
    assert_eq!(sealed.len(), NONCE_LEN + TAG_LEN);
    assert_eq!(cipher.decrypt(&sealed), Ok(vec![]));
}

#[test]
fn encrypt_with_nonce_puts_that_nonce_in_front_of_the_sealed_message() {
    let key = [5u8; 32];
    let cipher = AesCipher::new(&key);
    let nonce = vec![1u8, 2, 3, 4, 5, 6, 7, 8, 9, 10, 11, 12];
    let message = b"twelve bytes of nonce".to_vec();
    let sealed = cipher.encrypt_with_nonce(&nonce, &message);
    let direct = <aes_gcm_siv::Aes256GcmSiv as aes_gcm_siv::KeyInit>::new((&key).into());
    let expected = aes_gcm_siv::aead::Aead::encrypt(
        &direct,
        aes_gcm_siv::Nonce::from_slice(&nonce),
        &message[..],
    )
    .unwrap();
    assert_eq!(sealed, [nonce.clone(), expected].concat());
    assert_eq!(cipher.encrypt_with_nonce(&nonce, &message), sealed);
    let mut reader = AesCipher::new(&key);
    assert_eq!(reader.decrypt(&sealed), Ok(message));
}
