use aes_gcm_siv::aead::generic_array::GenericArray;
use aes_gcm_siv::aead::Aead;
use aes_gcm_siv::{Aes256GcmSiv, KeyInit, Nonce};
use stec_shop::tokens::TokenService;

#[test]
fn encrypt_decrypt_new_random() {
    let plaintext = "Hello world!";
    let token_service = TokenService::new_random();

    let encrypted = token_service.encrypt(plaintext);
    let decrypted = token_service.decrypt(&encrypted).expect("test fixture: decrypt should succeed");

    assert_eq!(plaintext, decrypted);
}

#[test]
fn encrypt_decrypt_new() {
    let plaintext = "Hello world!";
    let token_service = TokenService::new("some key", "some iv");

    let encrypted = token_service.encrypt(plaintext);
    let decrypted = token_service.decrypt(&encrypted).expect("test fixture: decrypt should succeed");

    assert_eq!(plaintext, decrypted);
}

#[test]
fn decrypt_rejects_non_hex_input_instead_of_panicking() {
    let token_service = TokenService::new_random();

    assert!(token_service.decrypt("not-valid-hex!!").is_err());
}

#[test]
fn decrypt_rejects_tampered_ciphertext_instead_of_panicking() {
    let token_service = TokenService::new_random();
    let encrypted = token_service.encrypt("Hello world!");

    let mut tampered = hex::decode(&encrypted).expect("test fixture: should be valid hex");
    if let Some(first_byte) = tampered.first_mut() {
        *first_byte ^= 0xFF;
    }
    let tampered_hex = hex::encode(tampered);

    assert!(token_service.decrypt(&tampered_hex).is_err());
}

#[test]
fn decrypt_rejects_arbitrary_hex_garbage_instead_of_panicking() {
    let token_service = TokenService::new_random();

    assert!(token_service.decrypt("deadbeef").is_err());
}

#[test]
fn test_raw() {
    let key = GenericArray::from_slice(b"000102030405060708090a0b0c0d0e0f");
    let nonce = Nonce::from_slice(b"f9fafbfcfdfe");

    let message = b"Hello world!";

    let cipher = Aes256GcmSiv::new(key);
    let ciphertext = cipher.encrypt(nonce, message.as_ref()).expect("encryption failure!");

    let plaintext = cipher.decrypt(nonce, ciphertext.as_ref()).expect("decryption failure!");

    assert_eq!(plaintext, message);
}

fn seal(key: &[u8], nonce: &[u8], plaintext: &[u8]) -> Vec<u8> {
    let cipher = Aes256GcmSiv::new(GenericArray::from_slice(key));
    cipher.encrypt(GenericArray::from_slice(nonce), plaintext).unwrap()
}

#[test]
fn key_and_nonce_repeat_the_input_bytes() {
    let service = TokenService::new("ab", "xyz");
    let key: Vec<u8> = b"ab".iter().cycle().take(32).cloned().collect();
    let nonce: Vec<u8> = b"xyz".iter().cycle().take(12).cloned().collect();
    let expected = hex::encode(seal(&key, &nonce, b"hi"));
    assert_eq!(service.encrypt("hi"), expected);
}

#[test]
fn long_inputs_are_cut_to_key_and_nonce_length() {
    let long_key = "0123456789abcdefghijklmnopqrstuvwxyz";
    let long_nonce = "nonce-nonce-nonce";
    let service = TokenService::new(long_key, long_nonce);
    let expected = hex::encode(seal(&long_key.as_bytes()[..32], &long_nonce.as_bytes()[..12], b"x"));
    assert_eq!(service.encrypt("x"), expected);
}

#[test]
fn token_is_lowercase_hex_of_ciphertext_and_tag() {
    let service = TokenService::new("some key", "some iv");
    let token = service.encrypt("Hello world!");
    assert_eq!(token.len(), 2 * ("Hello world!".len() + 16));
    assert!(token.chars().all(|c| c.is_ascii_digit() || ('a'..='f').contains(&c)));
    assert_ne!(token, hex::encode("Hello world!"));
}

#[test]
fn round_trip_of_empty_and_non_ascii_text() {
    let service = TokenService::new("ключ", "ノンス");
    for text in ["", "Grüße, 世界 🎉", "a"] {
        let token = service.encrypt(text);
        assert_eq!(service.decrypt(&token), Ok(text.to_string()));
    }
}

#[test]
fn uppercase_token_is_accepted() {
    let service = TokenService::new("some key", "some iv");
    let token = service.encrypt("Hello").to_uppercase();
    assert_eq!(service.decrypt(&token), Ok("Hello".to_string()));
}

#[test]
fn odd_length_token_is_an_encoding_error() {
    let service = TokenService::new("some key", "some iv");
    assert_eq!(
        service.decrypt("abc"),
        Err("Invalid token encoding: Odd number of digits".to_string())
    );
}

#[test]
fn non_hex_character_is_an_encoding_error() {
    let service = TokenService::new("some key", "some iv");
    assert_eq!(
        service.decrypt("0z"),
        Err("Invalid token encoding: Invalid character 'z' at position 1".to_string())
    );
}

#[test]
fn garbage_is_a_decryption_error() {
    let service = TokenService::new("some key", "some iv");
    assert_eq!(service.decrypt("deadbeef"), Err("Failed to decrypt token".to_string()));
    assert_eq!(service.decrypt(""), Err("Failed to decrypt token".to_string()));
}

#[test]
fn token_of_another_key_is_a_decryption_error() {
    let first = TokenService::new("some key", "some iv");
    let second = TokenService::new("other key", "some iv");
    let token = first.encrypt("Hello");
    assert_eq!(second.decrypt(&token), Err("Failed to decrypt token".to_string()));
}

#[test]
fn sealed_bytes_that_are_not_utf8_are_reported() {
    let service = TokenService::new("some key", "some iv");
    let key: Vec<u8> = b"some key".iter().cycle().take(32).cloned().collect();
    let nonce: Vec<u8> = b"some iv".iter().cycle().take(12).cloned().collect();
    let token = hex::encode(seal(&key, &nonce, &[0xff, 0xfe]));
    assert_eq!(
        service.decrypt(&token),
        Err("Decrypted token is not valid UTF-8: invalid utf-8 sequence of 1 bytes from index 0".to_string())
    );
}

#[test]
fn random_services_do_not_share_keys() {
    let first = TokenService::new_random();
    let second = TokenService::new_random();
    let token = first.encrypt("Hello");
    assert_eq!(first.decrypt(&token), Ok("Hello".to_string()));
    assert_eq!(second.decrypt(&token), Err("Failed to decrypt token".to_string()));
}

#[test]
fn accepted_tokens_are_the_services_own_up_to_case() {
    let service = TokenService::new("some key", "some iv");
    let token = service.encrypt("Grüße").to_uppercase();
    let text = service.decrypt(&token).expect("own token");
    assert_eq!(service.encrypt(&text), token.to_lowercase());
}

#[test]
fn token_too_short_for_a_tag_is_a_decryption_error() {
    let service = TokenService::new("some key", "some iv");
    assert_eq!(service.decrypt("00112233445566778899aabbccddee"), Err("Failed to decrypt token".to_string()));
}
