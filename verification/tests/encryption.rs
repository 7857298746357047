use lgtv_ip_control::constants::default_settings::DefaultSettings;
use lgtv_ip_control::encryption::{Encryption, EncryptionError};

#[test]
fn decrypting_an_encrypted_command_gives_it_back() {
    let encryption = Encryption::new("GHBFXMEZ".to_string());
    for message in ["", "CURRENT_APP", "POWER off", "KEY_ACTION volumeup", "héllo wörld"] {
        let encrypted = encryption.encrypt(message).unwrap();
        assert_eq!(encryption.decrypt(&encrypted).unwrap(), message);
    }
}

#[test]
fn a_terminated_message_filling_blocks_comes_back_with_a_space() {
    // 15 bytes: with the terminator it fills one block.
    let encryption = Encryption::new("GHBFXMEZ".to_string());
    let message = "ABCDEFGHIJKLMNO";
    let encrypted = encryption.encrypt(message).unwrap();
    assert_eq!(encrypted.len(), 16 + 32);
    assert_eq!(encryption.decrypt(&encrypted).unwrap(), "ABCDEFGHIJKLMNO\r ");
}

#[test]
fn ciphertext_is_the_iv_block_then_whole_blocks() {
    let encryption = Encryption::new("GHBFXMEZ".to_string());
    assert_eq!(encryption.encrypt("VOL:25").unwrap().len(), 32);
    assert_eq!(encryption.encrypt("0123456789abcdefXYZ").unwrap().len(), 48);
}

#[test]
fn the_same_iv_gives_the_same_ciphertext() {
    let encryption = Encryption::new("GHBFXMEZ".to_string());
    let iv = [7u8; 16];
    let a = encryption.encrypt_with_iv("MUTE_STATE", &iv).unwrap();
    let b = encryption.encrypt_with_iv("MUTE_STATE", &iv).unwrap();
    assert_eq!(a, b);
    let other = Encryption::new("TESTKEY1".to_string());
    assert_ne!(a, other.encrypt_with_iv("MUTE_STATE", &iv).unwrap());
}

#[test]
fn a_different_key_does_not_read_the_message() {
    let encryption = Encryption::new("GHBFXMEZ".to_string());
    let encrypted = encryption.encrypt("CURRENT_VOL").unwrap();
    let other = Encryption::new("TESTKEY1".to_string());
    assert_ne!(other.decrypt(&encrypted).unwrap(), "CURRENT_VOL");
}

#[test]
fn trailing_filler_is_stripped_from_replies() {
    let encryption = Encryption::new("GHBFXMEZ".to_string());
    let iv = [1u8; 16];
    // A reply that ends in newlines and control characters loses them.
    let encrypted = encryption.encrypt_with_iv("ON\n\n\u{1}", &iv).unwrap();
    assert_eq!(encryption.decrypt(&encrypted).unwrap(), "ON");
}

#[test]
fn terminator_in_message_is_refused() {
    let encryption = Encryption::new("GHBFXMEZ".to_string());
    let error = encryption.encrypt("A\rB").unwrap_err();
    assert!(matches!(error, EncryptionError::TerminatorInMessage));
    assert_eq!(error.message(), "message must not include the message terminator character");
}

#[test]
fn default_settings_are_the_protocol_parameters() {
    let settings = DefaultSettings::default();
    assert_eq!(settings.encryption_iv_length, 16);
    assert_eq!(settings.encryption_key_digest, "sha256");
    assert_eq!(settings.encryption_key_iterations, 2_u32.pow(14));
    assert_eq!(settings.encryption_key_length, 16);
    assert_eq!(
        settings.encryption_key_salt,
        [0x63, 0x61, 0xb8, 0x0e, 0x9b, 0xdc, 0xa6, 0x63, 0x8d, 0x07, 0x20, 0xf2, 0xcc, 0x56, 0x8f, 0xb9]
    );
    assert_eq!(settings.keycode_format, "[A-Z0-9]{8}");
    assert_eq!(settings.message_block_size, 16);
    assert_eq!(settings.message_terminator, '\r');
    assert_eq!(settings.response_terminator, '\n');
    assert_eq!(settings.network_port, 9761);
    assert_eq!(settings.network_timeout, 5000);
    assert_eq!(settings.network_wol_address, "255.255.255.255");
    assert_eq!(settings.network_wol_port, 9);
}

#[test]
fn known_answer_for_a_fixed_iv() {
    // PBKDF2-HMAC-SHA256("GHBFXMEZ", salt, 2^14) as the key; the IV block in
    // AES-128-ECB, then "MUTE_STATE\r" padded with five bytes 5 in AES-128-CBC.
    let encryption = Encryption::new("GHBFXMEZ".to_string());
    let encrypted = encryption.encrypt_with_iv("MUTE_STATE", &[7u8; 16]).unwrap();
    assert_eq!(
        encrypted,
        vec![
            66, 199, 214, 34, 72, 43, 131, 60, 86, 217, 226, 168, 231, 17, 108, 34, 206, 92, 49,
            238, 174, 98, 75, 114, 65, 30, 247, 178, 2, 138, 160, 17
        ]
    );
}
