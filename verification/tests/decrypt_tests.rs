use aeszippy::decrypt::{decrypt_7z, decrypt_aes256_cbc, derive_key, AesProperties};
use aeszippy::encrypt::encrypt_aes256_cbc;
use aeszippy::error::AeszippyError;
use aes::Aes256;
use cbc::Encryptor;
use cipher::{block_padding::NoPadding, BlockEncryptMut, KeyIvInit};
use sha2::{Digest, Sha256};

fn hex(s: &str) -> Vec<u8> {
    (0..s.len())
        .step_by(2)
        .map(|i| u8::from_str_radix(&s[i..i + 2], 16).unwrap())
        .collect()
}

/// Verify that AES-256-CBC round-trip works with a known key and IV.
#[test]
fn aes_cbc_round_trip() {
    let key = [0x42u8; 32];
    let iv = [0x13u8; 16];
    let plaintext = [0xABu8; 32]; // 2 blocks

    let mut enc_buf = plaintext;
    Encryptor::<Aes256>::new(&key.into(), &iv.into())
        .encrypt_padded_mut::<NoPadding>(&mut enc_buf, 32)
        .unwrap();

    let decrypted = decrypt_aes256_cbc(&enc_buf, &key, &iv).unwrap();
    assert_eq!(decrypted, plaintext);
}

/// Key derivation smoke test: two different passwords produce different keys.
#[test]
fn key_derivation_differs_by_password() {
    let k1 = derive_key("password1", &[], 6);
    let k2 = derive_key("password2", &[], 6);
    assert_ne!(k1, k2);
}

/// Key derivation is deterministic.
#[test]
fn key_derivation_is_deterministic() {
    let k1 = derive_key("test1234", &[], 19);
    let k2 = derive_key("test1234", &[], 19);
    assert_eq!(k1, k2);
}

/// Parse AES properties matching the 7zz output format (no salt, 16-byte IV).
#[test]
fn parse_aes_props_no_salt() {
    let iv_bytes = [0xAAu8; 16];
    // b0 = 19 | (1 << 6) = 83 = 0x53  (NumCyclesPower=19, has_iv=1, has_salt=0)
    // b1 = 0x0F  (ivSize = 0x0F + 1 = 16)
    let mut props = vec![0x53u8, 0x0Fu8];
    props.extend_from_slice(&iv_bytes);

    let p = AesProperties::parse(&props).unwrap();
    assert_eq!(p.num_cycles_power, 19);
    assert_eq!(p.salt, Vec::<u8>::new());
    assert_eq!(p.iv, iv_bytes);
}

/// Verify empty props returns an error.
#[test]
fn parse_too_short_props() {
    let result = AesProperties::parse(&[42u8]);
    assert!(matches!(result, Err(AeszippyError::InvalidProperties(1))));
}

#[test]
fn parse_empty_props_is_rejected() {
    let result = AesProperties::parse(&[]);
    assert!(matches!(result, Err(AeszippyError::InvalidProperties(0))));
}

/// Salt and a short IV: b0 = 0xC5 (has_salt, has_iv, NumCyclesPower 5),
/// b1 = 0x13 (salt size 1+1 = 2, IV size 3+1 = 4); the IV is zero-padded.
#[test]
fn parse_salt_and_short_iv() {
    let props = [0xC5u8, 0x13, 0x01, 0x02, 0xA1, 0xA2, 0xA3, 0xA4, 0xFF];
    let p = AesProperties::parse(&props).unwrap();
    assert_eq!(p.num_cycles_power, 5);
    assert_eq!(p.salt, vec![0x01, 0x02]);
    let mut iv = [0u8; 16];
    iv[..4].copy_from_slice(&[0xA1, 0xA2, 0xA3, 0xA4]);
    assert_eq!(p.iv, iv);
}

/// The header announces more bytes than the blob holds.
#[test]
fn parse_truncated_salt_and_iv() {
    let props = [0xC5u8, 0x13, 0x01, 0x02, 0xA1, 0xA2, 0xA3];
    let result = AesProperties::parse(&props);
    assert!(matches!(result, Err(AeszippyError::InvalidProperties(7))));
}

/// Without the flags, the sizes in byte 1 are ignored.
#[test]
fn parse_no_salt_no_iv() {
    let props = [0x3Fu8, 0xFF];
    let p = AesProperties::parse(&props).unwrap();
    assert_eq!(p.num_cycles_power, 63);
    assert!(p.salt.is_empty());
    assert_eq!(p.iv, [0u8; 16]);
}

/// NIST SP 800-38A, F.2.6 (CBC-AES256.Decrypt).
#[test]
fn decrypt_nist_cbc_aes256_vector() {
    let key: [u8; 32] = hex("603deb1015ca71be2b73aef0857d77811f352c073b6108d72d9810a30914dff4")
        .try_into()
        .unwrap();
    let iv: [u8; 16] = hex("000102030405060708090a0b0c0d0e0f").try_into().unwrap();
    let ciphertext = hex("f58c4c04d6e5f1ba779eabfb5f7bfbd69cfc4e967edb808d679f777bc6702c7d");
    let plaintext = hex("6bc1bee22e409f96e93d7e117393172aae2d8a571e03ac9c9eb76fac45af8e51");
    assert_eq!(decrypt_aes256_cbc(&ciphertext, &key, &iv).unwrap(), plaintext);
}

#[test]
fn decrypt_rejects_unaligned_ciphertext() {
    let result = decrypt_aes256_cbc(&[0u8; 15], &[0u8; 32], &[0u8; 16]);
    assert!(matches!(result, Err(AeszippyError::InvalidCiphertextLength(15))));
}

#[test]
fn decrypt_empty_ciphertext() {
    let result = decrypt_aes256_cbc(&[], &[0u8; 32], &[0u8; 16]).unwrap();
    assert!(result.is_empty());
}

/// The key is SHA-256 over 2^ncp rounds of salt || UTF-16LE(password) || round (u64 LE).
#[test]
fn derive_key_matches_the_kdf_stream() {
    let password = "pä😀";
    let salt = [7u8, 8, 9];
    let pw: Vec<u8> = password.encode_utf16().flat_map(|u| u.to_le_bytes()).collect();
    // A surrogate pair for the emoji: 2 + 2 + 4 bytes.
    assert_eq!(pw.len(), 8);
    let mut stream = Vec::new();
    for round in 0u64..4 {
        stream.extend_from_slice(&salt);
        stream.extend_from_slice(&pw);
        stream.extend_from_slice(&round.to_le_bytes());
    }
    let expected: [u8; 32] = Sha256::digest(&stream).into();
    assert_eq!(derive_key(password, &salt, 2), expected);
}

#[test]
fn derive_key_single_round() {
    let expected: [u8; 32] = Sha256::digest([0x61u8, 0, 0, 0, 0, 0, 0, 0, 0, 0]).into();
    assert_eq!(derive_key("a", &[], 0), expected);
}

#[test]
fn decrypt_7z_rejects_short_props() {
    let result = decrypt_7z(&[0u8; 16], &[0x53], "pw");
    assert!(matches!(result, Err(AeszippyError::InvalidProperties(1))));
}

#[test]
fn decrypt_7z_rejects_unaligned_ciphertext() {
    let props = [0x40u8, 0x0F, 0, 0, 0, 0, 0, 0, 0, 0, 0, 0, 0, 0, 0, 0, 0, 0];
    let result = decrypt_7z(&[0u8; 20], &props, "pw");
    assert!(matches!(result, Err(AeszippyError::InvalidCiphertextLength(20))));
}

/// decrypt_7z is derive_key followed by decrypt_aes256_cbc with the parsed salt and IV.
#[test]
fn decrypt_7z_uses_parsed_salt_and_iv() {
    let props = [0xC2u8, 0x1F, 0x05, 0x06, 1, 2, 3, 4, 5, 6, 7, 8, 9, 10, 11, 12, 13, 14, 15, 16];
    let ciphertext = [0x5Au8; 32];
    let key = derive_key("secret", &[5, 6], 2);
    let iv: [u8; 16] = [1, 2, 3, 4, 5, 6, 7, 8, 9, 10, 11, 12, 13, 14, 15, 16];
    let expected = decrypt_aes256_cbc(&ciphertext, &key, &iv).unwrap();
    assert_eq!(decrypt_7z(&ciphertext, &props, "secret").unwrap(), expected);
    assert_ne!(expected, ciphertext.to_vec());
}

#[test]
fn decrypt_error_carries_display_text() {
    let e = AeszippyError::decrypt("bad padding");
    assert!(matches!(e, AeszippyError::DecryptError(ref s) if s == "bad padding"));
}

/// NumCyclesPower above 24 is rejected before any key is derived.
#[test]
fn decrypt_7z_rejects_num_cycles_power_above_24() {
    let mut props = vec![0x40u8 | 25, 0x0F];
    props.extend_from_slice(&[0u8; 16]);
    let result = decrypt_7z(&[0u8; 16], &props, "pw");
    assert!(matches!(result, Err(AeszippyError::InvalidNumCyclesPower(25))));
    props[0] = 0x40 | 63;
    let result = decrypt_7z(&[0u8; 15], &props, "pw");
    assert!(matches!(result, Err(AeszippyError::InvalidNumCyclesPower(63))));
}

/// Malformed properties are reported before the NumCyclesPower range.
#[test]
fn decrypt_7z_reports_short_props_before_range() {
    let result = decrypt_7z(&[0u8; 16], &[0x40u8 | 30, 0x0F, 1, 2], "pw");
    assert!(matches!(result, Err(AeszippyError::InvalidProperties(4))));
}

/// Encrypting what a decryption returned gives the ciphertext back.
#[test]
fn encrypt_after_decrypt_gives_ciphertext_back() {
    let key = [0x11u8; 32];
    let iv = [0x22u8; 16];
    let ciphertext: Vec<u8> = (0u8..48).collect();
    let plain = decrypt_aes256_cbc(&ciphertext, &key, &iv).unwrap();
    assert_eq!(encrypt_aes256_cbc(&plain, &key, &iv).unwrap(), ciphertext);
}

/// Decryption splits at block boundaries, the rest chained on the front's last block.
#[test]
fn decrypt_splits_at_block_boundaries() {
    let key = [0x33u8; 32];
    let iv = [0x44u8; 16];
    let ciphertext: Vec<u8> = (100u8..164).collect();
    let whole = decrypt_aes256_cbc(&ciphertext, &key, &iv).unwrap();
    let front = decrypt_aes256_cbc(&ciphertext[..32], &key, &iv).unwrap();
    let next_iv: [u8; 16] = ciphertext[16..32].try_into().unwrap();
    let rest = decrypt_aes256_cbc(&ciphertext[32..], &key, &next_iv).unwrap();
    assert_eq!(whole[..32], front[..]);
    assert_eq!(whole[32..], rest[..]);
}

/// An IO error converts into the `Io` variant.
#[test]
fn io_error_converts_into_io_variant() {
    let e: AeszippyError = std::io::Error::other("disk").into();
    assert!(matches!(e, AeszippyError::Io(ref inner) if inner.to_string() == "disk"));
}
