use aeszippy::decrypt::{decrypt_7z, decrypt_aes256_cbc, derive_key, AesProperties};
use aeszippy::encrypt::{
    build_props, encrypt_7z, encrypt_7z_with_iv, encrypt_aes256_cbc, encrypt_then_decrypt,
    DEFAULT_NUM_CYCLES_POWER,
};

fn hex(s: &str) -> Vec<u8> {
    (0..s.len())
        .step_by(2)
        .map(|i| u8::from_str_radix(&s[i..i + 2], 16).unwrap())
        .collect()
}

#[test]
fn encrypt_decrypt_round_trip() {
    let plaintext = b"hello, AES-256 encryption in lockzippy!";
    let password = "test1234";

    let result = encrypt_7z(plaintext, password).expect("encrypt_7z failed");
    let decrypted =
        decrypt_7z(&result.ciphertext, &result.props, password).expect("decrypt_7z failed");

    // Decrypted may have zero-padding; trim to original length.
    let trimmed = &decrypted[..plaintext.len()];
    assert_eq!(trimmed, plaintext, "round-trip mismatch");
}

#[test]
fn wrong_password_produces_garbage() {
    let plaintext = b"secret data";
    let result = encrypt_7z(plaintext, "correct_password").expect("encrypt failed");
    let decrypted = decrypt_7z(&result.ciphertext, &result.props, "wrong_password")
        .expect("decrypt did not error (AES-CBC with wrong key produces garbage output)");

    // Decrypted bytes will not match plaintext.
    let trimmed = &decrypted[..plaintext.len()];
    assert_ne!(
        trimmed, plaintext,
        "wrong password should produce different output"
    );
}

#[test]
fn each_call_produces_different_ciphertext() {
    // Two encrypts of the same data must produce different ciphertext (random IV).
    let plaintext = b"same plaintext";
    let r1 = encrypt_7z(plaintext, "pass").expect("first encrypt failed");
    let r2 = encrypt_7z(plaintext, "pass").expect("second encrypt failed");
    assert_ne!(r1.ciphertext, r2.ciphertext, "random IV must differ");
}

#[test]
fn props_has_correct_format() {
    let result = encrypt_7z(b"test", "pass").expect("encrypt failed");
    let props = &result.props;
    // byte 0: NumCyclesPower=19 (0x13) | 0x40 (has_iv) = 0x53
    assert_eq!(
        props[0], 0x53,
        "byte 0 should be 0x53 (NumCyclesPower=19, has_iv)"
    );
    // byte 1: ivSize-1 = 15 = 0x0F
    assert_eq!(props[1], 0x0F, "byte 1 should be 0x0F (ivSize=16)");
    // props length = 2 + 16 = 18
    assert_eq!(props.len(), 18, "props should be 18 bytes");
}

#[test]
fn round_trip_with_aes_properties_parse() {
    // Verify the props we produce are parseable by AesProperties::parse.
    let plaintext = b"cross-module consistency check";
    let result = encrypt_7z(plaintext, "mypass").expect("encrypt failed");
    let parsed = AesProperties::parse(&result.props).expect("parse failed");
    assert_eq!(parsed.num_cycles_power, DEFAULT_NUM_CYCLES_POWER);
    assert_eq!(parsed.salt, Vec::<u8>::new());
}

/// NIST SP 800-38A, F.2.5 (CBC-AES256.Encrypt).
#[test]
fn encrypt_nist_cbc_aes256_vector() {
    let key: [u8; 32] = hex("603deb1015ca71be2b73aef0857d77811f352c073b6108d72d9810a30914dff4")
        .try_into()
        .unwrap();
    let iv: [u8; 16] = hex("000102030405060708090a0b0c0d0e0f").try_into().unwrap();
    let plaintext = hex("6bc1bee22e409f96e93d7e117393172aae2d8a571e03ac9c9eb76fac45af8e51");
    let ciphertext = hex("f58c4c04d6e5f1ba779eabfb5f7bfbd69cfc4e967edb808d679f777bc6702c7d");
    assert_eq!(encrypt_aes256_cbc(&plaintext, &key, &iv).unwrap(), ciphertext);
}

#[test]
fn encrypt_pads_to_whole_blocks() {
    let key = [3u8; 32];
    let iv = [4u8; 16];
    let c17 = encrypt_aes256_cbc(&[9u8; 17], &key, &iv).unwrap();
    assert_eq!(c17.len(), 32);
    let mut padded = vec![9u8; 17];
    padded.resize(32, 0);
    assert_eq!(decrypt_aes256_cbc(&c17, &key, &iv).unwrap(), padded);
    assert_eq!(encrypt_aes256_cbc(&[9u8; 16], &key, &iv).unwrap().len(), 16);
    assert!(encrypt_aes256_cbc(&[], &key, &iv).unwrap().is_empty());
}

#[test]
fn build_props_layout() {
    let iv: [u8; 16] = [1, 2, 3, 4, 5, 6, 7, 8, 9, 10, 11, 12, 13, 14, 15, 16];
    let props = build_props(5, &iv);
    let mut expected = vec![0x45u8, 0x0F];
    expected.extend_from_slice(&iv);
    assert_eq!(props, expected);
}

/// Parsing what build_props wrote gives its NumCyclesPower, no salt and its IV.
#[test]
fn build_props_parses_back() {
    let iv = [0xEEu8; 16];
    for ncp in [0u8, 1, 19, 24, 63] {
        let parsed = AesProperties::parse(&build_props(ncp, &iv)).unwrap();
        assert_eq!(parsed.num_cycles_power, ncp);
        assert!(parsed.salt.is_empty());
        assert_eq!(parsed.iv, iv);
    }
}

#[test]
fn encrypt_with_iv_is_deterministic_and_decrypts() {
    let iv = [0x21u8; 16];
    let r1 = encrypt_7z_with_iv(b"abc", "pw", &iv).unwrap();
    let r2 = encrypt_7z_with_iv(b"abc", "pw", &iv).unwrap();
    assert_eq!(r1.ciphertext, r2.ciphertext);
    assert_eq!(r1.props, build_props(19, &iv));
    assert_eq!(r1.ciphertext.len(), 16);
    let key = derive_key("pw", &[], 19);
    let mut expected = b"abc".to_vec();
    expected.resize(16, 0);
    assert_eq!(decrypt_aes256_cbc(&r1.ciphertext, &key, &iv).unwrap(), expected);
    assert_ne!(r1.ciphertext, expected);
}

#[test]
fn encrypt_then_decrypt_gives_padded_plaintext() {
    let plaintext = b"twenty bytes of text";
    let decrypted = encrypt_then_decrypt(plaintext, "pw").unwrap();
    let mut expected = plaintext.to_vec();
    expected.resize(32, 0);
    assert_eq!(decrypted, expected);
}

/// Distinct IVs give distinct ciphertexts of the same non-empty plaintext.
#[test]
fn distinct_ivs_give_distinct_ciphertexts() {
    let r1 = encrypt_7z_with_iv(b"same plaintext", "pass", &[1u8; 16]).unwrap();
    let r2 = encrypt_7z_with_iv(b"same plaintext", "pass", &[2u8; 16]).unwrap();
    assert_ne!(r1.ciphertext, r2.ciphertext);
    assert_ne!(r1.props, r2.props);
}

/// Each ciphertext block is AES-256 of the plaintext block xor the previous
/// ciphertext block (the IV first): the last block is the encryption of a
/// one-block message under the previous ciphertext block as IV.
#[test]
fn encryption_chains_block_by_block() {
    let key = [5u8; 32];
    let iv = [6u8; 16];
    let plaintext: Vec<u8> = (0u8..40).collect();
    let c = encrypt_aes256_cbc(&plaintext, &key, &iv).unwrap();
    assert_eq!(c.len(), 48);
    let mut last_block = plaintext[32..].to_vec();
    last_block.resize(16, 0);
    let chained_iv: [u8; 16] = c[16..32].try_into().unwrap();
    assert_eq!(encrypt_aes256_cbc(&last_block, &key, &chained_iv).unwrap(), c[32..].to_vec());
    assert_eq!(encrypt_aes256_cbc(&plaintext[..16], &key, &iv).unwrap(), c[..16].to_vec());
}
