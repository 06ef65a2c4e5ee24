//! 7z AES-256 decryption: the AES coder properties blob, the 7z password key
//! derivation, and AES-256-CBC decryption of a packed stream.
//!
//! ## Properties format
//!
//! ```text
//! byte 0: bits [0:5] = NumCyclesPower, bit 6 = has_iv, bit 7 = has_salt
//! byte 1: lower nibble = ivSize-1 (when has_iv), upper nibble = saltSize-1 (when has_salt)
//! bytes 2..(2+saltSize): salt
//! bytes (2+saltSize)..(2+saltSize+ivSize): IV
//! ```
//!
//! ## Key derivation
//!
//! ```text
//! sha := SHA-256()
//! for round in 0 .. (1 << NumCyclesPower):
//!     sha.update(salt)
//!     sha.update(password as UTF-16LE)
//!     sha.update(round as u64 little-endian)
//! key := sha.finalize()
//! ```

use vstd::prelude::*;

use crate::error::{AeszippyError, AeszippyResult};
use crate::primitives::{
    aes256_cbc_decrypt, aes256_cbc_encrypt, aes256_cbc_decrypt_in_place, sha256, sha256_absorbed, sha256_finalize, sha256_input_limit, sha256_new, sha256_update,
};
use vstd::arithmetic::power2::pow2;

verus! {

// ---------------------------------------------------------------------------
// Properties parsing
// ---------------------------------------------------------------------------

/// NumCyclesPower as byte 0 of a properties blob encodes it (bits 0..5).
pub open spec fn props_num_cycles_power(b0: u8) -> u8 {
    b0 & 0x3F
}

/// Whether byte 0 announces a salt (bit 7).
pub open spec fn props_has_salt(b0: u8) -> bool {
    (b0 >> 7) & 1 != 0
}

/// Whether byte 0 announces an IV (bit 6).
pub open spec fn props_has_iv(b0: u8) -> bool {
    (b0 >> 6) & 1 != 0
}

/// The salt size announced by bytes 0 and 1: upper nibble of byte 1 plus one
/// when a salt is present, else zero.
pub open spec fn props_salt_size(b0: u8, b1: u8) -> int {
    if props_has_salt(b0) {
        ((b1 >> 4) & 0x0F) + 1
    } else {
        0
    }
}

/// The IV size announced by bytes 0 and 1: lower nibble of byte 1 plus one
/// when an IV is present, else zero.
pub open spec fn props_iv_size(b0: u8, b1: u8) -> int {
    if props_has_iv(b0) {
        (b1 & 0x0F) + 1
    } else {
        0
    }
}

/// A properties blob is accepted when it holds its two header bytes and the
/// salt and IV they announce (trailing bytes are ignored).
pub open spec fn props_valid(p: Seq<u8>) -> bool {
    &&& p.len() >= 2
    &&& p.len() >= 2 + props_salt_size(p[0], p[1]) + props_iv_size(p[0], p[1])
}

/// The salt of an accepted properties blob.
pub open spec fn props_salt(p: Seq<u8>) -> Seq<u8> {
    p.subrange(2, 2 + props_salt_size(p[0], p[1]))
}

/// The 16-byte IV of an accepted properties blob: the announced IV bytes,
/// followed by zeros up to 16 bytes.
pub open spec fn props_iv(p: Seq<u8>) -> Seq<u8> {
    let start = 2 + props_salt_size(p[0], p[1]);
    let n = props_iv_size(p[0], p[1]);
    p.subrange(start, start + n) + Seq::new((16 - n) as nat, |i: int| 0u8)
}

/// Parsed AES codec properties from the 7z container.
#[derive(Debug, Clone)]
pub struct AesProperties {
    /// KDF iteration count = `1 << num_cycles_power`.
    pub num_cycles_power: u8,
    /// Salt used in key derivation (0-16 bytes; typically 0 bytes).
    pub salt: Vec<u8>,
    /// AES-CBC initialization vector (shorter IVs are padded with zeros).
    pub iv: [u8; 16],
}

proof fn lemma_nibbles(b: u8)
    ensures
        (b >> 4) & 0x0F <= 15,
        b & 0x0F <= 15,
{
    assert((b >> 4) & 0x0F <= 15) by (bit_vector);
    assert(b & 0x0F <= 15) by (bit_vector);
}

impl AesProperties {
    /// Parse an AES properties blob from the 7z container.
    ///
    /// # Errors
    ///
    /// Returns [`AeszippyError::InvalidProperties`] (with the blob's length)
    /// if the blob is shorter than two bytes or than the salt and IV that its
    /// header announces.
    pub fn parse(props: &[u8]) -> (res: AeszippyResult<Self>)
        ensures
            match res {
                Ok(p) => {
                    &&& props_valid(props@)
                    &&& p.num_cycles_power == props_num_cycles_power(props@[0])
                    &&& p.salt@ == props_salt(props@)
                    &&& p.iv@ == props_iv(props@)
                },
                Err(e) => {
                    &&& !props_valid(props@)
                    &&& e matches AeszippyError::InvalidProperties(n) && n == props@.len()
                },
            },
    {
        if props.len() < 2 {
            return Err(AeszippyError::InvalidProperties(props.len()));
        }
        let b0 = props[0];
        let b1 = props[1];
        proof {
            lemma_nibbles(b1);
        }

        // bits [0:5] of byte 0 = NumCyclesPower
        let num_cycles_power = b0 & 0x3F;

        // bit 6 of byte 0 = IV-present flag; bit 7 = salt-present flag
        let has_iv = (b0 >> 6) & 1 != 0;
        let has_salt = (b0 >> 7) & 1 != 0;

        // When present: salt_size = upper_nibble(b1) + 1, iv_size = lower_nibble(b1) + 1
        let salt_size: usize = if has_salt {
            (((b1 >> 4) & 0x0F) + 1) as usize
        } else {
            0
        };
        let iv_size: usize = if has_iv {
            ((b1 & 0x0F) + 1) as usize
        } else {
            0
        };

        let required: usize = 2 + salt_size + iv_size;
        if props.len() < required {
            return Err(AeszippyError::InvalidProperties(props.len()));
        }

        let mut salt: Vec<u8> = Vec::with_capacity(salt_size);
        let mut i: usize = 0;
        while i < salt_size
            invariant
                i <= salt_size,
                2 + salt_size <= props.len(),
                salt@ == props@.subrange(2, 2 + i as int),
            decreases salt_size - i,
        {
            salt.push(props[2 + i]);
            i = i + 1;
        }

        // IV is always treated as 16 bytes; pad with zeros if shorter.
        let mut iv = [0u8; 16];
        let copy_len: usize = if iv_size < 16 { iv_size } else { 16 };
        let iv_start: usize = 2 + salt_size;
        let mut j: usize = 0;
        while j < copy_len
            invariant
                j <= copy_len,
                copy_len == iv_size,
                iv_size <= 16,
                iv_start + iv_size <= props.len(),
                iv@.len() == 16,
                forall|k: int| 0 <= k < j ==> iv@[k] == props@[iv_start + k],
                forall|k: int| j <= k < 16 ==> iv@[k] == 0u8,
            decreases copy_len - j,
        {
            iv[j] = props[iv_start + j];
            j = j + 1;
        }
        let ghost expected = props_iv(props@);
        assert(iv@ =~= expected);
        Ok(AesProperties { num_cycles_power, salt, iv })
    }
}

// ---------------------------------------------------------------------------
// Key derivation
// ---------------------------------------------------------------------------

/// The UTF-16LE encoding of one character: one code unit below U+10000,
/// else a surrogate pair; each unit low byte first.
pub open spec fn utf16le_char(c: char) -> Seq<u8> {
    let v = (c as u32) as int;
    if v < 0x10000 {
        seq![(v % 256) as u8, (v / 256) as u8]
    } else {
        let hi = 0xD800 + (v - 0x10000) / 1024;
        let lo = 0xDC00 + (v - 0x10000) % 1024;
        seq![(hi % 256) as u8, (hi / 256) as u8, (lo % 256) as u8, (lo / 256) as u8]
    }
}

/// The UTF-16LE encoding of a character sequence.
pub open spec fn utf16le(s: Seq<char>) -> Seq<u8>
    decreases s.len(),
{
    if s.len() == 0 {
        Seq::empty()
    } else {
        utf16le(s.drop_last()) + utf16le_char(s.last())
    }
}

/// A `u64` as 8 little-endian bytes.
pub open spec fn u64_le_bytes(x: u64) -> Seq<u8> {
    seq![
        x as u8,
        (x >> 8) as u8,
        (x >> 16) as u8,
        (x >> 24) as u8,
        (x >> 32) as u8,
        (x >> 40) as u8,
        (x >> 48) as u8,
        (x >> 56) as u8,
    ]
}

/// What one KDF round feeds to SHA-256: salt, encoded password, round counter.
pub open spec fn kdf_round_input(salt: Seq<u8>, password: Seq<u8>, round: u64) -> Seq<u8> {
    salt + password + u64_le_bytes(round)
}

/// Everything the first `rounds` KDF rounds feed to SHA-256, in order.
pub open spec fn kdf_stream(salt: Seq<u8>, password: Seq<u8>, rounds: nat) -> Seq<u8>
    decreases rounds,
{
    if rounds == 0 {
        Seq::empty()
    } else {
        kdf_stream(salt, password, (rounds - 1) as nat) + kdf_round_input(
            salt,
            password,
            (rounds - 1) as u64,
        )
    }
}

/// The 7z key: SHA-256 over `2^num_cycles_power` rounds of
/// `salt || UTF-16LE(password) || round as u64 LE`.
pub open spec fn seven_zip_key(password: Seq<char>, salt: Seq<u8>, num_cycles_power: nat) -> Seq<u8> {
    sha256(kdf_stream(salt, utf16le(password), pow2(num_cycles_power)))
}

/// Whether the KDF stream stays within what SHA-256 (as `sha2` counts the
/// message length) can absorb: `2^ncp * (salt + password + 8)` bytes.
pub open spec fn kdf_input_fits(salt_len: nat, password_len: nat, num_cycles_power: nat) -> bool {
    pow2(num_cycles_power) * (salt_len + password_len + 8) < sha256_input_limit()
}

proof fn lemma_kdf_stream_len(salt: Seq<u8>, password: Seq<u8>, rounds: nat)
    ensures
        kdf_stream(salt, password, rounds).len() == rounds * (salt.len() + password.len() + 8),
    decreases rounds,
{
    if rounds > 0 {
        lemma_kdf_stream_len(salt, password, (rounds - 1) as nat);
        let k = salt.len() + password.len() + 8;
        assert(rounds * k == (rounds - 1) * k + k) by (nonlinear_arith);
        assert(kdf_stream(salt, password, rounds) == kdf_stream(salt, password, (rounds - 1) as nat)
            + kdf_round_input(salt, password, (rounds - 1) as u64));
    } else {
        assert(rounds * (salt.len() + password.len() + 8) == 0) by (nonlinear_arith)
            requires
                rounds == 0,
        ;
    }
}

proof fn lemma_kdf_rounds_bound(n: nat, k: nat, r: nat)
    requires
        r < n,
        n * k < sha256_input_limit(),
    ensures
        (r + 1) * k < sha256_input_limit(),
{
    assert((r + 1) * k <= n * k) by (nonlinear_arith)
        requires
            r + 1 <= n,
    ;
}

proof fn lemma_num_cycles_power_small(ncp: nat, k: nat)
    requires
        pow2(ncp) * (k + 8) < sha256_input_limit(),
    ensures
        ncp < 61,
        pow2(ncp) <= u64::MAX,
{
    vstd::arithmetic::power2::lemma2_to64_rest();
    vstd::arithmetic::power2::lemma_pow2_pos(ncp);
    assert(pow2(ncp) <= pow2(ncp) * (k + 8)) by (nonlinear_arith)
        requires
            pow2(ncp) > 0,
    ;
    if ncp >= 61 {
        if ncp > 61 {
            vstd::arithmetic::power2::lemma_pow2_strictly_increases(61, ncp);
        }
        assert(false);
    }
}

/// The UTF-16LE encoding of a password, as the 7z KDF hashes it.
fn encode_utf16le(password: &str) -> (bytes: Vec<u8>)
    ensures
        bytes@ == utf16le(password@),
        crate::laws::utf16le_decode(bytes@) == Some(password@),
{
    broadcast use vstd::string::axiom_spec_iter;

    let mut bytes: Vec<u8> = Vec::new();
    for c in it: password.chars()
        invariant
            it.seq() == password@,
            bytes@ == utf16le(it.seq().take(it.index() as int)),
    {
        let ghost prefix = it.seq().take(it.index() as int);
        assert(it.seq().take(it.index() + 1).drop_last() == prefix);
        let v: u32 = c as u32;
        assert(c == it.seq()[it.index() as int]);
        proof {
            vstd::utf8::char_is_scalar(c);
        }
        if v < 0x10000 {
            bytes.push((v % 256) as u8);
            bytes.push((v / 256) as u8);
        } else {
            let hi: u32 = 0xD800 + (v - 0x10000) / 1024;
            let lo: u32 = 0xDC00 + (v - 0x10000) % 1024;
            bytes.push((hi % 256) as u8);
            bytes.push((hi / 256) as u8);
            bytes.push((lo % 256) as u8);
            bytes.push((lo / 256) as u8);
        }
    }
    assert(password@.take(password@.len() as int) == password@);
    proof {
        crate::laws::law_utf16le_decodes_back(password@);
    }
    bytes
}

/// Derive the 32-byte AES-256 key from a UTF-8 password using the 7z KDF.
///
/// The password is encoded as UTF-16LE before hashing; the hasher then
/// absorbs `salt || password || round as u64 LE` for each of the
/// `1 << num_cycles_power` rounds, and the digest is the key.
pub fn derive_key(password: &str, salt: &[u8], num_cycles_power: u8) -> (key: [u8; 32])
    requires
        kdf_input_fits(salt@.len(), utf16le(password@).len(), num_cycles_power as nat),
    ensures
        key@ == seven_zip_key(password@, salt@, num_cycles_power as nat),
{
    let pw_utf16le = encode_utf16le(password);
    let ghost k: nat = salt@.len() + pw_utf16le@.len() + 8;
    proof {
        lemma_num_cycles_power_small(num_cycles_power as nat, salt@.len() + pw_utf16le@.len());
        vstd::bits::lemma_u64_shl_is_mul(1u64, num_cycles_power as u64);
    }
    let num_rounds: u64 = 1u64 << (num_cycles_power as u64);
    let mut hasher = sha256_new();

    let mut round: u64 = 0;
    while round < num_rounds
        invariant
            round <= num_rounds,
            num_rounds == pow2(num_cycles_power as nat),
            k == salt@.len() + pw_utf16le@.len() + 8,
            num_rounds * k < sha256_input_limit(),
            sha256_absorbed(hasher) == kdf_stream(salt@, pw_utf16le@, round as nat),
        decreases num_rounds - round,
    {
        proof {
            lemma_kdf_stream_len(salt@, pw_utf16le@, round as nat);
            lemma_kdf_rounds_bound(num_rounds as nat, k, round as nat);
            assert((round + 1) * k == round * k + k) by (nonlinear_arith);
        }
        sha256_update(&mut hasher, salt);
        sha256_update(&mut hasher, pw_utf16le.as_slice());
        let counter: [u8; 8] = [
            round as u8,
            (round >> 8) as u8,
            (round >> 16) as u8,
            (round >> 24) as u8,
            (round >> 32) as u8,
            (round >> 40) as u8,
            (round >> 48) as u8,
            (round >> 56) as u8,
        ];
        assert(counter@ == u64_le_bytes(round));
        sha256_update(&mut hasher, counter.as_slice());
        assert(sha256_absorbed(hasher) == kdf_stream(salt@, pw_utf16le@, (round + 1) as nat));
        round = round + 1;
    }
    proof {
        lemma_kdf_stream_len(salt@, pw_utf16le@, num_rounds as nat);
    }
    sha256_finalize(hasher)
}

// ---------------------------------------------------------------------------
// Decryption
// ---------------------------------------------------------------------------

/// Decrypt a 7z AES-256-CBC encrypted stream.
///
/// The ciphertext must be a multiple of 16 bytes (AES block size). No
/// unpadding is performed: 7z does not add padding, and the caller trims the
/// output to the expected uncompressed size.
///
/// # Errors
///
/// Returns [`AeszippyError::InvalidCiphertextLength`] (with the length) if
/// `ciphertext.len()` is not a multiple of 16.
pub fn decrypt_aes256_cbc(ciphertext: &[u8], key: &[u8; 32], iv: &[u8; 16]) -> (res: AeszippyResult<
    Vec<u8>,
>)
    ensures
        ciphertext@.len() % 16 != 0 ==> (res matches Err(AeszippyError::InvalidCiphertextLength(n))
            && n == ciphertext@.len()),
        ciphertext@.len() % 16 == 0 ==> (res matches Ok(plain) && plain@ == aes256_cbc_decrypt(
            key@,
            iv@,
            ciphertext@,
        ) && plain@.len() == ciphertext@.len()),
        // encrypting what decryption returns gives the ciphertext back
        res matches Ok(plain) ==> aes256_cbc_encrypt(key@, iv@, plain@) == ciphertext@,
{
    if ciphertext.len() % 16 != 0 {
        return Err(AeszippyError::InvalidCiphertextLength(ciphertext.len()));
    }
    let mut buf = vstd::slice::slice_to_vec(ciphertext);
    match aes256_cbc_decrypt_in_place(key, iv, &mut buf) {
        Ok(()) => Ok(buf),
        Err(e) => Err(AeszippyError::decrypt(e)),
    }
}

/// The largest NumCyclesPower that 7z accepts (2^24 SHA-256 rounds).
pub const MAX_NUM_CYCLES_POWER: u8 = 24;

/// Whether a properties blob is accepted for decryption: well-formed, with a
/// NumCyclesPower in the valid range `0..=24`.
pub open spec fn props_decryptable(props: Seq<u8>) -> bool {
    props_valid(props) && props_num_cycles_power(props[0]) <= MAX_NUM_CYCLES_POWER
}

/// Whether decrypting with these properties and password stays within what
/// the key derivation can hash (see [`kdf_input_fits`]); blobs that are
/// rejected impose nothing.
pub open spec fn decrypt_7z_fits(props: Seq<u8>, password: Seq<char>) -> bool {
    props_decryptable(props) ==> kdf_input_fits(
        props_salt(props).len(),
        utf16le(password).len(),
        props_num_cycles_power(props[0]) as nat,
    )
}

/// All-in-one: parse AES properties, derive the key from the password, and
/// decrypt.
///
/// Returns the decrypted bytes, which may end in AES-block-alignment padding
/// (up to 15 zeros); the caller trims them to the expected size.
///
/// # Errors
///
/// [`AeszippyError::InvalidProperties`] if `props` is rejected by
/// [`AesProperties::parse`]; otherwise
/// [`AeszippyError::InvalidNumCyclesPower`] (with the value) if its
/// NumCyclesPower is above 24; otherwise
/// [`AeszippyError::InvalidCiphertextLength`] if the ciphertext is not a
/// multiple of 16 bytes.
pub fn decrypt_7z(ciphertext: &[u8], props: &[u8], password: &str) -> (res: AeszippyResult<Vec<u8>>)
    requires
        decrypt_7z_fits(props@, password@),
    ensures
        !props_valid(props@) ==> (res matches Err(AeszippyError::InvalidProperties(n)) && n
            == props@.len()),
        props_valid(props@) && props_num_cycles_power(props@[0]) > MAX_NUM_CYCLES_POWER ==> (res matches Err(
            AeszippyError::InvalidNumCyclesPower(n),
        ) && n == props_num_cycles_power(props@[0])),
        props_decryptable(props@) && ciphertext@.len() % 16 != 0 ==> (res matches Err(
            AeszippyError::InvalidCiphertextLength(n),
        ) && n == ciphertext@.len()),
        props_decryptable(props@) && ciphertext@.len() % 16 == 0 ==> (res matches Ok(plain) && plain@
            == aes256_cbc_decrypt(
            seven_zip_key(password@, props_salt(props@), props_num_cycles_power(props@[0]) as nat),
            props_iv(props@),
            ciphertext@,
        ) && plain@.len() == ciphertext@.len()),
{
    let aes_props = AesProperties::parse(props)?;
    if aes_props.num_cycles_power > MAX_NUM_CYCLES_POWER {
        return Err(AeszippyError::InvalidNumCyclesPower(aes_props.num_cycles_power));
    }
    let key = derive_key(password, aes_props.salt.as_slice(), aes_props.num_cycles_power);
    decrypt_aes256_cbc(ciphertext, &key, &aes_props.iv)
}

} // verus!
