//! 7z AES-256 encryption.
//!
//! For a plaintext and a password this produces:
//! 1. `ciphertext`: the AES-256-CBC encrypted bytes (zero-padded to a multiple of 16)
//! 2. `props`: the AES properties blob to store in the 7z container
//!
//! The properties always hold `num_cycles_power = 19` (the 7zz default,
//! 2^19 SHA-256 rounds), no salt, and a random 16-byte IV:
//!
//! ```text
//! byte 0: 19 | 0x40 = 0x53  (NumCyclesPower=19, has_iv=1, has_salt=0)
//! byte 1: 0x0F              (ivSize = 0x0F+1 = 16)
//! bytes 2..18: IV
//! ```

use vstd::prelude::*;

use crate::decrypt::{decrypt_7z, derive_key, kdf_input_fits, seven_zip_key, utf16le};
use crate::error::{AeszippyError, AeszippyResult};
use crate::laws::law_encryption_props_give_back_key_and_iv;
use crate::primitives::{
    aes256_cbc_decrypt, aes256_cbc_encrypt, aes256_cbc_encrypt_in_place, cbc_blocks_chain, fill_random,
    io_error_other, pad_error_message, random_failure_message,
};

verus! {

/// The number of KDF rounds 7zz uses by default: `2^19 = 524288`.
pub const DEFAULT_NUM_CYCLES_POWER: u8 = 19;

/// The length of `n` bytes zero-padded to whole 16-byte AES blocks.
pub open spec fn padded_len(n: nat) -> nat {
    ((n + 15) / 16) * 16
}

/// `data` followed by zeros up to the next multiple of 16 bytes.
pub open spec fn zero_pad16(data: Seq<u8>) -> Seq<u8> {
    data + Seq::new((padded_len(data.len()) - data.len()) as nat, |i: int| 0u8)
}

/// The properties blob written for a NumCyclesPower and an IV: the IV flag
/// or'ed into byte 0, `0x0F` (IV size 16) in byte 1, then the IV.
pub open spec fn built_props(num_cycles_power: u8, iv: Seq<u8>) -> Seq<u8> {
    seq![num_cycles_power | 0x40, 0x0Fu8] + iv
}

/// Whether a password's key derivation at the default NumCyclesPower, with no
/// salt, stays within what SHA-256 can absorb.
pub open spec fn encrypt_7z_fits(password: Seq<char>) -> bool {
    kdf_input_fits(0, utf16le(password).len(), DEFAULT_NUM_CYCLES_POWER as nat)
}

/// The key that [`encrypt_7z`] encrypts under: the 7z KDF of the password at
/// the default NumCyclesPower with no salt.
pub open spec fn default_key(password: Seq<char>) -> Seq<u8> {
    seven_zip_key(password, Seq::empty(), DEFAULT_NUM_CYCLES_POWER as nat)
}

/// The ciphertext and properties blob that 7z encryption produces for a
/// plaintext, a password and an IV.
pub open spec fn encrypt_7z_output(plaintext: Seq<u8>, password: Seq<char>, iv: Seq<u8>) -> (Seq<
    u8,
>, Seq<u8>) {
    (
        aes256_cbc_encrypt(default_key(password), iv, zero_pad16(plaintext)),
        built_props(DEFAULT_NUM_CYCLES_POWER, iv),
    )
}

// ---------------------------------------------------------------------------
// IV generation
// ---------------------------------------------------------------------------

/// Generate a fresh random 16-byte AES IV using the system CSPRNG.
///
/// The IV's bytes are whatever the random source gave; a failure of the
/// source is reported as [`AeszippyError::Io`].
fn random_iv() -> (res: AeszippyResult<[u8; 16]>)
    ensures
        res is Err ==> (res matches Err(AeszippyError::Io(_))),
{
    let mut iv = [0u8; 16];
    match fill_random(&mut iv) {
        Ok(()) => Ok(iv),
        Err(e) => Err(AeszippyError::Io(io_error_other(random_failure_message(&e)))),
    }
}

// ---------------------------------------------------------------------------
// Encryption
// ---------------------------------------------------------------------------

/// Encrypt a buffer with AES-256-CBC (no PKCS#7 padding).
///
/// `plaintext` is padded with zeros to the next multiple of 16, and the
/// ciphertext has that padded length. The caller trims the decrypted output
/// to the original length (the 7z container stores the uncompressed size).
/// It never fails: the padded buffer is always block-aligned.
pub fn encrypt_aes256_cbc(plaintext: &[u8], key: &[u8; 32], iv: &[u8; 16]) -> (res: AeszippyResult<
    Vec<u8>,
>)
    requires
        plaintext@.len() <= usize::MAX - 15,
    ensures
        res matches Ok(cipher) && cipher@ == aes256_cbc_encrypt(key@, iv@, zero_pad16(plaintext@))
            && cipher@.len() == padded_len(plaintext@.len()) && aes256_cbc_decrypt(
            key@,
            iv@,
            cipher@,
        ) == zero_pad16(plaintext@),
        res matches Ok(cipher) ==> cbc_blocks_chain(key@, iv@, zero_pad16(plaintext@), cipher@),
{
    // Pad plaintext to a multiple of 16 bytes with zeros (7z convention).
    let len = plaintext.len();
    let block_count: usize = if len % 16 != 0 {
        len / 16 + 1
    } else {
        len / 16
    };
    let padded_len: usize = block_count * 16;
    let mut buf: Vec<u8> = Vec::with_capacity(padded_len);
    let mut i: usize = 0;
    while i < len
        invariant
            i <= len,
            len == plaintext@.len(),
            buf@ == plaintext@.subrange(0, i as int),
        decreases len - i,
    {
        buf.push(plaintext[i]);
        i = i + 1;
    }
    while buf.len() < padded_len
        invariant
            len <= buf@.len() <= padded_len,
            buf@.subrange(0, len as int) == plaintext@,
            forall|k: int| len <= k < buf@.len() ==> buf@[k] == 0u8,
        decreases padded_len - buf.len(),
    {
        buf.push(0u8);
    }
    let ghost padded = zero_pad16(plaintext@);
    assert(buf@ =~= padded);

    match aes256_cbc_encrypt_in_place(key, iv, &mut buf) {
        Ok(()) => Ok(buf),
        Err(e) => Err(AeszippyError::DecryptError(pad_error_message(&e))),
    }
}

/// Build the AES properties blob in the format 7zz expects:
/// `byte[0] = num_cycles_power | 0x40` (has_iv=1, has_salt=0),
/// `byte[1] = 0x0F` (iv_size = 16), then the IV.
pub fn build_props(num_cycles_power: u8, iv: &[u8; 16]) -> (props: Vec<u8>)
    ensures
        props@ == built_props(num_cycles_power, iv@),
{
    let mut props: Vec<u8> = Vec::with_capacity(18);
    props.push(num_cycles_power | 0x40);  // has_iv=1, has_salt=0
    props.push(0x0F);  // ivSize = 0x0F + 1 = 16
    let mut i: usize = 0;
    while i < 16
        invariant
            i <= 16,
            props@ == seq![num_cycles_power | 0x40, 0x0Fu8] + iv@.subrange(0, i as int),
        decreases 16 - i,
    {
        props.push(iv[i]);
        i = i + 1;
    }
    assert(iv@.subrange(0, 16) == iv@);
    props
}

/// Encrypt result containing both the ciphertext and the AES properties blob.
///
/// Store `props` in the 7z coder properties and `ciphertext` as the packed stream.
#[derive(Debug, Clone)]
pub struct EncryptResult {
    /// The AES-256-CBC encrypted bytes (padded to a multiple of 16).
    pub ciphertext: Vec<u8>,
    /// The AES properties blob to store in the 7z container's coder entry.
    pub props: Vec<u8>,
}

/// Encrypt under a given IV: derive the key from the password at the default
/// NumCyclesPower with no salt, encrypt, and build the properties blob.
/// [`encrypt_7z`] is this with a fresh random IV.
pub fn encrypt_7z_with_iv(plaintext: &[u8], password: &str, iv: &[u8; 16]) -> (res: AeszippyResult<
    EncryptResult,
>)
    requires
        plaintext@.len() <= usize::MAX - 15,
        encrypt_7z_fits(password@),
    ensures
        res matches Ok(r) && (r.ciphertext@, r.props@) == encrypt_7z_output(
            plaintext@,
            password@,
            iv@,
        ) && r.ciphertext@.len() == padded_len(plaintext@.len()) && aes256_cbc_decrypt(
            default_key(password@),
            iv@,
            r.ciphertext@,
        ) == zero_pad16(plaintext@),
        res matches Ok(r) ==> cbc_blocks_chain(
            default_key(password@),
            iv@,
            zero_pad16(plaintext@),
            r.ciphertext@,
        ),
{
    let empty: [u8; 0] = [];
    assert(empty@ =~= Seq::<u8>::empty());
    let key = derive_key(password, empty.as_slice(), DEFAULT_NUM_CYCLES_POWER);
    let ciphertext = encrypt_aes256_cbc(plaintext, &key, iv)?;
    let props = build_props(DEFAULT_NUM_CYCLES_POWER, iv);
    Ok(EncryptResult { ciphertext, props })
}

/// All-in-one: generate a random IV, derive the key from the password, and
/// encrypt, with `num_cycles_power = 19` (the 7zz default).
///
/// Whatever IV the random source gave stands in bytes 2..18 of `props`, and
/// the result is [`encrypt_7z_with_iv`]'s for it.
///
/// # Errors
///
/// [`AeszippyError::Io`] if the CSPRNG fails (very unlikely in practice).
pub fn encrypt_7z(plaintext: &[u8], password: &str) -> (res: AeszippyResult<EncryptResult>)
    requires
        plaintext@.len() <= usize::MAX - 15,
        encrypt_7z_fits(password@),
    ensures
        match res {
            Ok(r) => {
                &&& r.props@.len() == 18
                &&& (r.ciphertext@, r.props@) == encrypt_7z_output(
                    plaintext@,
                    password@,
                    r.props@.subrange(2, 18),
                )
                &&& r.ciphertext@.len() == padded_len(plaintext@.len())
                &&& aes256_cbc_decrypt(
                    default_key(password@),
                    r.props@.subrange(2, 18),
                    r.ciphertext@,
                ) == zero_pad16(plaintext@)
                &&& cbc_blocks_chain(
                    default_key(password@),
                    r.props@.subrange(2, 18),
                    zero_pad16(plaintext@),
                    r.ciphertext@,
                )
            },
            Err(e) => e is Io,
        },
{
    let iv = random_iv()?;
    let res = encrypt_7z_with_iv(plaintext, password, &iv);
    proof {
        if res is Ok {
            assert(res->Ok_0.props@.subrange(2, 18) =~= iv@);
        }
    }
    res
}

/// Round trip: encrypt then decrypt with the same password.
///
/// Returns the decrypted bytes: the plaintext followed by the zeros that
/// padded it to a multiple of 16 bytes. The caller trims to the original
/// length.
///
/// # Errors
///
/// [`AeszippyError::Io`] if the CSPRNG fails.
pub fn encrypt_then_decrypt(plaintext: &[u8], password: &str) -> (res: AeszippyResult<Vec<u8>>)
    requires
        plaintext@.len() <= usize::MAX - 15,
        encrypt_7z_fits(password@),
    ensures
        match res {
            Ok(decrypted) => decrypted@ == zero_pad16(plaintext@),
            Err(e) => e is Io,
        },
{
    let result = encrypt_7z(plaintext, password)?;
    let ghost iv = result.props@.subrange(2, 18);
    proof {
        law_encryption_props_give_back_key_and_iv(password@, iv);
        assert(result.ciphertext@.len() % 16 == 0) by {
            assert(padded_len(plaintext@.len()) % 16 == 0);
        }
    }
    decrypt_7z(result.ciphertext.as_slice(), result.props.as_slice(), password)
}

} // verus!
