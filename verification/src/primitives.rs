//! Trusted interface to the outside primitives that the verified logic calls:
//! SHA-256 (`sha2`), AES-256-CBC without padding (`aes` + `cbc` + `cipher`),
//! the system random number generator (`getrandom`) and `std::io::Error`.
//!
//! Nothing in this file is proved: every contract below is a claim about the
//! outside code, stated over the spec names declared here.

use vstd::prelude::*;

use aes::Aes256;
use cipher::block_padding::{NoPadding, UnpadError};
use cipher::inout::PadError;
use cipher::{BlockDecryptMut, BlockEncryptMut, KeyIvInit};
use sha2::Digest;

verus! {

/// The largest number of bytes that SHA-256 may absorb plus one: `sha2`
/// computes the message length in bits as a `u64` when it finalizes, which
/// overflows (and panics in a debug build) from `2^61` bytes on.
pub open spec fn sha256_input_limit() -> nat {
    0x2000_0000_0000_0000
}

// ---------------------------------------------------------------------------
// std::io::Error
// ---------------------------------------------------------------------------

/// `std::io::Error`, carried opaquely inside [`crate::error::AeszippyError::Io`].
#[verifier::external_type_specification]
#[verifier::external_body]
pub struct ExIoError(std::io::Error);

/// Calls `std::io::Error::other(message)`. The error value is opaque, so
/// nothing is claimed of it.
#[verifier::external_body]
pub(crate) fn io_error_other(message: String) -> std::io::Error {
    std::io::Error::other(message)
}

// ---------------------------------------------------------------------------
// SHA-256 (sha2::Sha256, a streaming hasher)
// ---------------------------------------------------------------------------

/// A running `sha2::Sha256` hasher. Verus cannot declare `sha2::Sha256`
/// itself (it is an alias of a deeply generic wrapper type), so the hasher is
/// held here, hidden from Verus; its contents are named by [`sha256_absorbed`].
#[verifier::external_body]
pub struct Sha256Hasher {
    inner: sha2::Sha256,
}

/// The bytes that a hasher has absorbed so far, in order.
pub uninterp spec fn sha256_absorbed(h: Sha256Hasher) -> Seq<u8>;

/// The SHA-256 digest of a byte sequence (what `finalize` returns for a
/// hasher that absorbed exactly these bytes).
pub uninterp spec fn sha256(data: Seq<u8>) -> Seq<u8>;

/// Calls `<sha2::Sha256 as Digest>::new()`: a hasher that has absorbed nothing.
#[verifier::external_body]
pub(crate) fn sha256_new() -> (h: Sha256Hasher)
    ensures
        sha256_absorbed(h) == Seq::<u8>::empty(),
{
    Sha256Hasher { inner: sha2::Sha256::new() }
}

/// Calls `<sha2::Sha256 as Digest>::update(data)`: the hasher absorbs `data`
/// after what it already held.
#[verifier::external_body]
pub(crate) fn sha256_update(h: &mut Sha256Hasher, data: &[u8])
    requires
        sha256_absorbed(*old(h)).len() + data@.len() < sha256_input_limit(),
    ensures
        sha256_absorbed(*final(h)) == sha256_absorbed(*old(h)) + data@,
{
    h.inner.update(data)
}

/// Calls `<sha2::Sha256 as Digest>::finalize()` and turns the 32-byte
/// `GenericArray` into an array: the digest of everything absorbed.
#[verifier::external_body]
pub(crate) fn sha256_finalize(h: Sha256Hasher) -> (digest: [u8; 32])
    requires
        sha256_absorbed(h).len() < sha256_input_limit(),
    ensures
        digest@ == sha256(sha256_absorbed(h)),
{
    h.inner.finalize().into()
}

// ---------------------------------------------------------------------------
// AES-256-CBC without padding (cbc::Encryptor / cbc::Decryptor over aes::Aes256)
// ---------------------------------------------------------------------------

/// `block_padding::UnpadError`, the error of `decrypt_padded_mut`.
#[verifier::external_type_specification]
#[verifier::external_body]
pub struct ExUnpadError(UnpadError);

/// `inout::PadError`, the error of `encrypt_padded_mut`.
#[verifier::external_type_specification]
#[verifier::external_body]
pub struct ExPadError(PadError);

/// The AES-256 block cipher applied to one 16-byte block under a 32-byte key
/// (`aes::Aes256`'s block encryption, which `cbc::Encryptor` chains).
pub uninterp spec fn aes256_encrypt_block(key: Seq<u8>, block: Seq<u8>) -> Seq<u8>;

/// The inverse AES-256 block cipher applied to one 16-byte block under a
/// 32-byte key (`aes::Aes256`'s block decryption, which `cbc::Decryptor` chains).
pub uninterp spec fn aes256_decrypt_block(key: Seq<u8>, block: Seq<u8>) -> Seq<u8>;

/// Block `i` (bytes `16 * i .. 16 * i + 16`) of a byte sequence.
pub open spec fn block_at(data: Seq<u8>, i: int) -> Seq<u8> {
    data.subrange(16 * i, 16 * i + 16)
}

/// Byte-wise exclusive or of two byte sequences (as long as the first).
pub open spec fn xor_bytes(a: Seq<u8>, b: Seq<u8>) -> Seq<u8> {
    Seq::new(a.len(), |j: int| a[j] ^ b[j])
}

/// The block that CBC chains into block `i` of a ciphertext: the IV for the
/// first block, else the ciphertext block before it.
pub open spec fn chain_block(iv: Seq<u8>, ciphertext: Seq<u8>, i: int) -> Seq<u8> {
    if i == 0 {
        iv
    } else {
        block_at(ciphertext, i - 1)
    }
}

/// The CBC encryption equations, block by block: each block of `ciphertext`
/// is the block cipher applied to the plaintext block exclusive-or'ed with
/// the block chained into it (the IV for the first).
pub open spec fn cbc_blocks_chain(key: Seq<u8>, iv: Seq<u8>, plaintext: Seq<u8>, ciphertext: Seq<u8>) -> bool {
    forall|i: int|
        0 <= i < plaintext.len() / 16 ==> #[trigger] block_at(ciphertext, i) == aes256_encrypt_block(
            key,
            xor_bytes(block_at(plaintext, i), chain_block(iv, ciphertext, i)),
        )
}

/// AES-256-CBC encryption of block-aligned `data` under `key` and `iv`:
/// each ciphertext block is the block cipher applied to the plaintext block
/// exclusive-or'ed with the previous ciphertext block (the IV for the first).
pub open spec fn aes256_cbc_encrypt(key: Seq<u8>, iv: Seq<u8>, data: Seq<u8>) -> Seq<u8>
    decreases data.len(),
{
    if data.len() < 16 {
        Seq::empty()
    } else {
        let front = aes256_cbc_encrypt(key, iv, data.subrange(0, data.len() - 16));
        let prev = if data.len() < 32 {
            iv
        } else {
            front.subrange(front.len() - 16, front.len() as int)
        };
        front + aes256_encrypt_block(key, xor_bytes(data.subrange(data.len() - 16, data.len() as int), prev))
    }
}

/// AES-256-CBC decryption of block-aligned `data` under `key` and `iv`: each
/// plaintext block is the inverse block cipher applied to the ciphertext
/// block, exclusive-or'ed with the previous ciphertext block (the IV for the
/// first).
pub open spec fn aes256_cbc_decrypt(key: Seq<u8>, iv: Seq<u8>, data: Seq<u8>) -> Seq<u8> {
    Seq::new(
        data.len(),
        |j: int|
            aes256_decrypt_block(key, block_at(data, j / 16))[j % 16] ^ chain_block(iv, data, j / 16)[j % 16],
    )
}

/// Calls `cbc::Encryptor::<Aes256>::new(key, iv).encrypt_padded_mut::<NoPadding>(buf, buf.len())`.
///
/// As `cipher` and `inout` show: with `NoPadding` and the message filling the
/// whole buffer, it fails with `PadError` exactly when the length is not a
/// multiple of 16, before touching the buffer; otherwise it encrypts the
/// buffer in place in CBC mode over `aes::Aes256` (see [`aes256_cbc_encrypt`]).
/// AES being a permutation, CBC decryption under the same key and IV gives
/// the input back.
#[verifier::external_body]
pub(crate) fn aes256_cbc_encrypt_in_place(key: &[u8; 32], iv: &[u8; 16], buf: &mut Vec<u8>) -> (res:
    Result<(), PadError>)
    ensures
        res is Ok <==> old(buf)@.len() % 16 == 0,
        res is Ok ==> final(buf)@ == aes256_cbc_encrypt(key@, iv@, old(buf)@),
        res is Ok ==> final(buf)@.len() == old(buf)@.len(),
        res is Ok ==> cbc_blocks_chain(key@, iv@, old(buf)@, final(buf)@),
        res is Ok ==> forall|i: int|
            0 <= i < old(buf)@.len() / 16 ==> aes256_decrypt_block(key@, #[trigger] block_at(final(buf)@, i))
                == xor_bytes(block_at(old(buf)@, i), chain_block(iv@, final(buf)@, i)),
        res is Ok ==> aes256_cbc_decrypt(key@, iv@, final(buf)@) == old(buf)@,
        res is Err ==> final(buf)@ == old(buf)@,
{
    let len = buf.len();
    match cbc::Encryptor::<Aes256>::new(key.into(), iv.into()).encrypt_padded_mut::<NoPadding>(buf, len) {
        Ok(_) => Ok(()),
        Err(e) => Err(e),
    }
}

/// Calls `cbc::Decryptor::<Aes256>::new(key, iv).decrypt_padded_mut::<NoPadding>(buf)`.
///
/// As `cipher` and `block-padding` show: it fails with `UnpadError` exactly
/// when the length is not a multiple of 16, before touching the buffer;
/// otherwise it decrypts the buffer in place in CBC mode over `aes::Aes256`
/// (see [`aes256_cbc_decrypt`]) and, `NoPadding` removing nothing, keeps its
/// length. AES being a permutation, CBC encryption under the same key and IV
/// gives the input back.
#[verifier::external_body]
pub(crate) fn aes256_cbc_decrypt_in_place(key: &[u8; 32], iv: &[u8; 16], buf: &mut Vec<u8>) -> (res:
    Result<(), UnpadError>)
    ensures
        res is Ok <==> old(buf)@.len() % 16 == 0,
        res is Ok ==> final(buf)@ == aes256_cbc_decrypt(key@, iv@, old(buf)@),
        res is Ok ==> forall|i: int|
            0 <= i < old(buf)@.len() / 16 ==> aes256_encrypt_block(
                key@,
                xor_bytes(#[trigger] block_at(final(buf)@, i), chain_block(iv@, old(buf)@, i)),
            ) == block_at(old(buf)@, i),
        res is Ok ==> aes256_cbc_encrypt(key@, iv@, final(buf)@) == old(buf)@,
        res is Err ==> final(buf)@ == old(buf)@,
{
    match cbc::Decryptor::<Aes256>::new(key.into(), iv.into()).decrypt_padded_mut::<NoPadding>(buf) {
        Ok(_) => Ok(()),
        Err(e) => Err(e),
    }
}

/// The `Display` text of a `PadError` behind the message that
/// `encrypt_aes256_cbc` reports (`format!("AES encrypt error: {e}")`).
#[verifier::external_body]
pub(crate) fn pad_error_message(e: &PadError) -> String {
    format!("AES encrypt error: {e}")
}

// ---------------------------------------------------------------------------
// getrandom
// ---------------------------------------------------------------------------

/// `getrandom::Error`.
#[verifier::external_type_specification]
#[verifier::external_body]
pub struct ExGetrandomError(getrandom::Error);

/// Calls `getrandom::getrandom(buf)`: fills the 16 bytes from the system's
/// random source. What it writes is chance, so nothing is claimed of it.
#[verifier::external_body]
pub(crate) fn fill_random(buf: &mut [u8; 16]) -> Result<(), getrandom::Error> {
    getrandom::getrandom(buf)
}

/// The message under which a failure of the random source is reported:
/// `format!("failed to generate random IV: {e}")`, the error's `Display` text.
#[verifier::external_body]
pub(crate) fn random_failure_message(e: &getrandom::Error) -> String {
    format!("failed to generate random IV: {e}")
}

} // verus!
