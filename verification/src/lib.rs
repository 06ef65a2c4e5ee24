//! aeszippy: AES-256-CBC encryption and decryption for 7z archives (codec
//! method `[0x06, 0xF1, 0x07, 0x01]`, 7zAES), with the 7z password-based key
//! derivation (SHA-256 iterated `2^NumCyclesPower` times).
//!
//! The byte-level logic (properties blob layout, UTF-16LE password encoding,
//! key-derivation stream, zero padding, error selection) is verified; the
//! SHA-256, AES-CBC and random-number primitives come from the RustCrypto
//! crates and `getrandom`, behind the trusted items of [`primitives`].

pub mod decrypt;
pub mod encrypt;
pub mod error;
pub mod laws;
pub mod primitives;
