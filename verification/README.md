# aeszippy

AES-256-CBC encryption and decryption for 7z archives (method ID
`[0x06, 0xF1, 0x07, 0x01]`, 7zAES), with the 7z password-based key derivation
(SHA-256 iterated `2^NumCyclesPower` times), written in Verus.

Layout:

- `src/decrypt.rs`: the AES properties blob (`AesProperties::parse`), the key
  derivation (`derive_key`), and decryption (`decrypt_aes256_cbc`, `decrypt_7z`).
- `src/encrypt.rs`: zero-padded encryption (`encrypt_aes256_cbc`), the
  properties blob (`build_props`), `encrypt_7z`, `encrypt_7z_with_iv` and
  `encrypt_then_decrypt`.
- `src/laws.rs`: proof functions relating the properties writer and parser,
  CBC decryption split at block boundaries, distinct IVs, and UTF-16LE length.
- `src/error.rs`: `AeszippyError`.
- `src/primitives.rs`: the trusted contracts of SHA-256 (`sha2`), AES-256-CBC
  (`aes`, `cbc`, `cipher`), the random source (`getrandom`) and `std::io::Error`.
- `app/lib.rs`: the error type with its `thiserror`-derived `Display` and
  `std::error::Error`, converting to and from the library's.
- `tests/`: the tests, including NIST SP 800-38A AES-256-CBC vectors.
