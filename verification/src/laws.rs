//! Laws of the library that relate several of its functions, stated over the
//! spec functions that those functions' contracts use.

use vstd::prelude::*;

use crate::decrypt::{
    props_iv, props_num_cycles_power, props_salt, props_valid, seven_zip_key, utf16le,
    utf16le_char,
};
use crate::encrypt::{built_props, default_key, padded_len, zero_pad16, DEFAULT_NUM_CYCLES_POWER};
use crate::primitives::{aes256_cbc_decrypt, block_at, chain_block};

verus! {

/// The properties blob that `build_props` writes parses back: it is accepted,
/// and parsing gives its NumCyclesPower, no salt, and its 16-byte IV, for
/// every NumCyclesPower that fits the six bits the format gives it.
pub proof fn law_built_props_parse(num_cycles_power: u8, iv: Seq<u8>)
    requires
        num_cycles_power < 64,
        iv.len() == 16,
    ensures
        props_valid(built_props(num_cycles_power, iv)),
        props_num_cycles_power(built_props(num_cycles_power, iv)[0]) == num_cycles_power,
        props_salt(built_props(num_cycles_power, iv)) == Seq::<u8>::empty(),
        props_iv(built_props(num_cycles_power, iv)) == iv,
{
    let p = built_props(num_cycles_power, iv);
    let b0 = num_cycles_power | 0x40;
    let b1 = 0x0Fu8;
    assert(p[0] == b0 && p[1] == b1);
    assert(b0 & 0x3F == num_cycles_power) by (bit_vector)
        requires
            num_cycles_power < 64,
            b0 == num_cycles_power | 0x40,
    ;
    assert((b0 >> 7) & 1 == 0) by (bit_vector)
        requires
            num_cycles_power < 64,
            b0 == num_cycles_power | 0x40,
    ;
    assert((b0 >> 6) & 1 == 1) by (bit_vector)
        requires
            b0 == num_cycles_power | 0x40,
    ;
    assert((b1 & 0x0F) + 1 == 16) by (bit_vector)
        requires
            b1 == 0x0Fu8,
    ;
    assert(props_salt(p) =~= Seq::<u8>::empty());
    assert(props_iv(p) =~= iv);
}

/// What decryption reads back from what encryption writes: for every
/// password and 16-byte IV, the properties blob that encryption stores is
/// accepted with the default NumCyclesPower and no salt, and the key and IV that decryption derives from it and the same
/// password are the key and IV that encryption used.
pub proof fn law_encryption_props_give_back_key_and_iv(password: Seq<char>, iv: Seq<u8>)
    requires
        iv.len() == 16,
    ensures
        ({
            let props = built_props(DEFAULT_NUM_CYCLES_POWER, iv);
            &&& props_valid(props)
            &&& props_num_cycles_power(props[0]) == DEFAULT_NUM_CYCLES_POWER
            &&& props_salt(props) == Seq::<u8>::empty()
            &&& seven_zip_key(password, props_salt(props), props_num_cycles_power(props[0]) as nat)
                == default_key(password)
            &&& props_iv(props) == iv
        }),
{
    law_built_props_parse(DEFAULT_NUM_CYCLES_POWER, iv);
}

/// Zero padding leaves block-aligned data as it is. With the contracts of
/// `decrypt_aes256_cbc` and `encrypt_aes256_cbc`, encrypting what a decryption
/// returned (always block-aligned) gives the ciphertext back.
pub proof fn law_zero_pad_keeps_aligned(data: Seq<u8>)
    requires
        data.len() % 16 == 0,
    ensures
        zero_pad16(data) == data,
        padded_len(data.len()) == data.len(),
{
    assert(zero_pad16(data) =~= data);
}

/// What zero padding gives: `(len + 15) / 16 * 16` bytes, the data first, then
/// zeros. With the round-trip contracts (`encrypt_then_decrypt`, and
/// `encrypt_aes256_cbc` followed by `decrypt_aes256_cbc`), this is the shape of
/// what decryption gives back.
pub proof fn law_zero_pad16_shape(data: Seq<u8>)
    ensures
        zero_pad16(data).len() == (data.len() + 15) / 16 * 16,
        zero_pad16(data).len() % 16 == 0,
        zero_pad16(data).len() < data.len() + 16,
        zero_pad16(data).subrange(0, data.len() as int) == data,
        forall|i: int| data.len() <= i < zero_pad16(data).len() ==> #[trigger] zero_pad16(data)[i] == 0u8,
{
    assert(zero_pad16(data).subrange(0, data.len() as int) =~= data);
}

/// The IV that decrypting the rest of a ciphertext continues with after its
/// block-aligned front: the front's last block, or the IV if the front is empty.
pub open spec fn next_iv(iv: Seq<u8>, front: Seq<u8>) -> Seq<u8> {
    if front.len() == 0 {
        iv
    } else {
        front.subrange(front.len() - 16, front.len() as int)
    }
}

/// CBC decryption splits at block boundaries: decrypting a block-aligned
/// ciphertext cut at a block boundary gives the decryption of the front followed by
/// the decryption of the rest under the front's last block as IV.
pub proof fn law_cbc_decrypt_split(key: Seq<u8>, iv: Seq<u8>, front: Seq<u8>, rest: Seq<u8>)
    requires
        front.len() % 16 == 0,
        rest.len() % 16 == 0,
    ensures
        aes256_cbc_decrypt(key, iv, front + rest) == aes256_cbc_decrypt(key, iv, front)
            + aes256_cbc_decrypt(key, next_iv(iv, front), rest),
{
    let whole = front + rest;
    let n = front.len() as int;
    let lhs = aes256_cbc_decrypt(key, iv, whole);
    let rhs = aes256_cbc_decrypt(key, iv, front) + aes256_cbc_decrypt(key, next_iv(iv, front), rest);
    assert forall|j: int| 0 <= j < whole.len() implies lhs[j] == rhs[j] by {
        let b = j / 16;
        if j < n {
            assert(b * 16 + 16 <= n);
            assert(block_at(whole, b) =~= block_at(front, b));
            if b > 0 {
                assert(block_at(whole, b - 1) =~= block_at(front, b - 1));
            }
            assert(chain_block(iv, whole, b) == chain_block(iv, front, b));
        } else {
            let k = j - n;
            let bk = k / 16;
            assert(b == bk + n / 16);
            assert(j % 16 == k % 16);
            assert(16 * bk + 16 <= rest.len());
            assert(block_at(whole, b) =~= block_at(rest, bk));
            if bk > 0 {
                assert(block_at(whole, b - 1) =~= block_at(rest, bk - 1));
            } else if n > 0 {
                assert(block_at(whole, b - 1) =~= front.subrange(n - 16, n));
            }
            assert(chain_block(iv, whole, b) == chain_block(next_iv(iv, front), rest, bk));
        }
    }
    assert(lhs =~= rhs);
}

/// Under one key, two non-empty ciphertexts that decrypt to the same
/// plaintext under distinct IVs are distinct. Encryption's contracts state
/// that its output decrypts back to its (padded) input, so encrypting the
/// same non-empty plaintext under distinct IVs gives distinct ciphertexts.
pub proof fn law_distinct_ivs_distinct_ciphertexts(
    key: Seq<u8>,
    iv1: Seq<u8>,
    iv2: Seq<u8>,
    c1: Seq<u8>,
    c2: Seq<u8>,
)
    requires
        iv1.len() == 16,
        iv2.len() == 16,
        iv1 != iv2,
        c1.len() >= 16,
        aes256_cbc_decrypt(key, iv1, c1) == aes256_cbc_decrypt(key, iv2, c2),
    ensures
        c1 != c2,
{
    if c1 == c2 {
        let d1 = aes256_cbc_decrypt(key, iv1, c1);
        let d2 = aes256_cbc_decrypt(key, iv2, c2);
        assert forall|j: int| 0 <= j < 16 implies iv1[j] == iv2[j] by {
            assert(j / 16 == 0 && j % 16 == j);
            assert(d1[j] == d2[j]);
            let x = crate::primitives::aes256_decrypt_block(key, block_at(c1, 0))[j];
            let a = iv1[j];
            let b = iv2[j];
            assert(x ^ a == x ^ b ==> a == b) by (bit_vector);
        }
        assert(iv1 =~= iv2);
    }
}

/// The UTF-16LE encoding of a password takes two or four bytes per
/// character: between `2 * len` and `4 * len` bytes. With it, a caller can
/// bound the key-derivation stream of a password it holds.
pub proof fn law_utf16le_len(s: Seq<char>)
    ensures
        2 * s.len() <= utf16le(s).len() <= 4 * s.len(),
    decreases s.len(),
{
    if s.len() > 0 {
        law_utf16le_len(s.drop_last());
        assert(2 <= utf16le_char(s.last()).len() <= 4);
    }
}

// ---------------------------------------------------------------------------
// UTF-16LE, checked against an independent decoder
// ---------------------------------------------------------------------------

/// The UTF-16 code unit that two bytes hold, low byte first.
pub open spec fn le_unit(lo: u8, hi: u8) -> int {
    lo as int + 256 * (hi as int)
}

/// Standard UTF-16LE decoding: read 16-bit code units low byte first; a unit
/// outside `0xD800..0xE000` is a character by itself, a high surrogate
/// (`0xD800..0xDC00`) followed by a low surrogate (`0xDC00..0xE000`) is the
/// character `0x10000 + (high - 0xD800) * 0x400 + (low - 0xDC00)`. Anything
/// else (an odd byte, a lone surrogate) is malformed: `None`.
pub open spec fn utf16le_decode(bytes: Seq<u8>) -> Option<Seq<char>>
    decreases bytes.len(),
{
    if bytes.len() == 0 {
        Some(Seq::empty())
    } else if bytes.len() < 2 {
        None
    } else {
        let u = le_unit(bytes[0], bytes[1]);
        if 0xD800 <= u < 0xDC00 {
            if bytes.len() < 4 {
                None
            } else {
                let w = le_unit(bytes[2], bytes[3]);
                if 0xDC00 <= w < 0xE000 {
                    match utf16le_decode(bytes.subrange(4, bytes.len() as int)) {
                        Some(rest) => Some(
                            seq![((0x10000 + (u - 0xD800) * 0x400 + (w - 0xDC00)) as u32) as char]
                                + rest,
                        ),
                        None => None,
                    }
                } else {
                    None
                }
            }
        } else if 0xDC00 <= u < 0xE000 {
            None
        } else {
            match utf16le_decode(bytes.subrange(2, bytes.len() as int)) {
                Some(rest) => Some(seq![(u as u32) as char] + rest),
                None => None,
            }
        }
    }
}

/// Each character's UTF-16LE bytes are its code units, low byte first: a
/// character below U+10000 is one unit equal to its code point; any other is
/// a high surrogate and a low surrogate that recombine to its code point.
pub proof fn law_utf16le_char_units(c: char)
    ensures
        (c as u32) < 0x10000 ==> {
            let e = utf16le_char(c);
            &&& e.len() == 2
            &&& le_unit(e[0], e[1]) == c as u32
        },
        (c as u32) >= 0x10000 ==> {
            let e = utf16le_char(c);
            let hi = le_unit(e[0], e[1]);
            let lo = le_unit(e[2], e[3]);
            &&& e.len() == 4
            &&& 0xD800 <= hi < 0xDC00
            &&& 0xDC00 <= lo < 0xE000
            &&& 0x10000 + (hi - 0xD800) * 0x400 + (lo - 0xDC00) == c as u32
        },
{
    vstd::utf8::char_is_scalar(c);
    let v = (c as u32) as int;
    if v >= 0x10000 {
        let q = (v - 0x10000) / 1024;
        let r = (v - 0x10000) % 1024;
        assert(v - 0x10000 == q * 1024 + r) by {
            vstd::arithmetic::div_mod::lemma_fundamental_div_mod(v - 0x10000, 1024);
        }
        assert(0 <= q < 1024);
    }
}

/// UTF-16LE encoding goes character by character: the encoding of a
/// concatenation is the concatenation of the encodings.
pub proof fn law_utf16le_concat(a: Seq<char>, b: Seq<char>)
    ensures
        utf16le(a + b) == utf16le(a) + utf16le(b),
    decreases b.len(),
{
    if b.len() == 0 {
        assert(a + b =~= a);
        assert(utf16le(a) + utf16le(b) =~= utf16le(a));
    } else {
        law_utf16le_concat(a, b.drop_last());
        assert((a + b).drop_last() =~= a + b.drop_last());
        assert((a + b).last() == b.last());
        assert(utf16le(a + b) =~= utf16le(a) + utf16le(b));
    }
}

proof fn lemma_utf16le_first(s: Seq<char>)
    requires
        s.len() > 0,
    ensures
        utf16le(s) == utf16le_char(s[0]) + utf16le(s.drop_first()),
{
    assert(s =~= seq![s[0]] + s.drop_first());
    law_utf16le_concat(seq![s[0]], s.drop_first());
    let one = seq![s[0]];
    assert(one.drop_last() =~= Seq::<char>::empty());
    assert(one.last() == s[0]);
    assert(utf16le(one.drop_last()) == Seq::<u8>::empty());
    assert(utf16le(one) == utf16le(one.drop_last()) + utf16le_char(one.last()));
    assert(utf16le(one) =~= utf16le_char(s[0]));
}

proof fn lemma_decode_char_then(c: char, rest: Seq<u8>)
    ensures
        utf16le_decode(utf16le_char(c) + rest) == match utf16le_decode(rest) {
            Some(t) => Some(seq![c] + t),
            None => None::<Seq<char>>,
        },
{
    law_utf16le_char_units(c);
    vstd::utf8::char_is_scalar(c);
    let e = utf16le_char(c);
    let bytes = e + rest;
    let v = c as u32;
    vstd::utf8::char_u32_cast(c, v);
    if (v as int) < 0x10000 {
        assert(bytes[0] == e[0] && bytes[1] == e[1]);
        assert(bytes.subrange(2, bytes.len() as int) =~= rest);
        assert(!(0xD800 <= v <= 0xDFFF));
        assert((le_unit(bytes[0], bytes[1]) as u32) == v);
    } else {
        assert(bytes[0] == e[0] && bytes[1] == e[1] && bytes[2] == e[2] && bytes[3] == e[3]);
        assert(bytes.subrange(4, bytes.len() as int) =~= rest);
        let hi = le_unit(e[0], e[1]);
        let lo = le_unit(e[2], e[3]);
        assert(((0x10000 + (hi - 0xD800) * 0x400 + (lo - 0xDC00)) as u32) == v);
    }
}

/// UTF-16LE encoding round-trips through standard UTF-16 decoding: decoding
/// the bytes of any character sequence gives exactly that sequence back.
pub proof fn law_utf16le_decodes_back(s: Seq<char>)
    ensures
        utf16le_decode(utf16le(s)) == Some(s),
    decreases s.len(),
{
    if s.len() == 0 {
        assert(utf16le(s) =~= Seq::<u8>::empty());
    } else {
        lemma_utf16le_first(s);
        law_utf16le_decodes_back(s.drop_first());
        lemma_decode_char_then(s[0], utf16le(s.drop_first()));
        assert(seq![s[0]] + s.drop_first() =~= s);
    }
}

/// UTF-16LE encoding is injective: distinct passwords give distinct byte
/// strings to the key derivation.
pub proof fn law_utf16le_injective(s1: Seq<char>, s2: Seq<char>)
    requires
        utf16le(s1) == utf16le(s2),
    ensures
        s1 == s2,
{
    law_utf16le_decodes_back(s1);
    law_utf16le_decodes_back(s2);
}

} // verus!
