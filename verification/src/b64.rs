//! The base64 text form of a byte sequence, for both alphabets and
//! both padding rules. These spec functions are what the encoding
//! wrappers promise to return and what the decoding contracts invert.

use vstd::prelude::*;

verus! {

/// The character standing for a six-bit value: `A`-`Z`, `a`-`z`,
/// `0`-`9`, then `+`/`/` in the standard alphabet or `-`/`_` in the
/// url-safe one.
pub open spec fn b64_char(url_safe: bool, v: int) -> char {
    if 0 <= v < 26 {
        ((65 + v) as u8) as char
    } else if 26 <= v < 52 {
        ((71 + v) as u8) as char
    } else if 52 <= v < 62 {
        ((v - 4) as u8) as char
    } else if v == 62 {
        if url_safe {
            '-'
        } else {
            '+'
        }
    } else {
        if url_safe {
            '_'
        } else {
            '/'
        }
    }
}

/// True of the characters of the chosen 64-symbol alphabet; the
/// padding character `=` is not among them.
pub open spec fn is_b64_symbol(url_safe: bool, c: char) -> bool {
    (65 <= c as int && c as int <= 90) || (97 <= c as int && c as int <= 122) || (48 <= c as int
        && c as int <= 57) || (if url_safe {
        c == '-' || c == '_'
    } else {
        c == '+' || c == '/'
    })
}

/// The base64 symbols of a byte sequence, without padding: bytes are
/// taken three at a time into four six-bit groups, high bits first; a
/// final lone byte yields two symbols and a final pair three.
pub open spec fn b64_symbols(b: Seq<u8>, url_safe: bool) -> Seq<char>
    decreases b.len(),
{
    if b.len() == 0 {
        Seq::empty()
    } else if b.len() == 1 {
        let n = b[0] as int;
        seq![b64_char(url_safe, n / 4), b64_char(url_safe, (n % 4) * 16)]
    } else if b.len() == 2 {
        let n = b[0] as int * 256 + b[1] as int;
        seq![
            b64_char(url_safe, n / 1024),
            b64_char(url_safe, (n / 16) % 64),
            b64_char(url_safe, (n % 16) * 4),
        ]
    } else {
        let n = b[0] as int * 65536 + b[1] as int * 256 + b[2] as int;
        seq![
            b64_char(url_safe, n / 262144),
            b64_char(url_safe, (n / 4096) % 64),
            b64_char(url_safe, (n / 64) % 64),
            b64_char(url_safe, n % 64),
        ] + b64_symbols(b.skip(3), url_safe)
    }
}

/// The `=` suffix that pads an encoding out to a multiple of four
/// symbols, given the length of the final byte group.
pub open spec fn pad_suffix(rem: int) -> Seq<char> {
    if rem == 1 {
        seq!['=', '=']
    } else if rem == 2 {
        seq!['=']
    } else {
        Seq::empty()
    }
}

/// The base64 text of a byte sequence under one of the four variants.
pub open spec fn b64_text(b: Seq<u8>, url_safe: bool, padded: bool) -> Seq<char> {
    if padded {
        b64_symbols(b, url_safe) + pad_suffix(b.len() as int % 3)
    } else {
        b64_symbols(b, url_safe)
    }
}

/// Padded and unpadded encodings of the same bytes under the same
/// alphabet differ only by the trailing `=` suffix; in particular a
/// 16-byte value's padded text is its unpadded text followed by `==`.
pub proof fn lemma_padding_suffix(b: Seq<u8>, url_safe: bool)
    ensures
        b64_text(b, url_safe, true) == b64_text(b, url_safe, false) + pad_suffix(
            b.len() as int % 3,
        ),
        b.len() % 3 == 0 ==> b64_text(b, url_safe, true) == b64_text(b, url_safe, false),
        b.len() == 16 ==> b64_text(b, url_safe, true) == b64_text(b, url_safe, false) + seq![
            '=',
            '=',
        ],
{
    if b.len() % 3 == 0 {
        assert(b64_text(b, url_safe, true) =~= b64_text(b, url_safe, false));
    }
}

/// Each alphabet refuses the other's two closing symbols: `-` and `_`
/// are not standard symbols, and `+` and `/` are not url-safe ones.
pub proof fn lemma_alphabets_disjoint()
    ensures
        !is_b64_symbol(false, '-'),
        !is_b64_symbol(false, '_'),
        !is_b64_symbol(true, '+'),
        !is_b64_symbol(true, '/'),
{
}

} // verus!
