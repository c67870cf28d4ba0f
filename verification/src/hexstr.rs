//! The lowercase hexadecimal rendering of a byte sequence, and its
//! inverse. The codec re-reads every decoded payload through the
//! collaborating UUID parser's 32-digit hex form, so the round trip
//! proved here is what makes that cross-check loss-free.

use vstd::prelude::*;

verus! {

/// The hexadecimal digit (lowercase) for a nibble value below 16.
pub open spec fn hex_digit(v: int) -> char {
    if v < 10 {
        ((48 + v) as u8) as char
    } else {
        ((87 + v) as u8) as char
    }
}

/// True of the characters that may stand in a hexadecimal string,
/// either case.
pub open spec fn is_hex_char(c: char) -> bool {
    (48 <= c as int && c as int <= 57) || (97 <= c as int && c as int <= 102) || (65 <= c as int
        && c as int <= 70)
}

/// The nibble value of a hexadecimal character.
pub open spec fn hex_char_val(c: char) -> int {
    if 48 <= c as int && c as int <= 57 {
        c as int - 48
    } else if 97 <= c as int && c as int <= 102 {
        c as int - 87
    } else {
        c as int - 55
    }
}

/// The canonical hyphenated UUID grammar: 36 characters in 8-4-4-4-12
/// hexadecimal groups, with hyphens at positions 8, 13, 18 and 23.
pub open spec fn is_hyphenated_uuid(s: Seq<char>) -> bool {
    s.len() == 36 && (forall|i: int|
        0 <= i < 36 ==> (if i == 8 || i == 13 || i == 18 || i == 23 {
            s[i] == '-'
        } else {
            is_hex_char(#[trigger] s[i])
        }))
}

/// The lowercase hexadecimal rendering of a byte sequence: two digits
/// per byte, high nibble first.
pub open spec fn hex_lower(b: Seq<u8>) -> Seq<char>
    decreases b.len(),
{
    if b.len() == 0 {
        Seq::empty()
    } else {
        seq![hex_digit(b[0] as int / 16), hex_digit(b[0] as int % 16)] + hex_lower(b.skip(1))
    }
}

/// The byte sequence a hexadecimal string denotes, read two characters
/// per byte.
pub open spec fn hex_val(s: Seq<char>) -> Seq<u8>
    decreases s.len(),
{
    if s.len() < 2 {
        Seq::empty()
    } else {
        seq![(hex_char_val(s[0]) * 16 + hex_char_val(s[1])) as u8] + hex_val(s.skip(2))
    }
}

/// Reading a digit back gives the nibble it was written from.
pub proof fn lemma_hex_digit_val(v: int)
    requires
        0 <= v < 16,
    ensures
        is_hex_char(hex_digit(v)),
        hex_char_val(hex_digit(v)) == v,
{
}

/// The hex rendering of a byte sequence is twice as long and holds
/// only hexadecimal characters.
pub proof fn lemma_hex_lower_chars(b: Seq<u8>)
    ensures
        hex_lower(b).len() == 2 * b.len(),
        forall|i: int| 0 <= i < hex_lower(b).len() ==> is_hex_char(#[trigger] hex_lower(b)[i]),
    decreases b.len(),
{
    if b.len() != 0 {
        lemma_hex_digit_val(b[0] as int / 16);
        lemma_hex_digit_val(b[0] as int % 16);
        lemma_hex_lower_chars(b.skip(1));
    }
}

/// Rendering bytes as lowercase hex and reading the digits back yields
/// the same bytes.
pub proof fn lemma_hex_round_trip(b: Seq<u8>)
    ensures
        hex_val(hex_lower(b)) == b,
    decreases b.len(),
{
    if b.len() == 0 {
        assert(hex_val(hex_lower(b)) =~= b);
    } else {
        let s = hex_lower(b);
        lemma_hex_digit_val(b[0] as int / 16);
        lemma_hex_digit_val(b[0] as int % 16);
        lemma_hex_round_trip(b.skip(1));
        assert(s.skip(2) =~= hex_lower(b.skip(1)));
        assert(hex_char_val(s[0]) * 16 + hex_char_val(s[1]) == b[0] as int);
        assert(hex_val(s) =~= b);
    }
}

} // verus!
