//! The trusted boundary. Everything the codec takes from its
//! collaborating crates passes through the declarations and wrappers
//! here; each wrapper's contract states only what the collaborator's
//! source and documentation show of the one call its body makes.

use vstd::prelude::*;

use base64::Engine;
use uuid::Error as UuidParseFault;

use crate::b64::b64_text;
use crate::b64::is_b64_symbol;
use crate::hexstr::hex_lower;
use crate::hexstr::hex_val;
use crate::hexstr::is_hex_char;
use crate::hexstr::is_hyphenated_uuid;

verus! {

#[verifier::external_type_specification]
#[verifier::external_body]
pub struct ExUuid(uuid::Uuid);

#[verifier::external_type_specification]
#[verifier::external_body]
pub struct ExUuidError(UuidParseFault);

#[verifier::external_type_specification]
#[verifier::external_body]
pub struct ExDecodeError(base64::DecodeError);

/// The 16 bytes a collaborator-owned UUID value wraps.
pub uninterp spec fn uuid_bytes(u: uuid::Uuid) -> Seq<u8>;

/// What the collaborator's UUID parser makes of a string: the 16
/// parsed bytes, or nothing where it refuses the text.
pub uninterp spec fn uuid_parse(s: Seq<char>) -> Option<Seq<u8>>;

/// Relies on uuid::Uuid::from_bytes: it wraps the given bytes
/// unchanged.
#[verifier::external_body]
pub(crate) fn uuid_of_bytes(b: [u8; 16]) -> (r: uuid::Uuid)
    ensures
        uuid_bytes(r) == b@,
{
    uuid::Uuid::from_bytes(b)
}

/// Relies on uuid::Uuid::into_bytes: it hands back the 16 bytes the
/// value wraps.
#[verifier::external_body]
pub(crate) fn bytes_of_uuid(u: uuid::Uuid) -> (r: [u8; 16])
    ensures
        r@ == uuid_bytes(u),
{
    u.into_bytes()
}

/// Relies on uuid::Uuid::parse_str: its verdict depends on the string
/// alone. It takes only the simple, hyphenated, braced and urn forms,
/// whose lengths are 32, 36, 38 and 45, and refuses every other
/// length; a 36-character string must match the hyphenated
/// 8-4-4-4-12 grammar; a string of exactly 32 hexadecimal digits (the
/// "simple" form, either case) is accepted as the bytes those digits
/// spell.
#[verifier::external_body]
pub(crate) fn parse_uuid_str(s: &str) -> (r: Result<[u8; 16], uuid::Error>)
    ensures
        r is Ok <==> uuid_parse(s@) is Some,
        r is Ok ==> uuid_parse(s@) == Some(r->Ok_0@),
        (s@.len() == 32 && (forall|i: int| 0 <= i < 32 ==> is_hex_char(#[trigger] s@[i]))) ==> (r
            is Ok && r->Ok_0@ == hex_val(s@)),
        (s@.len() != 32 && s@.len() != 36 && s@.len() != 38 && s@.len() != 45) ==> r is Err,
        (s@.len() == 36 && !is_hyphenated_uuid(s@)) ==> r is Err,
{
    uuid::Uuid::parse_str(s).map(|u| u.into_bytes())
}

/// Relies on uuid::Uuid::new_v4: fresh random bytes with the
/// version-4 and RFC-4122-variant bits forced, and nothing else
/// promised of them.
#[verifier::external_body]
pub(crate) fn new_v4_bytes() -> (r: [u8; 16])
    ensures
        r@[6] & 0xf0 == 0x40,
        r@[8] & 0xc0 == 0x80,
{
    uuid::Uuid::new_v4().into_bytes()
}

/// Relies on hex::encode: the lowercase two-digits-per-byte rendering
/// of the input.
#[verifier::external_body]
pub(crate) fn hex_encode(b: &[u8; 16]) -> (r: String)
    ensures
        r@ == hex_lower(b@),
{
    hex::encode(b)
}

/// Relies on base64's Engine::encode with the STANDARD engine:
/// standard alphabet, `=` padding.
#[verifier::external_body]
pub(crate) fn b64_encode_std_pad(b: &[u8; 16]) -> (r: String)
    ensures
        r@ == b64_text(b@, false, true),
{
    base64::engine::general_purpose::STANDARD.encode(b)
}

/// Relies on base64's Engine::encode with the STANDARD_NO_PAD engine:
/// standard alphabet, no padding.
#[verifier::external_body]
pub(crate) fn b64_encode_std_no_pad(b: &[u8; 16]) -> (r: String)
    ensures
        r@ == b64_text(b@, false, false),
{
    base64::engine::general_purpose::STANDARD_NO_PAD.encode(b)
}

/// Relies on base64's Engine::encode with the URL_SAFE engine:
/// url-safe alphabet, `=` padding.
#[verifier::external_body]
pub(crate) fn b64_encode_url_pad(b: &[u8; 16]) -> (r: String)
    ensures
        r@ == b64_text(b@, true, true),
{
    base64::engine::general_purpose::URL_SAFE.encode(b)
}

/// Relies on base64's Engine::encode with the URL_SAFE_NO_PAD engine:
/// url-safe alphabet, no padding.
#[verifier::external_body]
pub(crate) fn b64_encode_url_no_pad(b: &[u8; 16]) -> (r: String)
    ensures
        r@ == b64_text(b@, true, false),
{
    base64::engine::general_purpose::URL_SAFE_NO_PAD.encode(b)
}

/// Relies on base64's Engine::decode with the STANDARD engine: it
/// inverts encoding under the same alphabet and padding rule, and it
/// refuses text holding a character outside that alphabet (the
/// padding symbol aside).
#[verifier::external_body]
pub(crate) fn b64_decode_std_pad(s: &str) -> (r: Result<Vec<u8>, base64::DecodeError>)
    ensures
        forall|b: Seq<u8>| s@ == #[trigger] b64_text(b, false, true) ==> r is Ok && r->Ok_0@ == b,
        (exists|i: int|
            0 <= i < s@.len() && !is_b64_symbol(false, #[trigger] s@[i]) && s@[i] != '=') ==> r
            is Err,
{
    base64::engine::general_purpose::STANDARD.decode(s)
}

/// Relies on base64's Engine::decode with the STANDARD_NO_PAD engine:
/// it inverts unpadded encoding, and it refuses text holding any
/// character outside the standard alphabet, `=` included.
#[verifier::external_body]
pub(crate) fn b64_decode_std_no_pad(s: &str) -> (r: Result<Vec<u8>, base64::DecodeError>)
    ensures
        forall|b: Seq<u8>| s@ == #[trigger] b64_text(b, false, false) ==> r is Ok && r->Ok_0@ == b,
        (exists|i: int| 0 <= i < s@.len() && !is_b64_symbol(false, #[trigger] s@[i])) ==> r is Err,
{
    base64::engine::general_purpose::STANDARD_NO_PAD.decode(s)
}

/// Relies on base64's Engine::decode with the URL_SAFE engine: it
/// inverts encoding under the same alphabet and padding rule, and it
/// refuses text holding a character outside that alphabet (the
/// padding symbol aside).
#[verifier::external_body]
pub(crate) fn b64_decode_url_pad(s: &str) -> (r: Result<Vec<u8>, base64::DecodeError>)
    ensures
        forall|b: Seq<u8>| s@ == #[trigger] b64_text(b, true, true) ==> r is Ok && r->Ok_0@ == b,
        (exists|i: int|
            0 <= i < s@.len() && !is_b64_symbol(true, #[trigger] s@[i]) && s@[i] != '=') ==> r
            is Err,
{
    base64::engine::general_purpose::URL_SAFE.decode(s)
}

/// Relies on base64's Engine::decode with the URL_SAFE_NO_PAD engine:
/// it inverts unpadded encoding, and it refuses text holding any
/// character outside the url-safe alphabet, `=` included.
#[verifier::external_body]
pub(crate) fn b64_decode_url_no_pad(s: &str) -> (r: Result<Vec<u8>, base64::DecodeError>)
    ensures
        forall|b: Seq<u8>| s@ == #[trigger] b64_text(b, true, false) ==> r is Ok && r->Ok_0@ == b,
        (exists|i: int| 0 <= i < s@.len() && !is_b64_symbol(true, #[trigger] s@[i])) ==> r is Err,
{
    base64::engine::general_purpose::URL_SAFE_NO_PAD.decode(s)
}

} // verus!
