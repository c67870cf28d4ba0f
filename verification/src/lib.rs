//! A 128-bit identifier held as 16 raw bytes, with lossless conversions
//! between that byte form and four base64 text encodings (standard or
//! url-safe alphabet, with or without `=` padding).

use vstd::prelude::*;

pub mod b64;
pub mod error;
pub mod hexstr;
pub mod shim;

verus! {

/// A 128-bit value held as exactly 16 bytes, immutable once built.
#[derive(Debug, Clone, Copy)]
pub struct MiniUuid {
    bytes: [u8; 16],
}

impl View for MiniUuid {
    type V = Seq<u8>;

    closed spec fn view(&self) -> Seq<u8> {
        self.bytes@
    }
}

/// Whether the default text conversions use the url-safe alphabet.
pub const DEFAULT_URL_SAFE: bool = false;

/// Whether the default text conversions pad with `=`.
pub const DEFAULT_PADDED: bool = false;

impl MiniUuid {
    /// Builds a fresh value from the collaborator's random source,
    /// laid out per the version-4 UUID convention: the high nibble of
    /// byte 6 is the version `4`, the top bits of byte 8 the RFC-4122
    /// variant.
    pub fn new() -> (r: Self)
        ensures
            r@[6] & 0xf0 == 0x40,
            r@[8] & 0xc0 == 0x80,
    {
        MiniUuid { bytes: shim::new_v4_bytes() }
    }

    /// Builds a value holding the given 16 bytes unchanged.
    pub fn from_bytes(bytes: [u8; 16]) -> (r: Self)
        ensures
            r@ == bytes@,
    {
        MiniUuid { bytes }
    }

    /// Hands the 16 bytes back unchanged.
    pub fn into_bytes(self) -> (r: [u8; 16])
        ensures
            r@ == self@,
    {
        self.bytes
    }

    /// Builds a value from an external UUID, keeping its 16 raw bytes
    /// unchanged.
    pub fn from_uuid(uuid: uuid::Uuid) -> (r: Self)
        ensures
            r@ == shim::uuid_bytes(uuid),
    {
        MiniUuid { bytes: shim::bytes_of_uuid(uuid) }
    }

    /// Hands the 16 bytes back as an external UUID value.
    pub fn to_uuid(&self) -> (r: uuid::Uuid)
        ensures
            shim::uuid_bytes(r) == self@,
    {
        shim::uuid_of_bytes(self.bytes)
    }

    /// Builds a value from a textual UUID, by the collaborating
    /// parser's grammar: accepted exactly where the parser accepts the
    /// text, holding the 16 bytes the parser read. Text of a length no
    /// UUID form has, and 36-character text off the hyphenated
    /// 8-4-4-4-12 grammar, is always refused.
    pub fn from_uuid_str(uuid: &str) -> (r: Result<Self, uuid::Error>)
        ensures
            r is Ok <==> shim::uuid_parse(uuid@) is Some,
            r is Ok ==> Some(r->Ok_0@) == shim::uuid_parse(uuid@),
            (uuid@.len() != 32 && uuid@.len() != 36 && uuid@.len() != 38 && uuid@.len() != 45)
                ==> r is Err,
            (uuid@.len() == 36 && !hexstr::is_hyphenated_uuid(uuid@)) ==> r is Err,
    {
        match shim::parse_uuid_str(uuid) {
            Ok(bytes) => Ok(MiniUuid { bytes }),
            Err(e) => Err(e),
        }
    }

    /// Re-reads 16 decoded bytes through the collaborating UUID
    /// parser, via their lowercase hex form, as a structural
    /// cross-check. The check is proved loss-free: it always hands
    /// back exactly the bytes it was given.
    fn decode(bytes: [u8; 16]) -> (r: Result<Self, error::Error>)
        ensures
            r is Ok && r->Ok_0@ == bytes@,
    {
        let s = shim::hex_encode(&bytes);
        proof {
            hexstr::lemma_hex_lower_chars(bytes@);
            hexstr::lemma_hex_round_trip(bytes@);
        }
        match shim::parse_uuid_str(s.as_str()) {
            Ok(parsed) => Ok(MiniUuid { bytes: parsed }),
            Err(e) => Err(error::Error::InvalidUuid(e)),
        }
    }

    /// Validates a decoded payload: exactly 16 bytes pass on to the
    /// structural cross-check and come back unchanged; any other
    /// length is the size error, distinct from a base64 syntax
    /// failure.
    fn decode_sized(v: Vec<u8>) -> (r: Result<Self, error::Error>)
        ensures
            v@.len() == 16 ==> r is Ok && r->Ok_0@ == v@,
            v@.len() != 16 ==> r is Err && r->Err_0 is InvalidUuidSize,
    {
        if v.len() != 16 {
            return Err(error::Error::InvalidUuidSize);
        }
        let bytes: [u8; 16] = [
            v[0],
            v[1],
            v[2],
            v[3],
            v[4],
            v[5],
            v[6],
            v[7],
            v[8],
            v[9],
            v[10],
            v[11],
            v[12],
            v[13],
            v[14],
            v[15],
        ];
        proof {
            assert(bytes@ =~= v@);
        }
        Self::decode(bytes)
    }

    /// Builds a value from standard-alphabet, padded base64 text: the
    /// decoded bytes where the text is such an encoding of 16 bytes;
    /// the size error where it encodes any other byte count; the
    /// base64 error where the text holds a character outside the
    /// standard alphabet.
    pub fn from_base64(uuid: &str) -> (r: Result<Self, error::Error>)
        ensures
            forall|b: Seq<u8>|
                uuid@ == #[trigger] b64::b64_text(b, false, true) && b.len() == 16 ==> r is Ok
                    && r->Ok_0@ == b,
            forall|b: Seq<u8>|
                uuid@ == #[trigger] b64::b64_text(b, false, true) && b.len() != 16 ==> r is Err
                    && r->Err_0 is InvalidUuidSize,
            (exists|i: int|
                0 <= i < uuid@.len() && !b64::is_b64_symbol(false, #[trigger] uuid@[i])
                    && uuid@[i] != '=') ==> r is Err && r->Err_0 is InvalidBase64,
            r is Ok ==> r->Ok_0@.len() == 16,
            r is Err ==> (r->Err_0 is InvalidBase64 || r->Err_0 is InvalidUuidSize),
    {
        match shim::b64_decode_std_pad(uuid) {
            Ok(v) => Self::decode_sized(v),
            Err(e) => Err(error::Error::InvalidBase64(e)),
        }
    }

    /// Builds a value from standard-alphabet, unpadded base64 text;
    /// the errors fall as for the padded form, and `=` itself is
    /// outside the unpadded grammar.
    pub fn from_base64_no_pad(uuid: &str) -> (r: Result<Self, error::Error>)
        ensures
            forall|b: Seq<u8>|
                uuid@ == #[trigger] b64::b64_text(b, false, false) && b.len() == 16 ==> r is Ok
                    && r->Ok_0@ == b,
            forall|b: Seq<u8>|
                uuid@ == #[trigger] b64::b64_text(b, false, false) && b.len() != 16 ==> r is Err
                    && r->Err_0 is InvalidUuidSize,
            (exists|i: int|
                0 <= i < uuid@.len() && !b64::is_b64_symbol(false, #[trigger] uuid@[i])) ==> r
                is Err && r->Err_0 is InvalidBase64,
            r is Ok ==> r->Ok_0@.len() == 16,
            r is Err ==> (r->Err_0 is InvalidBase64 || r->Err_0 is InvalidUuidSize),
    {
        match shim::b64_decode_std_no_pad(uuid) {
            Ok(v) => Self::decode_sized(v),
            Err(e) => Err(error::Error::InvalidBase64(e)),
        }
    }

    /// Builds a value from url-safe, padded base64 text; the errors
    /// fall as for the standard alphabet.
    pub fn from_url_base64(uuid: &str) -> (r: Result<Self, error::Error>)
        ensures
            forall|b: Seq<u8>|
                uuid@ == #[trigger] b64::b64_text(b, true, true) && b.len() == 16 ==> r is Ok
                    && r->Ok_0@ == b,
            forall|b: Seq<u8>|
                uuid@ == #[trigger] b64::b64_text(b, true, true) && b.len() != 16 ==> r is Err
                    && r->Err_0 is InvalidUuidSize,
            (exists|i: int|
                0 <= i < uuid@.len() && !b64::is_b64_symbol(true, #[trigger] uuid@[i])
                    && uuid@[i] != '=') ==> r is Err && r->Err_0 is InvalidBase64,
            r is Ok ==> r->Ok_0@.len() == 16,
            r is Err ==> (r->Err_0 is InvalidBase64 || r->Err_0 is InvalidUuidSize),
    {
        match shim::b64_decode_url_pad(uuid) {
            Ok(v) => Self::decode_sized(v),
            Err(e) => Err(error::Error::InvalidBase64(e)),
        }
    }

    /// Builds a value from url-safe, unpadded base64 text; the errors
    /// fall as for the standard alphabet, and `=` itself is outside
    /// the unpadded grammar.
    pub fn from_url_base64_no_pad(uuid: &str) -> (r: Result<Self, error::Error>)
        ensures
            forall|b: Seq<u8>|
                uuid@ == #[trigger] b64::b64_text(b, true, false) && b.len() == 16 ==> r is Ok
                    && r->Ok_0@ == b,
            forall|b: Seq<u8>|
                uuid@ == #[trigger] b64::b64_text(b, true, false) && b.len() != 16 ==> r is Err
                    && r->Err_0 is InvalidUuidSize,
            (exists|i: int|
                0 <= i < uuid@.len() && !b64::is_b64_symbol(true, #[trigger] uuid@[i])) ==> r
                is Err && r->Err_0 is InvalidBase64,
            r is Ok ==> r->Ok_0@.len() == 16,
            r is Err ==> (r->Err_0 is InvalidBase64 || r->Err_0 is InvalidUuidSize),
    {
        match shim::b64_decode_url_no_pad(uuid) {
            Ok(v) => Self::decode_sized(v),
            Err(e) => Err(error::Error::InvalidBase64(e)),
        }
    }

    /// Builds a value from base64 text under an explicit choice of
    /// alphabet and padding, so each of the four variants is reachable
    /// whatever the build's default.
    pub fn from_text(url_safe: bool, padded: bool, uuid: &str) -> (r: Result<Self, error::Error>)
        ensures
            forall|b: Seq<u8>|
                uuid@ == #[trigger] b64::b64_text(b, url_safe, padded) && b.len() == 16 ==> r is Ok
                    && r->Ok_0@ == b,
            forall|b: Seq<u8>|
                uuid@ == #[trigger] b64::b64_text(b, url_safe, padded) && b.len() != 16 ==> r
                    is Err && r->Err_0 is InvalidUuidSize,
            (exists|i: int|
                0 <= i < uuid@.len() && !b64::is_b64_symbol(url_safe, #[trigger] uuid@[i])
                    && uuid@[i] != '=') ==> r is Err && r->Err_0 is InvalidBase64,
            r is Ok ==> r->Ok_0@.len() == 16,
            r is Err ==> (r->Err_0 is InvalidBase64 || r->Err_0 is InvalidUuidSize),
    {
        if url_safe {
            if padded {
                Self::from_url_base64(uuid)
            } else {
                Self::from_url_base64_no_pad(uuid)
            }
        } else {
            if padded {
                Self::from_base64(uuid)
            } else {
                Self::from_base64_no_pad(uuid)
            }
        }
    }

    /// Builds a value from base64 text under the build's default
    /// alphabet and padding choice.
    pub fn from_string(uuid: &str) -> (r: Result<Self, error::Error>)
        ensures
            forall|b: Seq<u8>|
                uuid@ == #[trigger] b64::b64_text(b, DEFAULT_URL_SAFE, DEFAULT_PADDED) && b.len()
                    == 16 ==> r is Ok && r->Ok_0@ == b,
            forall|b: Seq<u8>|
                uuid@ == #[trigger] b64::b64_text(b, DEFAULT_URL_SAFE, DEFAULT_PADDED) && b.len()
                    != 16 ==> r is Err && r->Err_0 is InvalidUuidSize,
            r is Err ==> (r->Err_0 is InvalidBase64 || r->Err_0 is InvalidUuidSize),
    {
        Self::from_text(DEFAULT_URL_SAFE, DEFAULT_PADDED, uuid)
    }

    /// The standard-alphabet, padded base64 text of the 16 bytes.
    pub fn to_base64(&self) -> (r: String)
        ensures
            r@ == b64::b64_text(self@, false, true),
    {
        shim::b64_encode_std_pad(&self.bytes)
    }

    /// The standard-alphabet, unpadded base64 text of the 16 bytes.
    pub fn to_base64_no_pad(&self) -> (r: String)
        ensures
            r@ == b64::b64_text(self@, false, false),
    {
        shim::b64_encode_std_no_pad(&self.bytes)
    }

    /// The url-safe, padded base64 text of the 16 bytes.
    pub fn to_url_base64(&self) -> (r: String)
        ensures
            r@ == b64::b64_text(self@, true, true),
    {
        shim::b64_encode_url_pad(&self.bytes)
    }

    /// The url-safe, unpadded base64 text of the 16 bytes.
    pub fn to_url_base64_no_pad(&self) -> (r: String)
        ensures
            r@ == b64::b64_text(self@, true, false),
    {
        shim::b64_encode_url_no_pad(&self.bytes)
    }

    /// The base64 text of the 16 bytes under an explicit choice of
    /// alphabet and padding.
    pub fn to_text(&self, url_safe: bool, padded: bool) -> (r: String)
        ensures
            r@ == b64::b64_text(self@, url_safe, padded),
    {
        if url_safe {
            if padded {
                self.to_url_base64()
            } else {
                self.to_url_base64_no_pad()
            }
        } else {
            if padded {
                self.to_base64()
            } else {
                self.to_base64_no_pad()
            }
        }
    }

    /// The base64 text of the 16 bytes under the build's default
    /// alphabet and padding choice.
    pub fn to_string(&self) -> (r: String)
        ensures
            r@ == b64::b64_text(self@, DEFAULT_URL_SAFE, DEFAULT_PADDED),
    {
        self.to_text(DEFAULT_URL_SAFE, DEFAULT_PADDED)
    }
}

impl From<uuid::Uuid> for MiniUuid {
    fn from(uuid: uuid::Uuid) -> (r: Self)
        ensures
            r@ == shim::uuid_bytes(uuid),
    {
        MiniUuid::from_uuid(uuid)
    }
}

impl vstd::std_specs::convert::FromSpecImpl<uuid::Uuid> for MiniUuid {
    open spec fn obeys_from_spec() -> bool {
        false
    }

    open spec fn from_spec(uuid: uuid::Uuid) -> MiniUuid {
        choose|m: MiniUuid| m@ == shim::uuid_bytes(uuid)
    }
}

/// Round trip through the external UUID type: a codec value built from
/// an external UUID holds its bytes, and the external UUID it hands
/// back holds the same bytes again.
pub proof fn lemma_uuid_round_trip(u: uuid::Uuid, m: MiniUuid, back: uuid::Uuid)
    requires
        m@ == shim::uuid_bytes(u),
        shim::uuid_bytes(back) == m@,
    ensures
        shim::uuid_bytes(back) == shim::uuid_bytes(u),
{
}

} // verus!

