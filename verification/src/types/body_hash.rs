//! SHA-256 of a note body, hex encoded, for external-change detection.
use vstd::prelude::*;
use vstd::string::StringSliceAdditionalSpecFns;

verus! {

/// The SHA-256 digest of `data`.
pub uninterp spec fn spec_sha256(data: Seq<u8>) -> Seq<u8>;

pub open spec fn hex_digit(n: int) -> char {
    if n < 10 {
        (48 + n) as char
    } else {
        (87 + n) as char
    }
}

/// Lower-case hexadecimal, two characters per byte, high nibble first.
pub open spec fn hex_lower(bytes: Seq<u8>) -> Seq<char>
    decreases bytes.len(),
{
    if bytes.len() == 0 {
        Seq::empty()
    } else {
        hex_lower(bytes.drop_last()) + seq![
            hex_digit(bytes.last() as int / 16),
            hex_digit(bytes.last() as int % 16),
        ]
    }
}

/// Calls `sha2::Sha256::digest`; claimed: the result is `spec_sha256` of the
/// input (a function of the bytes alone) and is 32 bytes long.
#[verifier::external_body]
fn sha256(data: &[u8]) -> (r: Vec<u8>)
    ensures
        r@ == spec_sha256(data@),
        r@.len() == 32,
{
    <sha2::Sha256 as sha2::Digest>::digest(data).to_vec()
}

/// Calls `hex::encode`; claimed: each byte becomes two lower-case hex digits,
/// high nibble first, in order.
#[verifier::external_body]
fn hex_encode(bytes: &[u8]) -> (r: String)
    ensures
        r@ == hex_lower(bytes@),
{
    hex::encode(bytes)
}

#[derive(Debug, Clone, PartialEq, Eq)]
pub struct BodyHash {
    text: String,
}

impl View for BodyHash {
    type V = Seq<char>;

    closed spec fn view(&self) -> Seq<char> {
        self.text@
    }
}

impl BodyHash {
    /// The hex SHA-256 of the UTF-8 bytes of `body`.
    pub fn from_body(body: &str) -> (r: BodyHash)
        ensures
            r@ == hex_lower(spec_sha256(body.spec_bytes())),
    {
        let digest = sha256(body.as_bytes());
        BodyHash { text: hex_encode(digest.as_slice()) }
    }

    pub fn as_str(&self) -> (r: &str)
        ensures
            r@ == self@,
    {
        self.text.as_str()
    }
}

} // verus!
