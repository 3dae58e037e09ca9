//! Raw byte blobs. On the wire a blob is carried as standard base64 text;
//! the codec encodes on the way out and decodes on the way in.

use vstd::prelude::*;

verus! {

/// A blob of raw bytes, stored base64-encoded on the wire.
#[derive(Debug, Clone, PartialEq, Eq)]
pub struct Bytes(pub Vec<u8>);

impl DeepView for Bytes {
    type V = Seq<u8>;

    open spec fn deep_view(&self) -> Seq<u8> {
        self.0@
    }
}

impl From<Vec<u8>> for Bytes {
    fn from(x: Vec<u8>) -> (r: Bytes) {
        Bytes(x)
    }
}

impl vstd::std_specs::convert::FromSpecImpl<Vec<u8>> for Bytes {
    open spec fn obeys_from_spec() -> bool {
        true
    }

    open spec fn from_spec(x: Vec<u8>) -> Bytes {
        Bytes(x)
    }
}

/// The standard base64 text (with padding) of a byte sequence.
pub uninterp spec fn base64_of(b: Seq<u8>) -> Seq<char>;

/// What standard base64 decoding yields on a character sequence: the decoded
/// bytes, or nothing when the text is not valid base64.
pub uninterp spec fn base64_decode_of(s: Seq<char>) -> Option<Seq<u8>>;

/// Relies on radix64's standard configuration: `radix64::STD.encode` renders
/// bytes as RFC 4648 standard base64 with padding, and `radix64::STD.decode`
/// restores exactly the encoded bytes from that text.
#[verifier::external_body]
pub(crate) fn base64_encode(b: &Vec<u8>) -> (r: String)
    ensures
        r@ == base64_of(b@),
        base64_decode_of(r@) == Some(b@),
{
    radix64::STD.encode(b)
}

/// Relies on radix64's standard configuration: `radix64::STD.decode` either
/// decodes the base64 text or rejects it, deterministically in the text alone.
#[verifier::external_body]
pub(crate) fn base64_decode(s: &str) -> (r: Option<Vec<u8>>)
    ensures
        match r {
            Some(v) => base64_decode_of(s@) == Some(v@),
            None => base64_decode_of(s@) is None,
        },
{
    match radix64::STD.decode(s) {
        Ok(v) => Some(v),
        Err(_) => None,
    }
}

} // verus!
