//! The calls that leave this library. Each contract here is believed, not
//! proved; the doc comment of each item says what it claims.

use vstd::prelude::*;
use sha2::{Digest, Sha256};

verus! {

/// The SHA-256 digest of a sequence of bytes.
pub uninterp spec fn sha256(data: Seq<u8>) -> Seq<u8>;

/// Hashes bytes with `sha2::Sha256::digest`.
///
/// Believed: the digest depends on the bytes alone, so it is `sha256` of
/// them, and it is 32 bytes long, as SHA-256 digests are.
#[verifier::external_body]
pub(crate) fn sha256_digest(data: &[u8]) -> (digest: Vec<u8>)
    ensures
        digest@ == sha256(data@),
        digest@.len() == 32,
{
    Sha256::digest(data).to_vec()
}

/// Formats a count of bytes for people, through the `Display` of
/// `bytesize::ByteSize`.
///
/// Nothing is claimed of the text: it is worked out in floating point, so
/// that not even "the same count gives the same text" is promised here.
#[verifier::external_body]
pub(crate) fn format_byte_size(bytes: u64) -> String {
    bytesize::ByteSize(bytes).to_string()
}

} // verus!
