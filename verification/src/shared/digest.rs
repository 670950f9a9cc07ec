use vstd::prelude::*;
use sha2::{Digest, Sha256};

verus! {

/// The SHA-256 digest of `data`, as lower-case hexadecimal text.
pub uninterp spec fn sha256_hex_digest(data: Seq<u8>) -> Seq<char>;

/// The length of a SHA-256 digest printed in hexadecimal: two digits for each
/// of its 32 bytes.
pub const SHA256_HEX_LENGTH: usize = 64;

/// Hashes `data` with `sha2::Sha256::digest` and prints the 32 bytes of the
/// digest as lower-case hexadecimal digits.
#[verifier::external_body]
pub(crate) fn sha256_hex(data: &[u8]) -> (hex: String)
    ensures
        hex@ == sha256_hex_digest(data@),
        hex@.len() == SHA256_HEX_LENGTH,
{
    format!("{:x}", Sha256::digest(data))
}

} // verus!
