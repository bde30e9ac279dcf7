//! Content fingerprints of strategy configurations: `sha256:` and the
//! lowercase hex of the SHA-256 digest of the configuration's JSON bytes.

use vstd::prelude::*;
use sha2::Digest;
use crate::text::{owned, append_string};

verus! {

/// The SHA-256 digest of a byte string.
pub uninterp spec fn sha256_digest(bytes: Seq<u8>) -> Seq<u8>;

/// A hexadecimal digit in lower case (0..=15).
pub open spec fn hex_digit(d: int) -> char {
    if d < 10 {
        (('0' as int) + d) as char
    } else {
        (('a' as int) + d - 10) as char
    }
}

/// Two lowercase hexadecimal digits per byte, high nibble first.
pub open spec fn hex_text(bytes: Seq<u8>) -> Seq<char>
    decreases bytes.len(),
{
    if bytes.len() == 0 {
        seq![]
    } else {
        hex_text(bytes.drop_last()) + seq![
            hex_digit(bytes.last() as int / 16),
            hex_digit(bytes.last() as int % 16),
        ]
    }
}

/// SHA-256 of the bytes, by `sha2::Sha256::digest`. Claimed: the result is
/// the named digest of the bytes, 32 bytes long.
#[verifier::external_body]
fn sha256(bytes: &Vec<u8>) -> (r: Vec<u8>)
    ensures
        r@ == sha256_digest(bytes@),
        r@.len() == 32,
{
    sha2::Sha256::digest(bytes.as_slice()).to_vec()
}

/// Lowercase hexadecimal text of the bytes, by `hex::encode`. Claimed, as
/// the crate documents it: two lowercase digits per byte, in order.
#[verifier::external_body]
fn hex_encode(bytes: &Vec<u8>) -> (r: String)
    ensures
        r@ == hex_text(bytes@),
{
    hex::encode(bytes.as_slice())
}

/// The label of a digest: `sha256:` and its lowercase hex.
pub fn digest_label(digest: &Vec<u8>) -> (r: String)
    ensures
        r@ == "sha256:"@ + hex_text(digest@),
{
    let mut r = owned("sha256:");
    let h = hex_encode(digest);
    append_string(&mut r, &h);
    r
}

/// The fingerprint of a configuration, from its JSON encoding.
pub fn config_hash(encoded: &Vec<u8>) -> (r: String)
    ensures
        r@ == "sha256:"@ + hex_text(sha256_digest(encoded@)),
{
    let digest = sha256(encoded);
    digest_label(&digest)
}

} // verus!
