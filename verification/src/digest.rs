//! Content digests: the SHA-256 of an entry's bytes, written in hexadecimal.

use vstd::prelude::*;
use sha2::Digest;
use crate::text::is_lower_hex;

verus! {

/// The SHA-256 digest of `bytes`, in hexadecimal.
pub uninterp spec fn sha256_hex(bytes: Seq<u8>) -> Seq<char>;

/// The shape of a digest: 64 lowercase hexadecimal digits.
pub open spec fn is_digest(text: Seq<char>) -> bool {
    text.len() == 64 && forall|i: int| 0 <= i < 64 ==> is_lower_hex(#[trigger] text[i])
}

/// The digest of a text: that of its UTF-8 bytes.
pub open spec fn content_digest(content: Seq<char>) -> Seq<char> {
    sha256_hex(vstd::utf8::encode_utf8(content))
}

/// `sha2::Sha256::digest` on `bytes`, formatted with `{:x}`: the result is a
/// function of the bytes alone; the digest has 32 bytes, each written as two
/// lowercase hexadecimal digits.
#[verifier::external_body]
fn sha256_hex_of(bytes: &[u8]) -> (r: String)
    ensures
        r@ == sha256_hex(bytes@),
        is_digest(r@),
{
    format!("{:x}", sha2::Sha256::digest(bytes))
}

/// The digest of `content`, over its exact bytes.
pub fn digest_of(content: &str) -> (r: String)
    ensures
        r@ == content_digest(content@),
        is_digest(r@),
{
    sha256_hex_of(content.as_bytes())
}

} // verus!
