//! SHA-1 digests as lowercase hexadecimal text.

use vstd::prelude::*;
use vstd::string::StringSliceAdditionalSpecFns;
use sha1::{Digest, Sha1};
use crate::text::{hex_bytes, push_hex_bytes, lemma_hex_bytes_len};

verus! {

/// The SHA-1 digest of a byte sequence, as the `sha1` crate computes it.
pub uninterp spec fn sha1_digest_spec(data: Seq<u8>) -> Seq<u8>;

/// `Sha1::new`, `update`, `finalize`: the 20-byte SHA-1 digest of `data`,
/// named by `sha1_digest_spec`.
#[verifier::external_body]
fn sha1_digest(data: &[u8]) -> (r: Vec<u8>)
    ensures
        r@ == sha1_digest_spec(data@),
        r@.len() == 20,
{
    let mut hasher = Sha1::new();
    hasher.update(data);
    hasher.finalize().to_vec()
}

/// The SHA-1 digest of the UTF-8 bytes of `input`, as 40 lowercase
/// hexadecimal digits.
pub fn sha1(input: &str) -> (r: String)
    ensures
        r@ == hex_bytes(sha1_digest_spec(input.spec_bytes())),
        r@.len() == 40,
{
    let digest = sha1_digest(input.as_bytes());
    let mut r = String::new();
    push_hex_bytes(&mut r, digest.as_slice());
    assert(r@ =~= hex_bytes(sha1_digest_spec(input.spec_bytes())));
    proof {
        lemma_hex_bytes_len(digest@);
    }
    r
}

} // verus!
