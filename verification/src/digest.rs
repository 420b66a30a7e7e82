//! Identifiers of shared files: the MD5 digest of the path, in hexadecimal.

use crate::text::{hex_of, is_hex_digit, lemma_hex_digits, lemma_hex_injective, to_hex};
use vstd::prelude::*;
use vstd::utf8::encode_utf8;

verus! {

/// The MD5 digest of `data`.
pub uninterp spec fn md5_digest(data: Seq<u8>) -> Seq<u8>;

/// `md5::compute`: the sixteen bytes it returns are the digest of `data`, and
/// depend on nothing else.
#[verifier::external_body]
fn md5_compute(data: &[u8]) -> (digest: [u8; 16])
    ensures
        digest@ == md5_digest(data@),
{
    md5::compute(data).0
}

/// The identifier under which the file at `path` is shared.
pub open spec fn file_id_of(path: Seq<char>) -> Seq<char> {
    hex_of(md5_digest(encode_utf8(path)))
}

/// Two paths share an identifier exactly when their digests collide.
pub proof fn lemma_same_id_same_digest(p: Seq<char>, q: Seq<char>)
    ensures
        file_id_of(p) == file_id_of(q) <==> md5_digest(encode_utf8(p)) == md5_digest(
            encode_utf8(q),
        ),
{
    if file_id_of(p) == file_id_of(q) {
        lemma_hex_injective(md5_digest(encode_utf8(p)), md5_digest(encode_utf8(q)));
    }
}

/// Computes the identifier of `path`: thirty-two lowercase hexadecimal digits,
/// so that it can stand as one segment of a URL.
pub fn file_id(path: &str) -> (id: String)
    ensures
        id@ == file_id_of(path@),
        id@.len() == 32,
        forall|i: int| 0 <= i < id@.len() ==> is_hex_digit(#[trigger] id@[i]),
{
    let digest = md5_compute(path.as_bytes());
    proof {
        lemma_hex_digits(digest@);
    }
    to_hex(digest.as_slice())
}

} // verus!
