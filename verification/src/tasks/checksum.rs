//! Content hashes of data held in memory.

use vstd::prelude::*;

verus! {

/// The SHA-512 digest of the UTF-8 bytes of a text, in lower-case hexadecimal.
pub uninterp spec fn sha512_hex(data: Seq<char>) -> Seq<char>;

/// `Sha512::digest` of the `sha2` crate on the bytes of `data`, written with
/// `{:x}`: the digest depends on the bytes alone.
#[verifier::external_body]
pub(crate) fn sha512(data: &str) -> (r: String)
    ensures
        r@ == sha512_hex(data@),
{
    format!("{:x}", <sha2::Sha512 as sha2::Digest>::digest(data.as_bytes()))
}

} // verus!
