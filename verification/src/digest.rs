//! The SHA-256 digest that storage keys are made from.
use vstd::prelude::*;

verus! {

/// The SHA-256 digest of the UTF-8 bytes of a text.
pub uninterp spec fn sha256_digest(text: Seq<char>) -> Seq<u8>;

/// Calls `near_sdk::env::sha256_array` on the UTF-8 bytes of `text`. The
/// contract names the digest as a function of the text; that it is SHA-256
/// is not stated.
#[verifier::external_body]
pub(crate) fn sha256_text(text: &str) -> (h: [u8; 32])
    ensures
        h@ == sha256_digest(text@),
{
    near_sdk::env::sha256_array(text.as_bytes())
}

} // verus!
