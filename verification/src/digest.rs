//! The hash under which a DID keys its mailbox and its live stream.

use vstd::prelude::*;

verus! {

/// The SHA-256 digest of the UTF-8 bytes of `text`, as lower-case hexadecimal
/// text. It stands for what `sha256::digest` returns; nothing else is claimed
/// of it than that it depends on `text` alone.
pub uninterp spec fn sha256_hex(text: Seq<char>) -> Seq<char>;

/// Calls `sha256::digest` on `text`. The contract names the result: the crate
/// hashes the bytes of its argument and hex-encodes the digest, so equal texts
/// give equal results. Not proved.
#[verifier::external_body]
fn sha256_digest(text: &str) -> (hex: String)
    ensures
        hex@ == sha256_hex(text@),
{
    sha256::digest(text)
}

/// The hash of a DID: the fixed-width key of its mailbox and stream topic.
pub open spec fn spec_did_hash(did: Seq<char>) -> Seq<char> {
    sha256_hex(did)
}

/// The hash of `did`.
pub fn did_hash(did: &str) -> (hash: String)
    ensures
        hash@ == spec_did_hash(did@),
{
    sha256_digest(did)
}

} // verus!
