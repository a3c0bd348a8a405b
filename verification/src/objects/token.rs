use vstd::prelude::*;
use vstd::string::StrSliceExecFns;
use vstd::utf8::encode_utf8;

use base64::Engine;
use sha2::Digest;

verus! {

/// The SHA-224 digest of a byte sequence.
pub uninterp spec fn sha224_of(data: Seq<u8>) -> Seq<u8>;

/// The standard (RFC 4648, padded) base64 rendering of a byte sequence.
pub uninterp spec fn base64_of(data: Seq<u8>) -> Seq<char>;

/// The per-namespace forwarding token: the base64 rendering of the SHA-224
/// digest of the global forwarding secret concatenated with the namespace.
/// Every reconcile within a namespace derives the same token, so deletions
/// need no token rotation.
pub open spec fn forwarding_token_of(secret: Seq<char>, namespace: Seq<char>) -> Seq<char> {
    base64_of(sha224_of(encode_utf8(secret) + encode_utf8(namespace)))
}

/// Relies on sha2::Sha224: the digest is a function of the input bytes alone
/// and is 28 bytes long.
#[verifier::external_body]
fn sha224(data: &[u8]) -> (r: Vec<u8>)
    ensures
        r@ == sha224_of(data@),
        r@.len() == 28,
{
    sha2::Sha224::digest(data).to_vec()
}

/// Relies on base64's STANDARD engine: RFC 4648 base64 with padding, a
/// function of the input bytes alone.
#[verifier::external_body]
fn base64_encode(data: &[u8]) -> (r: String)
    ensures
        r@ == base64_of(data@),
{
    base64::engine::general_purpose::STANDARD.encode(data)
}

/// Token stability: the forwarding token is a pure function of the global
/// secret and the namespace, so re-running the operator derives the same
/// token and deletions require no rotation.
pub proof fn lemma_token_stable(
    secret: Seq<char>,
    namespace: Seq<char>,
    t1: Seq<char>,
    t2: Seq<char>,
)
    requires
        t1 == forwarding_token_of(secret, namespace),
        t2 == forwarding_token_of(secret, namespace),
    ensures
        t1 == t2,
{
}

/// Derives the forwarding token a namespace's children authenticate with.
pub fn derive_token(secret: &str, namespace: &str) -> (r: String)
    ensures
        r@ == forwarding_token_of(secret@, namespace@),
{
    let mut bytes = secret.as_bytes_vec();
    let mut tail = namespace.as_bytes_vec();
    bytes.append(&mut tail);
    let digest = sha224(bytes.as_slice());
    base64_encode(digest.as_slice())
}

} // verus!
