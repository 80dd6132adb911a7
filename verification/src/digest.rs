//! SHA-256 digests of the two texts that a U2F signature covers.

use sha2::Digest;
use sha2::Sha256;
use vstd::prelude::*;

verus! {

/// The number of bytes in a SHA-256 digest.
pub const DIGEST_LEN: usize = 32;

/// The SHA-256 digest of a byte string.
pub uninterp spec fn sha256(data: Seq<u8>) -> Seq<u8>;

/// The challenge parameter: the digest of the client data's UTF-8 bytes.
pub open spec fn challenge_digest(client_data: Seq<char>) -> Seq<u8> {
    sha256(vstd::utf8::encode_utf8(client_data))
}

/// The application parameter: the digest of the bare host's UTF-8 bytes, not
/// of the origin that is derived from it.
pub open spec fn application_digest(host: Seq<char>) -> Seq<u8> {
    sha256(vstd::utf8::encode_utf8(host))
}

/// `sha2::Sha256` through `Default::default`, `Digest::update` and
/// `Digest::finalize`. Trusted: the three calls together return the SHA-256
/// digest of the bytes, which is 32 bytes long.
#[verifier::external_body]
pub(crate) fn sha256_of(data: &[u8]) -> (digest: Vec<u8>)
    ensures
        digest@ == sha256(data@),
        digest@.len() == DIGEST_LEN,
{
    let mut hasher = Sha256::default();
    hasher.update(data);
    hasher.finalize().to_vec()
}

/// Hashes the UTF-8 bytes of a text.
pub fn digest_text(text: &str) -> (digest: Vec<u8>)
    ensures
        digest@ == sha256(vstd::utf8::encode_utf8(text@)),
        digest@.len() == DIGEST_LEN,
{
    sha256_of(text.as_bytes())
}

/// Both digests of a signing request. The first covers the client data,
/// the second the host.
pub fn input_digests(client_data: &str, host: &str) -> (digests: (Vec<u8>, Vec<u8>))
    ensures
        digests.0@ == challenge_digest(client_data@),
        digests.1@ == application_digest(host@),
        digests.0@.len() == DIGEST_LEN,
        digests.1@.len() == DIGEST_LEN,
{
    let challenge = digest_text(client_data);
    let application = digest_text(host);
    (challenge, application)
}

/// Hashing has no hidden state: equal client data and equal hosts give
/// equal digests, whenever and however often they are computed.
pub proof fn lemma_digests_deterministic(
    client_data: Seq<char>,
    host: Seq<char>,
    client_data_again: Seq<char>,
    host_again: Seq<char>,
)
    requires
        client_data == client_data_again,
        host == host_again,
    ensures
        challenge_digest(client_data) == challenge_digest(client_data_again),
        application_digest(host) == application_digest(host_again),
{
}

} // verus!
