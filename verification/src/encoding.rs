//! The two base64 codecs of the protocol, as the `base64` crate computes them.
//!
//! Credential identifiers arrive in the URL-safe alphabet without padding;
//! everything that leaves in a response uses the standard alphabet with
//! padding. Both computations are taken from the `base64` crate and are not
//! proved here: each is given a name, and the contracts of this crate speak of
//! those names.

use base64::alphabet;
use base64::engine::general_purpose;
use base64::engine::GeneralPurpose;
use base64::Engine;
use vstd::prelude::*;

verus! {

/// The error of `base64::Engine::decode`, carried through unread.
#[verifier::external_type_specification]
#[verifier::external_body]
pub struct ExDecodeError(base64::DecodeError);

/// The bytes that a text stands for in URL-safe base64 without padding, or
/// `None` where the text is not such an encoding.
pub uninterp spec fn base64_url_decoding(text: Seq<char>) -> Option<Seq<u8>>;

/// The standard, padded base64 text of a byte string.
pub uninterp spec fn base64_standard_encoding(data: Seq<u8>) -> Seq<char>;

/// The length of the padded base64 text of `len` bytes: four characters for
/// every started group of three bytes.
pub open spec fn padded_base64_len(len: nat) -> nat {
    (len + 2) / 3 * 4
}

/// Whether the padded base64 text of `len` bytes has a length that fits in
/// `usize`.
pub open spec fn encodable_len(len: nat) -> bool {
    padded_base64_len(len) <= usize::MAX
}

/// Decides `encodable_len` for a length at hand.
pub fn is_encodable_len(len: usize) -> (fits: bool)
    ensures
        fits == encodable_len(len as nat),
{
    let groups: usize = if len % 3 == 0 {
        len / 3
    } else {
        len / 3 + 1
    };
    groups <= usize::MAX / 4
}

/// `base64::Engine::decode` on the engine
/// `GeneralPurpose::new(&alphabet::URL_SAFE, general_purpose::NO_PAD)`.
/// Trusted: the call succeeds exactly where the text has a decoding, and
/// then returns it.
#[verifier::external_body]
pub(crate) fn decode_url_safe_no_pad(text: &str) -> (r: Result<Vec<u8>, base64::DecodeError>)
    ensures
        r matches Ok(bytes) ==> base64_url_decoding(text@) == Some(bytes@),
        r is Err ==> base64_url_decoding(text@) is None,
{
    GeneralPurpose::new(&alphabet::URL_SAFE, general_purpose::NO_PAD).decode(text)
}

/// `base64::Engine::encode` on the engine
/// `GeneralPurpose::new(&alphabet::STANDARD, general_purpose::PAD)`.
/// Trusted: the call returns the standard padded encoding of the bytes. The
/// crate's function panics when the length of that text overflows `usize`, so
/// such inputs are left out.
#[verifier::external_body]
pub(crate) fn encode_standard_padded(data: &[u8]) -> (text: String)
    requires
        encodable_len(data@.len()),
    ensures
        text@ == base64_standard_encoding(data@),
{
    GeneralPurpose::new(&alphabet::STANDARD, general_purpose::PAD).encode(data)
}

} // verus!
