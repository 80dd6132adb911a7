//! Signing through the assertion facility of the operating system.
//!
//! The facility takes the relying party identifier as a wide C string, the
//! client data itself with the name of the hash to apply to it, and the
//! credentials it may use, and answers with a signature and authenticator
//! data.

use crate::credentials::decode_credential_ids;
use crate::credentials::decoded_credentials;
use crate::digest::application_digest;
use crate::digest::digest_text;
use crate::error::SignError;
use crate::mozilla::origin_of_host;
use crate::session::initial_session;
use crate::session::SignSession;
use crate::utils::client_data;
use crate::utils::client_data_json;
use crate::utils::url_origin_serialization;
use crate::views::byte_strings;
use crate::views::texts;
use crate::BackendRequest;
use crate::PendingSign;
use crate::RegisteredNotifier;
use vstd::prelude::*;
use vstd::slice::slice_to_vec;
use vstd::string::StringExecFns;

verus! {

/// The error of `widestring::U16CString::from_str`, carried through unread.
#[verifier::external_type_specification]
#[verifier::external_body]
#[verifier::reject_recursive_types(C)]
pub struct ExContainsNul<C>(widestring::error::ContainsNul<C>);

/// How long the facility waits for the user, in milliseconds.
pub const ASSERTION_TIMEOUT_MS: u32 = 30_000;

/// One request to the assertion facility.
#[derive(Debug)]
pub struct NativeAssertionRequest {
    pub relying_party_id: Vec<u16>,
    pub client_data_json: Vec<u8>,
    pub hash_algorithm: String,
    pub timeout_ms: u32,
    pub credential_ids: Vec<Vec<u8>>,
    pub authenticator_attachment: u32,
    pub user_verification_requirement: u32,
    pub flags: u32,
}

/// A text as a wide C string: its UTF-16 code units and a terminating nul.
/// `None` where the text holds a nul before its last character.
pub uninterp spec fn wide_c_string(text: Seq<char>) -> Option<Seq<u16>>;

/// `widestring::U16CString::from_str`, then `into_vec_with_nul` on the
/// string. Trusted: the conversion fails exactly where the text has no wide C
/// string, and the two calls otherwise return its units, nul included.
#[verifier::external_body]
pub(crate) fn to_wide_c_string(text: &str) -> (r: Result<
    Vec<u16>,
    widestring::error::ContainsNul<u16>,
>)
    ensures
        r matches Ok(units) ==> wide_c_string(text@) == Some(units@),
        r is Err ==> wide_c_string(text@) is None,
{
    match widestring::U16CString::from_str(text) {
        Ok(wide) => Ok(wide.into_vec_with_nul()),
        Err(e) => Err(e),
    }
}

/// The name under which the facility knows SHA-256.
pub open spec fn hash_algorithm_name() -> Seq<char> {
    "SHA-256"@
}

impl NativeAssertionRequest {
    /// Whether this is the request for the given client data, host and
    /// credential identifiers: the host as a wide C string, the UTF-8 bytes
    /// of the client data to be hashed with SHA-256, the fixed timeout, the
    /// credentials that the identifiers name, and no preference for
    /// attachment or user verification.
    pub open spec fn is_request_for(
        &self,
        client_data: Seq<char>,
        host: Seq<char>,
        credential_ids: Seq<Seq<char>>,
    ) -> bool {
        &&& wide_c_string(host) == Some(self.relying_party_id@)
        &&& self.client_data_json@ == vstd::utf8::encode_utf8(client_data)
        &&& self.hash_algorithm@ == hash_algorithm_name()
        &&& self.timeout_ms == ASSERTION_TIMEOUT_MS
        &&& byte_strings(self.credential_ids@) == decoded_credentials(credential_ids)
        &&& self.authenticator_attachment == 0
        &&& self.user_verification_requirement == 0
        &&& self.flags == 0
    }
}

/// What `sign` owes for its arguments: an operation for exactly these
/// inputs where the host is a wide C string and gives an origin, and
/// `InvalidOrigin` where it is not or does not.
pub open spec fn prepared(
    challenge: Seq<char>,
    host: Seq<char>,
    credential_ids: Seq<String>,
    notifiers: Seq<RegisteredNotifier>,
    r: Result<PendingSign, SignError>,
) -> bool {
    if wide_c_string(host) is Some && url_origin_serialization(origin_of_host(host)) is Some {
        let origin = url_origin_serialization(origin_of_host(host))->Some_0;
        &&& r matches Ok(pending)
        &&& pending.notifiers@ == notifiers
        &&& pending.session.model() == initial_session(
            notifiers.len() as usize,
            client_data_json(challenge, origin),
            application_digest(host),
        )
        &&& pending.request matches BackendRequest::NativeAssertion(request)
        &&& request.is_request_for(
            client_data_json(challenge, origin),
            host,
            texts(credential_ids),
        )
    } else {
        r matches Err(e) && e == SignError::InvalidOrigin
    }
}

/// Prepares a signing operation for the assertion facility.
///
/// The origin is `https://` and the host; the relying party identifier is
/// the host itself.
pub fn sign(
    challenge_str: String,
    host: String,
    credential_ids: Vec<String>,
    notifiers: Vec<RegisteredNotifier>,
) -> (r: Result<PendingSign, SignError>)
    ensures
        prepared(challenge_str@, host@, credential_ids@, notifiers@, r),
{
    let mut origin = String::from_str("https://");
    origin.append(host.as_str());
    let relying_party_id = match to_wide_c_string(host.as_str()) {
        Ok(units) => units,
        Err(_) => {
            return Err(SignError::InvalidOrigin);
        },
    };
    let document = match client_data(origin, challenge_str) {
        Ok(document) => document,
        Err(e) => {
            return Err(e);
        },
    };
    let request = NativeAssertionRequest {
        relying_party_id,
        client_data_json: slice_to_vec(document.as_str().as_bytes()),
        hash_algorithm: String::from_str("SHA-256"),
        timeout_ms: ASSERTION_TIMEOUT_MS,
        credential_ids: decode_credential_ids(&credential_ids),
        authenticator_attachment: 0,
        user_verification_requirement: 0,
        flags: 0,
    };
    let app_bytes = digest_text(host.as_str());
    let session = SignSession::begin(notifiers.len(), document, app_bytes);
    Ok(PendingSign { notifiers, request: BackendRequest::NativeAssertion(request), session })
}

} // verus!
