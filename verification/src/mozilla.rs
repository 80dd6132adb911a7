//! Signing through the authenticator service that drives USB-HID devices.
//!
//! The service takes the two digests of the U2F raw message format and the
//! key handles it may use, and answers with a raw signature payload.

use crate::credentials::decode_credential_ids;
use crate::credentials::decoded_credentials;
use crate::digest::application_digest;
use crate::digest::challenge_digest;
use crate::digest::input_digests;
use crate::digest::DIGEST_LEN;
use crate::error::SignError;
use crate::session::initial_session;
use crate::session::SignSession;
use crate::utils::client_data;
use crate::utils::client_data_json;
use crate::utils::url_origin_serialization;
use crate::views::byte_strings;
use crate::views::texts;
use crate::BackendRequest;
use crate::PendingSign;
use crate::RegisteredNotifier;
use vstd::prelude::*;
use vstd::slice::slice_to_vec;
use vstd::string::StringExecFns;

verus! {

/// How long the service waits for the user, in milliseconds.
pub const SIGN_TIMEOUT_MS: u64 = 15_000;

/// A credential the device may sign with, and the transports it is known
/// to be reachable over, as a bit set. No bit means no restriction.
#[derive(Debug)]
pub struct KeyHandle {
    pub credential: Vec<u8>,
    pub transports: u8,
}

/// One request to the authenticator service.
#[derive(Debug)]
pub struct TransportSignRequest {
    pub sign_flags: u64,
    pub timeout_ms: u64,
    pub challenge: Vec<u8>,
    pub app_ids: Vec<Vec<u8>>,
    pub key_handles: Vec<KeyHandle>,
}

/// The origin that a relying party's host stands for.
pub open spec fn origin_of_host(host: Seq<char>) -> Seq<char> {
    "https://"@ + host
}

/// The credentials of a list of key handles.
pub open spec fn key_handle_credentials(handles: Seq<KeyHandle>) -> Seq<Seq<u8>> {
    handles.map_values(|handle: KeyHandle| handle.credential@)
}

impl TransportSignRequest {
    /// Whether this is the request for the given client data, host and
    /// credential identifiers: no sign flags, the fixed timeout, the digest of
    /// the client data as challenge, the digest of the host as the only
    /// application identifier, and one unrestricted key handle for each
    /// identifier that names a credential.
    pub open spec fn is_request_for(
        &self,
        client_data: Seq<char>,
        host: Seq<char>,
        credential_ids: Seq<Seq<char>>,
    ) -> bool {
        &&& self.sign_flags == 0
        &&& self.timeout_ms == SIGN_TIMEOUT_MS
        &&& self.challenge@ == challenge_digest(client_data)
        &&& self.challenge@.len() == DIGEST_LEN
        &&& byte_strings(self.app_ids@) == seq![application_digest(host)]
        &&& self.app_ids@[0]@.len() == DIGEST_LEN
        &&& key_handle_credentials(self.key_handles@) == decoded_credentials(credential_ids)
        &&& forall|i: int|
            0 <= i < self.key_handles@.len() ==> (#[trigger] self.key_handles@[i]).transports == 0
    }
}

/// What `sign` owes for its arguments: an operation for exactly these
/// inputs where the host gives an origin, and `InvalidOrigin` where it does
/// not.
pub open spec fn prepared(
    challenge: Seq<char>,
    host: Seq<char>,
    credential_ids: Seq<String>,
    notifiers: Seq<RegisteredNotifier>,
    r: Result<PendingSign, SignError>,
) -> bool {
    match url_origin_serialization(origin_of_host(host)) {
        Some(origin) => {
            &&& r matches Ok(pending)
            &&& pending.notifiers@ == notifiers
            &&& pending.session.model() == initial_session(
                notifiers.len() as usize,
                client_data_json(challenge, origin),
                application_digest(host),
            )
            &&& pending.request matches BackendRequest::TransportService(request)
            &&& request.is_request_for(
                client_data_json(challenge, origin),
                host,
                texts(credential_ids),
            )
        },
        None => r matches Err(e) && e == SignError::InvalidOrigin,
    }
}

/// Builds the client data and both digests: of the client data, and of the
/// relying party identifier.
pub fn generate_input_hashes(origin: String, challenge_str: String, rp_id: String) -> (r: Result<
    (String, Vec<u8>, Vec<u8>),
    SignError,
>)
    ensures
        match url_origin_serialization(origin@) {
            Some(normalized) => {
                &&& r matches Ok(hashes)
                &&& hashes.0@ == client_data_json(challenge_str@, normalized)
                &&& hashes.1@ == challenge_digest(hashes.0@)
                &&& hashes.2@ == application_digest(rp_id@)
                &&& hashes.1@.len() == DIGEST_LEN
                &&& hashes.2@.len() == DIGEST_LEN
            },
            None => r matches Err(e) && e == SignError::InvalidOrigin,
        },
{
    let client_data_json = match client_data(origin, challenge_str) {
        Ok(document) => document,
        Err(e) => {
            return Err(e);
        },
    };
    let (chall_bytes, app_bytes) = input_digests(client_data_json.as_str(), rp_id.as_str());
    Ok((client_data_json, chall_bytes, app_bytes))
}

/// One unrestricted key handle for each credential.
pub fn key_handles_for(credentials: Vec<Vec<u8>>) -> (handles: Vec<KeyHandle>)
    ensures
        key_handle_credentials(handles@) == byte_strings(credentials@),
        forall|i: int| 0 <= i < handles@.len() ==> (#[trigger] handles@[i]).transports == 0,
{
    let mut handles: Vec<KeyHandle> = Vec::new();
    let ghost all = credentials@;
    for credential in iter: credentials
        invariant
            key_handle_credentials(handles@) == byte_strings(all.take(iter.index() as int)),
            forall|i: int| 0 <= i < handles@.len() ==> (#[trigger] handles@[i]).transports == 0,
            iter.seq() == all,
    {
        let ghost before = key_handle_credentials(handles@);
        handles.push(KeyHandle { credential, transports: 0 });
        assert(key_handle_credentials(handles@) =~= before.push(credential@));
        assert(byte_strings(all.take(iter.index() + 1)) =~= byte_strings(
            all.take(iter.index() as int),
        ).push(credential@));
    }
    assert(all.take(all.len() as int) =~= all);
    handles
}

/// Prepares a signing operation for the authenticator service.
///
/// The origin is `https://` and the host. The request carries the digest of
/// the client data, the digest of the host, and the credentials that the
/// identifiers name.
pub fn sign(
    challenge_str: String,
    host: String,
    credential_ids: Vec<String>,
    notifiers: Vec<RegisteredNotifier>,
) -> (r: Result<PendingSign, SignError>)
    ensures
        prepared(challenge_str@, host@, credential_ids@, notifiers@, r),
{
    let mut origin = String::from_str("https://");
    origin.append(host.as_str());
    let rp_id = host.clone();
    let (client_data_json, chall_bytes, app_bytes) = match generate_input_hashes(
        origin,
        challenge_str,
        rp_id,
    ) {
        Ok(hashes) => hashes,
        Err(e) => {
            return Err(e);
        },
    };
    let key_handles = key_handles_for(decode_credential_ids(&credential_ids));
    let mut app_ids: Vec<Vec<u8>> = Vec::new();
    app_ids.push(slice_to_vec(app_bytes.as_slice()));
    assert(byte_strings(app_ids@) =~= seq![application_digest(host@)]);
    let request = TransportSignRequest {
        sign_flags: 0,
        timeout_ms: SIGN_TIMEOUT_MS,
        challenge: chall_bytes,
        app_ids,
        key_handles,
    };
    let session = SignSession::begin(notifiers.len(), client_data_json, app_bytes);
    Ok(PendingSign { notifiers, request: BackendRequest::TransportService(request), session })
}

} // verus!
