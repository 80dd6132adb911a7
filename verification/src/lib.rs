//! Client-side construction of WebAuthn/U2F assertions.
//!
//! The crate prepares everything a platform authenticator needs to sign a
//! relying party's challenge, decides what happens around the blocking wait
//! for the user, and turns the authenticator's answer into the response a
//! caller forwards to the relying party. Talking to the device itself, and
//! drawing the prompts that ask for it, is left to the embedding program.

pub mod assertion;
pub mod credentials;
pub mod desktop_notifications;
pub mod digest;
pub mod encoding;
pub mod error;
pub mod mozilla;
pub mod progress_bar;
pub mod session;
pub mod utils;
pub mod views;
pub mod windows;

use crate::assertion::SignedAssertion;
use crate::desktop_notifications::DesktopNotificationsFallbackNotifier;
use crate::encoding::base64_standard_encoding;
use crate::encoding::encode_standard_padded;
use crate::error::NotifierError;
use crate::error::SignError;
use crate::mozilla::TransportSignRequest;
use crate::progress_bar::ProgressBarFallbackNotifier;
use crate::session::SignSession;
use crate::windows::NativeAssertionRequest;
use vstd::prelude::*;

verus! {

/// Tells the user that the device is waited for, and that the wait is over.
/// Either call may fail.
pub trait WebauthnNotifier {
    fn notify_start(&self) -> Result<(), NotifierError>;

    fn notify_end(&self) -> Result<(), NotifierError>;
}

/// A notifier as a client holds it: one of the caller's own, or one of the
/// two that the crate describes.
pub enum RegisteredNotifier {
    Custom(Box<dyn WebauthnNotifier>),
    ProgressBar(ProgressBarFallbackNotifier),
    DesktopNotification(DesktopNotificationsFallbackNotifier),
}

impl RegisteredNotifier {
    /// A notifier of the caller's own as a client holds it.
    pub fn custom(notifier: Box<dyn WebauthnNotifier>) -> (registered: Self)
        ensures
            registered == RegisteredNotifier::Custom(notifier),
    {
        RegisteredNotifier::Custom(notifier)
    }
}

/// The two ways of reaching an authenticator. A platform uses one of them.
#[derive(Debug, Clone, Copy, PartialEq, Eq, Structural)]
pub enum BackendKind {
    /// The authenticator service that drives USB-HID devices itself.
    TransportService,
    /// The assertion facility of the operating system.
    NativeAssertion,
}

/// What a backend is asked.
#[derive(Debug)]
pub enum BackendRequest {
    TransportService(TransportSignRequest),
    NativeAssertion(NativeAssertionRequest),
}

/// A signing operation that has been prepared: the notifiers to call, the
/// request to hand to the backend, and the session that says in which order.
pub struct PendingSign {
    pub notifiers: Vec<RegisteredNotifier>,
    pub request: BackendRequest,
    pub session: SignSession,
}

/// The result of a signing operation as it goes over the wire: three texts
/// in standard base64 with padding.
#[derive(Debug)]
pub struct SignatureResponse {
    pub client_data: String,
    pub signature_data: String,
    pub authenticator_data: String,
}

impl SignatureResponse {
    /// Encodes a signed assertion: the UTF-8 bytes of the client data, the
    /// signature and the authenticator data, each in standard base64.
    pub fn from_assertion(assertion: &SignedAssertion) -> (response: Self)
        requires
            assertion.encodable(),
        ensures
            response.client_data@ == base64_standard_encoding(
                vstd::utf8::encode_utf8(assertion.client_data@),
            ),
            response.signature_data@ == base64_standard_encoding(assertion.signature@),
            response.authenticator_data@ == base64_standard_encoding(assertion.authenticator_data@),
    {
        SignatureResponse {
            client_data: encode_standard_padded(assertion.client_data.as_str().as_bytes()),
            signature_data: encode_standard_padded(assertion.signature.as_slice()),
            authenticator_data: encode_standard_padded(assertion.authenticator_data.as_slice()),
        }
    }
}

/// The entry point: collects notifiers, then prepares signing operations.
pub struct WebauthnClient {
    notifiers: Vec<RegisteredNotifier>,
}

impl Default for WebauthnClient {
    fn default() -> (client: Self)
        ensures
            client.notifiers() == Seq::<RegisteredNotifier>::empty(),
    {
        WebauthnClient { notifiers: Vec::new() }
    }
}

impl WebauthnClient {
    /// The registered notifiers, in the order of registration.
    pub closed spec fn notifiers(&self) -> Seq<RegisteredNotifier> {
        self.notifiers@
    }

    /// A client without notifiers.
    pub fn new() -> (client: Self)
        ensures
            client.notifiers() == Seq::<RegisteredNotifier>::empty(),
    {
        Self::default()
    }

    /// Registers a notifier of the caller's own, after those already there.
    pub fn add_notifier(&mut self, notifier: Box<dyn WebauthnNotifier>) -> (client: &mut WebauthnClient)
        ensures
            client.notifiers().len() == old(self).notifiers().len() + 1,
            client.notifiers().drop_last() == old(self).notifiers(),
            client.notifiers().last() is Custom,
            *final(self) == *final(client),
    {
        self.notifiers.push(RegisteredNotifier::custom(notifier));
        assert(self.notifiers@.drop_last() =~= old(self).notifiers@);
        self
    }

    /// Registers the terminal spinner, after the notifiers already there.
    pub fn add_progress_bar_notifier(&mut self) -> (client: &mut WebauthnClient)
        ensures
            client.notifiers().len() == old(self).notifiers().len() + 1,
            client.notifiers().drop_last() == old(self).notifiers(),
            client.notifiers().last() matches RegisteredNotifier::ProgressBar(spinner)
                && spinner.is_standard(),
            *final(self) == *final(client),
    {
        let notifier = ProgressBarFallbackNotifier::new();
        self.notifiers.push(RegisteredNotifier::ProgressBar(notifier));
        assert(self.notifiers@.drop_last() =~= old(self).notifiers@);
        self
    }

    /// Registers the desktop notification, after the notifiers already
    /// there.
    pub fn add_desktop_notification_notifier(&mut self) -> (client: &mut WebauthnClient)
        ensures
            client.notifiers().len() == old(self).notifiers().len() + 1,
            client.notifiers().drop_last() == old(self).notifiers(),
            client.notifiers().last() is DesktopNotification,
            *final(self) == *final(client),
    {
        let notifier = DesktopNotificationsFallbackNotifier::new();
        self.notifiers.push(RegisteredNotifier::DesktopNotification(notifier));
        assert(self.notifiers@.drop_last() =~= old(self).notifiers@);
        self
    }

    /// Prepares a signing operation for the backend of the platform. The
    /// notifiers move into the operation.
    pub fn sign(
        self,
        challenge_str: String,
        host: String,
        credential_ids: Vec<String>,
        backend: BackendKind,
    ) -> (r: Result<PendingSign, SignError>)
        ensures
            backend == BackendKind::TransportService ==> crate::mozilla::prepared(
                challenge_str@,
                host@,
                credential_ids@,
                self.notifiers(),
                r,
            ),
            backend == BackendKind::NativeAssertion ==> crate::windows::prepared(
                challenge_str@,
                host@,
                credential_ids@,
                self.notifiers(),
                r,
            ),
    {
        match backend {
            BackendKind::TransportService => crate::mozilla::sign(
                challenge_str,
                host,
                credential_ids,
                self.notifiers,
            ),
            BackendKind::NativeAssertion => crate::windows::sign(
                challenge_str,
                host,
                credential_ids,
                self.notifiers,
            ),
        }
    }
}

} // verus!
